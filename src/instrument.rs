use vstd::prelude::*;

use crate::quote::{message_of, FetchError};

verus! {

/// One of the fixed price sources that the poll loop visits.
#[derive(Clone, Copy, Debug, PartialEq, Eq, Structural)]
pub enum Instrument {
    Bitcoin,
    Ethereum,
    SP500,
}

/// The instruments in the order in which each round polls them.
pub open spec fn instruments() -> Seq<Instrument> {
    seq![Instrument::Bitcoin, Instrument::Ethereum, Instrument::SP500]
}

/// Display name, also the stem of the instrument's record file.
pub open spec fn name_of(i: Instrument) -> Seq<char> {
    match i {
        Instrument::Bitcoin => "Bitcoin"@,
        Instrument::Ethereum => "Ethereum"@,
        Instrument::SP500 => "SP500"@,
    }
}

/// The chart endpoint queried for the instrument.
pub open spec fn url_of(i: Instrument) -> Seq<char> {
    match i {
        Instrument::Bitcoin => "https://query1.finance.yahoo.com/v8/finance/chart/BTC-USD?interval=1m&range=1d"@,
        Instrument::Ethereum => "https://query1.finance.yahoo.com/v8/finance/chart/ETH-USD?interval=1m&range=1d"@,
        Instrument::SP500 => "https://query1.finance.yahoo.com/v8/finance/chart/%5EGSPC?interval=1m&range=1d"@,
    }
}

impl Instrument {
    /// Every instrument, in polling order.
    pub fn all() -> (r: Vec<Instrument>)
        ensures
            r@ == instruments(),
    {
        let r = vec![Instrument::Bitcoin, Instrument::Ethereum, Instrument::SP500];
        assert(r@ =~= instruments());
        r
    }

    pub fn name(&self) -> (r: &'static str)
        ensures
            r@ == name_of(*self),
    {
        match self {
            Instrument::Bitcoin => "Bitcoin",
            Instrument::Ethereum => "Ethereum",
            Instrument::SP500 => "SP500",
        }
    }

    pub fn url(&self) -> (r: &'static str)
        ensures
            r@ == url_of(*self),
    {
        match self {
            Instrument::Bitcoin => "https://query1.finance.yahoo.com/v8/finance/chart/BTC-USD?interval=1m&range=1d",
            Instrument::Ethereum => "https://query1.finance.yahoo.com/v8/finance/chart/ETH-USD?interval=1m&range=1d",
            Instrument::SP500 => "https://query1.finance.yahoo.com/v8/finance/chart/%5EGSPC?interval=1m&range=1d",
        }
    }

    /// Name of the file that keeps the instrument's latest price.
    pub fn file_name(&self) -> (r: String)
        ensures
            r@ == name_of(*self) + ".txt"@,
    {
        let mut r = String::from_str(self.name());
        r.append(".txt");
        r
    }

    /// The line written to the record file, given the price as text.
    pub fn record_line(&self, price_text: &str) -> (r: String)
        ensures
            r@ == "Latest price for "@ + name_of(*self) + ": "@ + price_text@,
    {
        let mut r = String::from_str("Latest price for ");
        r.append(self.name());
        r.append(": ");
        r.append(price_text);
        r
    }

    /// The console line for a fetched price, given the price as text.
    pub fn price_line(&self, price_text: &str) -> (r: String)
        ensures
            r@ == "Current price for "@ + name_of(*self) + ": $"@ + price_text@ + " USD"@,
    {
        let mut r = String::from_str("Current price for ");
        r.append(self.name());
        r.append(": $");
        r.append(price_text);
        r.append(" USD");
        r
    }

    /// The error-stream line for a failed fetch.
    pub fn failure_line(&self, err: &FetchError) -> (r: String)
        ensures
            r@ == "Failed to fetch price for "@ + name_of(*self) + ": "@ + message_of(*err),
    {
        let mut r = String::from_str("Failed to fetch price for ");
        r.append(self.name());
        r.append(": ");
        let m = err.message();
        r.append(m.as_str());
        r
    }
}

} // verus!
