use quote_poller::{Command, FetchError, Instrument, Poller, Price, Report, POLL_INTERVAL_SECS};

fn render(report: &Report) -> (bool, String) {
    match report {
        Report::Price(inst, p) => (report.to_stderr(), inst.price_line(&f64::from_bits(p.bits).to_string())),
        Report::Failure(inst, e) => (report.to_stderr(), inst.failure_line(e)),
        Report::Separator => (report.to_stderr(), String::new()),
    }
}

#[test]
fn round_with_one_failure() {
    let mut poller = Poller::new();
    assert_eq!(poller.command(), Command::Fetch(Instrument::Bitcoin));
    let outcomes = vec![
        Ok(Price { bits: 50000.25f64.to_bits() }),
        Err(FetchError::Request("Connection refused".to_string())),
        Ok(Price { bits: 5000.5f64.to_bits() }),
    ];
    let mut lines = Vec::new();
    let mut commands = Vec::new();
    for outcome in outcomes {
        let (reports, next) = poller.on_fetched(outcome);
        lines.extend(reports.iter().map(render));
        commands.push(next);
    }
    assert_eq!(
        commands,
        vec![
            Command::Fetch(Instrument::Ethereum),
            Command::Fetch(Instrument::SP500),
            Command::Sleep(10),
        ]
    );
    assert_eq!(
        lines,
        vec![
            (false, "Current price for Bitcoin: $50000.25 USD".to_string()),
            (true, "Failed to fetch price for Ethereum: Request failed: Connection refused".to_string()),
            (false, "Current price for SP500: $5000.5 USD".to_string()),
            (false, String::new()),
        ]
    );
    assert_eq!(poller.command(), Command::Fetch(Instrument::Bitcoin));
}

#[test]
fn transport_failure_moves_on_to_next_instrument() {
    let mut poller = Poller::new();
    let (reports, next) = poller.on_fetched(Err(FetchError::Request("Connection refused".to_string())));
    assert_eq!(reports.len(), 1);
    assert!(reports[0].to_stderr());
    assert_eq!(next, Command::Fetch(Instrument::Ethereum));
    assert_eq!(poller.command(), Command::Fetch(Instrument::Ethereum));
}

#[test]
fn poll_interval_is_ten_seconds() {
    assert_eq!(POLL_INTERVAL_SECS, 10);
}
