use uptime_watch::monitor::{
    classify_probe, notice_text, should_notify, Action, Event, Monitor, Phase, ProbeFailure,
    ProbeOutcome,
};
use uptime_watch::registry::{answer, Command};
use uptime_watch::store::{list_all_records, WatchStore};
use uptime_watch::watch::{Status, Watch};

fn w(id: i32, owner: i64, url: &str, status: Status) -> Watch {
    Watch { id, owner, url: url.to_string(), status }
}

fn notify_of(a: &Action) -> Option<(i64, String)> {
    match a {
        Action::Notify(o, t) => Some((*o, t.clone())),
        _ => None,
    }
}

/// Runs one cycle over `watches` with the given outcomes; returns the
/// notifications and the last action.
fn run_cycle(m: &mut Monitor, watches: Vec<Watch>, outcomes: &[ProbeOutcome]) -> (Vec<(i64, String)>, Action) {
    let mut sent = Vec::new();
    let mut a = m.step(Event::Loaded(watches));
    let mut k = 0;
    loop {
        match a {
            Action::Probe(_) => {
                a = m.step(Event::Probed(outcomes[k]));
                k += 1;
            }
            Action::Notify(_, _) => {
                sent.push(notify_of(&a).unwrap());
                a = m.step(Event::Delivered(true));
            }
            _ => return (sent, a),
        }
    }
}

#[test]
fn classification_of_probes() {
    assert_eq!(classify_probe(Ok(200)), ProbeOutcome::Reachable);
    assert_eq!(classify_probe(Ok(503)), ProbeOutcome::Reachable);
    assert_eq!(classify_probe(Err(ProbeFailure::TimedOut)), ProbeOutcome::Unreachable);
    assert_eq!(classify_probe(Err(ProbeFailure::ConnectionFailed)), ProbeOutcome::Unreachable);
    assert_eq!(classify_probe(Err(ProbeFailure::Transport)), ProbeOutcome::Unreachable);
    assert_eq!(classify_probe(Err(ProbeFailure::InvalidUrl)), ProbeOutcome::Malformed);
}

#[test]
fn notify_decision_table() {
    assert!(should_notify(Status::Up, ProbeOutcome::Reachable));
    assert!(!should_notify(Status::Up, ProbeOutcome::Unreachable));
    assert!(should_notify(Status::Down, ProbeOutcome::Unreachable));
    assert!(!should_notify(Status::Down, ProbeOutcome::Reachable));
    assert!(should_notify(Status::Down, ProbeOutcome::Malformed));
}

#[test]
fn notice_text_names_url_and_status() {
    assert_eq!(notice_text(&w(1, 2, "http://a.com", Status::Up)), "http://a.com is up!");
    assert_eq!(notice_text(&w(1, 2, "http://a.com", Status::Down)), "http://a.com is down!");
}

#[test]
fn cycle_notifies_once_per_matching_watch() {
    let mut m = Monitor::new(120);
    assert!(matches!(m.step(Event::Start), Action::Load));
    let ws = vec![
        w(1, 10, "http://a", Status::Up),
        w(2, 11, "http://b", Status::Up),
        w(3, 12, "http://c", Status::Down),
        w(4, 13, "http://d", Status::Down),
    ];
    let outcomes = [
        ProbeOutcome::Reachable,
        ProbeOutcome::Unreachable,
        ProbeOutcome::Unreachable,
        ProbeOutcome::Reachable,
    ];
    let (sent, last) = run_cycle(&mut m, ws, &outcomes);
    assert_eq!(sent, vec![(10, "http://a is up!".to_string()), (12, "http://c is down!".to_string())]);
    assert!(matches!(last, Action::Sleep(120)));
    assert_eq!(m.phase(), Phase::Sleeping);
    assert!(matches!(m.step(Event::Woke), Action::Load));
    let (again, _) = run_cycle(&mut m, vec![w(1, 10, "http://a", Status::Up)], &[ProbeOutcome::Reachable]);
    assert_eq!(again, vec![(10, "http://a is up!".to_string())]);
}

#[test]
fn timeout_does_not_end_cycle() {
    let mut m = Monitor::new(5);
    m.step(Event::Start);
    let a = m.step(Event::Loaded(vec![w(1, 1, "http://a", Status::Up), w(2, 1, "http://b", Status::Up)]));
    assert!(matches!(a, Action::Probe(ref u) if u == "http://a"));
    let a = m.step(Event::Probed(classify_probe(Err(ProbeFailure::TimedOut))));
    assert!(matches!(a, Action::Probe(ref u) if u == "http://b"));
}

#[test]
fn failed_load_abandons_cycle() {
    let mut m = Monitor::new(120);
    m.step(Event::Start);
    assert!(matches!(m.step(Event::LoadFailed), Action::Sleep(120)));
    assert!(matches!(m.step(Event::Woke), Action::Load));
    assert!(matches!(m.step(Event::Loaded(Vec::new())), Action::Sleep(120)));
}

#[test]
fn failed_delivery_is_not_retried() {
    let mut m = Monitor::new(1);
    m.step(Event::Start);
    m.step(Event::Loaded(vec![w(1, 1, "http://a", Status::Down)]));
    assert!(matches!(m.step(Event::Probed(ProbeOutcome::Unreachable)), Action::Notify(1, _)));
    assert!(matches!(m.step(Event::Delivered(false)), Action::Sleep(1)));
}

#[test]
fn stop_lets_cycle_finish() {
    let mut m = Monitor::new(1);
    m.step(Event::Start);
    m.step(Event::Loaded(vec![w(1, 1, "http://a", Status::Up)]));
    assert!(matches!(m.step(Event::Stop), Action::Wait));
    assert!(matches!(m.step(Event::Probed(ProbeOutcome::Unreachable)), Action::Halt));
    assert_eq!(m.phase(), Phase::Stopped);
    assert!(matches!(m.step(Event::Start), Action::Halt));
    let mut idle = Monitor::new(1);
    assert!(matches!(idle.step(Event::Stop), Action::Halt));
}

#[test]
fn end_to_end_down_watch() {
    let mut store = WatchStore::new();
    let reply = answer(
        &mut store,
        42,
        Command::Watch { status: "down".to_string(), url: "example.com".to_string() },
    );
    assert_eq!(reply, "Successfully added your link.");
    let rows = list_all_records(&store);
    assert_eq!(rows.len(), 1);
    assert_eq!(rows[0].url, "http://example.com");

    let mut m = Monitor::new(120);
    m.step(Event::Start);
    let refused = classify_probe(Err(ProbeFailure::ConnectionFailed));
    let (sent, _) = run_cycle(&mut m, list_all_records(&store), &[refused]);
    assert_eq!(sent, vec![(42, "http://example.com is down!".to_string())]);

    m.step(Event::Woke);
    let ok = classify_probe(Ok(200));
    let (sent, _) = run_cycle(&mut m, list_all_records(&store), &[ok]);
    assert!(sent.is_empty());
}
