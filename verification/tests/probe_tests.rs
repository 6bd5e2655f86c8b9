use sidecar_supervisor::config::{
    SupervisorConfig, EXIT_BACKEND_UNREACHABLE, EXIT_NORMAL, MAX_PROBE_ATTEMPTS,
    PROBE_INTERVAL_MILLIS, TARGET_PORT,
};
use sidecar_supervisor::probe::{
    backend_ready, is_success_response, probe_host, probe_request, Directive, Prober,
    ReadinessState, RESPONSE_BUDGET,
};

/// Drives a prober with the given outcomes the way the shell does, and returns
/// the terminal state, the number of attempts made and the time slept.
fn drive(interval: u64, max_attempts: u32, outcomes: &[bool]) -> (ReadinessState, usize, u64) {
    let mut prober = Prober::new(interval, max_attempts);
    let mut made: usize = 0;
    let mut slept: u64 = 0;
    loop {
        match prober.poll() {
            Directive::Probe => {
                let ready = outcomes.get(made).copied().unwrap_or(false);
                made += 1;
                match prober.record(ready) {
                    Directive::Sleep { millis } => slept += millis,
                    Directive::Handoff => {}
                    other => panic!("unexpected directive {:?}", other),
                }
            }
            Directive::Handoff => return (ReadinessState::Ready, made, slept),
            Directive::Exit { status } => {
                assert_eq!(status, 1);
                return (ReadinessState::Failed, made, slept);
            }
            Directive::Sleep { .. } => panic!("poll never asks for a pause"),
        }
    }
}

#[test]
fn standard_configuration_values() {
    let config = SupervisorConfig::standard();
    assert_eq!(config.port, 8964);
    assert_eq!(config.interval_millis, 500);
    assert_eq!(config.max_attempts, 60);
    assert_eq!(TARGET_PORT, 8964);
    assert_eq!(PROBE_INTERVAL_MILLIS, 500);
    assert_eq!(MAX_PROBE_ATTEMPTS, 60);
    assert_eq!(EXIT_NORMAL, 0);
    assert_eq!(EXIT_BACKEND_UNREACHABLE, 1);
}

#[test]
fn request_wire_format() {
    assert_eq!(
        probe_request().as_bytes(),
        b"GET / HTTP/1.1\r\nHost: 127.0.0.1\r\nConnection: close\r\n\r\n"
    );
    assert_eq!(probe_host(), "127.0.0.1");
    assert_eq!(RESPONSE_BUDGET, 64);
}

#[test]
fn success_status_lines_are_accepted() {
    assert!(is_success_response(b"HTTP/1.1 200 OK\r\n\r\n"));
    assert!(is_success_response(b"HTTP/1.0 200 OK\r\n"));
    assert!(is_success_response(b"HTTP/1.1 200"));
    assert!(is_success_response(b"HTTP/1.0 200"));
    assert!(is_success_response(b"HTTP/1.1 2000"));
}

#[test]
fn other_responses_are_rejected() {
    assert!(!is_success_response(b""));
    assert!(!is_success_response(b"HTTP/1.1 20"));
    assert!(!is_success_response(b"HTTP/1.1 404 Not Found\r\n"));
    assert!(!is_success_response(b"HTTP/1.1 500 Internal Server Error"));
    assert!(!is_success_response(b"HTTP/1.2 200 OK"));
    assert!(!is_success_response(b"HTTP/2.0 200 OK"));
    assert!(!is_success_response(b"http/1.1 200 OK"));
    assert!(!is_success_response(b" HTTP/1.1 200 OK"));
    assert!(!is_success_response(b"HTTP/1.1  200 OK"));
    assert!(!is_success_response(&[0xff, 0xfe, 0x48, 0x54, 0x54, 0x50, 0x2f, 0x31, 0x2e, 0x31, 0x20, 0x32, 0x30, 0x30]));
}

#[test]
fn failed_connection_is_not_ready() {
    assert!(!backend_ready(None));
    assert!(backend_ready(Some(b"HTTP/1.1 200 OK\r\n")));
    assert!(!backend_ready(Some(b"HTTP/1.1 503 Service Unavailable\r\n")));
}

#[test]
fn new_prober_is_probing() {
    let prober = Prober::new(500, 60);
    assert_eq!(prober.state(), ReadinessState::Probing);
    assert_eq!(prober.poll(), Directive::Probe);
    assert_eq!(prober.failures, 0);
    assert_eq!(prober.interval_millis, 500);
    assert_eq!(prober.max_attempts, 60);
}

#[test]
fn empty_budget_fails_at_once() {
    let prober = Prober::new(500, 0);
    assert_eq!(prober.state(), ReadinessState::Failed);
    assert_eq!(prober.poll(), Directive::Exit { status: 1 });
    assert_eq!(drive(500, 0, &[true]), (ReadinessState::Failed, 0, 0));
}

#[test]
fn failure_is_followed_by_one_pause() {
    let mut prober = Prober::new(250, 3);
    assert_eq!(prober.record(false), Directive::Sleep { millis: 250 });
    assert_eq!(prober.state(), ReadinessState::Probing);
    assert_eq!(prober.failures, 1);
    assert_eq!(prober.record(false), Directive::Sleep { millis: 250 });
    assert_eq!(prober.poll(), Directive::Probe);
    assert_eq!(prober.record(false), Directive::Sleep { millis: 250 });
    assert_eq!(prober.state(), ReadinessState::Failed);
    assert_eq!(prober.failures, 3);
    assert_eq!(prober.poll(), Directive::Exit { status: 1 });
}

#[test]
fn terminal_states_take_no_outcome() {
    let mut ready = Prober::new(500, 5);
    assert_eq!(ready.record(true), Directive::Handoff);
    let snapshot = ready;
    assert_eq!(ready.record(false), Directive::Handoff);
    assert_eq!(ready.record(true), Directive::Handoff);
    assert_eq!(ready, snapshot);

    let mut failed = Prober::new(500, 1);
    assert_eq!(failed.record(false), Directive::Sleep { millis: 500 });
    let snapshot = failed;
    assert_eq!(failed.record(true), Directive::Exit { status: 1 });
    assert_eq!(failed, snapshot);
    assert_eq!(failed.state(), ReadinessState::Failed);
}

#[test]
fn only_failures_spend_the_whole_budget() {
    let outcomes = [false; 100];
    assert_eq!(drive(500, 60, &outcomes), (ReadinessState::Failed, 60, 30_000));
    assert_eq!(drive(500, 30, &outcomes), (ReadinessState::Failed, 30, 15_000));
    assert_eq!(drive(7, 1, &outcomes), (ReadinessState::Failed, 1, 7));
}

#[test]
fn first_success_stops_probing() {
    assert_eq!(drive(500, 60, &[true, false, true]), (ReadinessState::Ready, 1, 0));
    assert_eq!(drive(500, 60, &[false, true, true]), (ReadinessState::Ready, 2, 500));
    let mut last_chance = [false; 60];
    last_chance[59] = true;
    assert_eq!(drive(500, 60, &last_chance), (ReadinessState::Ready, 60, 29_500));
}

#[test]
fn success_after_the_budget_comes_too_late() {
    let mut outcomes = [false; 61];
    outcomes[60] = true;
    assert_eq!(drive(500, 60, &outcomes), (ReadinessState::Failed, 60, 30_000));
}

#[test]
fn backend_answers_on_third_attempt() {
    let responses: [Option<&[u8]>; 5] = [
        None,
        Some(b"HTTP/1.1 503 Service Unavailable\r\n"),
        Some(b"HTTP/1.1 200 OK\r\n"),
        Some(b"HTTP/1.1 200 OK\r\n"),
        None,
    ];
    let outcomes: Vec<bool> = responses.iter().map(|r| backend_ready(*r)).collect();
    assert_eq!(outcomes, vec![false, false, true, true, false]);
    assert_eq!(drive(500, 60, &outcomes), (ReadinessState::Ready, 3, 1_000));
}

#[test]
fn responses_are_classified_and_recorded() {
    let mut prober = Prober::new(500, 4);
    assert!(prober.is_valid());
    assert_eq!(prober.record_response(None), Directive::Sleep { millis: 500 });
    assert_eq!(
        prober.record_response(Some(b"HTTP/1.1 404 Not Found\r\n")),
        Directive::Sleep { millis: 500 }
    );
    assert_eq!(prober.record_response(Some(b"HTTP/1.0 200 OK\r\n")), Directive::Handoff);
    assert_eq!(prober.state(), ReadinessState::Ready);
    assert_eq!(prober.failures, 2);
    assert!(prober.is_valid());
}

#[test]
fn a_run_of_responses_is_recorded_in_order() {
    let ok = Some(b"HTTP/1.1 200 OK\r\n".to_vec());
    let bad = Some(b"HTTP/1.1 500 Oops\r\n".to_vec());

    let mut prober = Prober::new(500, 60);
    prober.record_all(&vec![None, bad.clone(), ok.clone(), None, ok.clone()]);
    assert_eq!(prober.state(), ReadinessState::Ready);
    assert_eq!(prober.failures, 2);

    let mut prober = Prober::new(500, 3);
    prober.record_all(&vec![None, bad.clone(), None, ok.clone()]);
    assert_eq!(prober.state(), ReadinessState::Failed);
    assert_eq!(prober.failures, 3);

    let mut prober = Prober::new(500, 3);
    prober.record_all(&vec![None, bad.clone()]);
    assert_eq!(prober.state(), ReadinessState::Probing);
    assert_eq!(prober.failures, 2);

    let mut prober = Prober::new(500, 3);
    prober.record_all(&Vec::new());
    assert_eq!(prober, Prober::new(500, 3));
}

#[test]
fn invalid_probers_are_told_apart() {
    let spent = Prober { interval_millis: 1, max_attempts: 2, failures: 2, state: ReadinessState::Probing };
    assert!(!spent.is_valid());
    let over = Prober { interval_millis: 1, max_attempts: 2, failures: 3, state: ReadinessState::Failed };
    assert!(!over.is_valid());
    let early = Prober { interval_millis: 1, max_attempts: 2, failures: 1, state: ReadinessState::Failed };
    assert!(!early.is_valid());
    let fine = Prober { interval_millis: 1, max_attempts: 2, failures: 1, state: ReadinessState::Ready };
    assert!(fine.is_valid());
}
