use authflow::credential::AuthError;
use authflow::flow::conclude;
use authflow::flow::flow_tick;
use authflow::flow::resolve;
use authflow::flow::FlowConfig;
use authflow::flow::FlowSession;
use authflow::flow::FlowStatus;
use authflow::flow::SurfaceObservation;
use authflow::flow::Tick;
use authflow::flow::TickDecision;

const REDIRECT: &[u8] = b"https://login.live.com/oauth20_desktop.srf";

fn config() -> FlowConfig {
    FlowConfig::recommended(REDIRECT.to_vec())
}

fn at(elapsed_ms: u64, seen: SurfaceObservation) -> Tick {
    Tick { elapsed_ms, seen }
}

fn open_at(elapsed_ms: u64, url: &[u8]) -> Tick {
    at(elapsed_ms, SurfaceObservation::Location(url.to_vec()))
}

#[test]
fn recommended_config_values() {
    let cfg = config();
    assert_eq!(cfg.poll_interval_ms, 50);
    assert_eq!(cfg.flow_timeout_ms, 600_000);
    assert_eq!(cfg.redirect_prefix, REDIRECT.to_vec());
}

#[test]
fn tick_deadline_is_checked_first() {
    // even a matching redirect no longer counts once the deadline passed
    let cfg = config();
    let t = open_at(600_000, b"https://login.live.com/oauth20_desktop.srf?code=x");
    assert!(matches!(flow_tick(&cfg, &t), TickDecision::TimeOut));
}

#[test]
fn tick_closed_surface_cancels() {
    let cfg = config();
    let t = at(100, SurfaceObservation::Closed);
    assert!(matches!(flow_tick(&cfg, &t), TickDecision::Cancel));
}

#[test]
fn tick_unreadable_location_fails() {
    let cfg = config();
    let t = at(100, SurfaceObservation::LocationUnavailable);
    assert!(matches!(flow_tick(&cfg, &t), TickDecision::Fail));
}

#[test]
fn tick_matching_redirect_accepts_its_code() {
    let cfg = config();
    let t = open_at(5_000, b"https://login.live.com/oauth20_desktop.srf?lc=1&code=M.abc");
    match flow_tick(&cfg, &t) {
        TickDecision::Accept(code) => assert_eq!(code, b"M.abc".to_vec()),
        _ => panic!("expected an accepted code"),
    }
}

#[test]
fn tick_wrong_prefix_keeps_waiting() {
    let cfg = config();
    let t = open_at(5_000, b"https://example.com/?code=M.abc");
    assert!(matches!(flow_tick(&cfg, &t), TickDecision::Wait));
}

#[test]
fn tick_matching_prefix_without_code_keeps_waiting() {
    let cfg = config();
    let t = open_at(5_000, b"https://login.live.com/oauth20_desktop.srf?error=denied");
    assert!(matches!(flow_tick(&cfg, &t), TickDecision::Wait));
}

#[test]
fn run_without_redirect_times_out() {
    // polls see only the provider's sign-in pages; then the deadline hits
    let cfg = config();
    let ticks = vec![
        open_at(0, b"https://login.live.com/signin"),
        open_at(50, b"https://login.live.com/signin?step=2"),
        open_at(100, b"https://login.live.com/password"),
        at(600_000, SurfaceObservation::Closed),
    ];
    let end = resolve(&cfg, &ticks);
    assert!(matches!(end, FlowStatus::TimedOut));
    assert_eq!(conclude(end).unwrap(), None);
}

#[test]
fn run_closed_before_redirect_cancels_with_same_shape() {
    let cfg = config();
    let ticks = vec![
        open_at(0, b"https://login.live.com/signin"),
        at(150, SurfaceObservation::Closed),
    ];
    let end = resolve(&cfg, &ticks);
    assert!(matches!(end, FlowStatus::Cancelled));
    // cancellation and timeout are indistinguishable to the caller
    let cancelled = conclude(end).unwrap();
    let timed_out = conclude(FlowStatus::TimedOut).unwrap();
    assert_eq!(cancelled, timed_out);
    assert_eq!(cancelled, None);
}

#[test]
fn run_with_one_redirect_accepts_exactly_that_code() {
    let cfg = config();
    let ticks = vec![
        open_at(0, b"https://login.live.com/signin"),
        open_at(50, b"https://login.live.com/signin?step=2"),
        open_at(100, b"https://login.live.com/oauth20_desktop.srf?code=M.R3_BAY.one"),
        // later ticks are never reached: the run ends at the redirect
        open_at(150, b"https://login.live.com/oauth20_desktop.srf?code=late"),
    ];
    match resolve(&cfg, &ticks) {
        FlowStatus::Accepted(code) => assert_eq!(code, b"M.R3_BAY.one".to_vec()),
        _ => panic!("expected the flow to accept a code"),
    }
}

#[test]
fn run_with_no_terminal_tick_stays_waiting() {
    let cfg = config();
    let ticks = vec![open_at(0, b"https://login.live.com/signin")];
    assert!(matches!(resolve(&cfg, &ticks), FlowStatus::Waiting));
}

#[test]
fn session_takes_ticks_until_terminal() {
    let cfg = config();
    let mut session = FlowSession::begin(cfg);
    let d1 = session.advance(&open_at(0, b"https://login.live.com/signin"));
    assert!(matches!(d1, TickDecision::Wait));
    assert!(matches!(session.status, FlowStatus::Waiting));
    let d2 = session.advance(&at(100, SurfaceObservation::Closed));
    assert!(matches!(d2, TickDecision::Cancel));
    assert!(matches!(session.status, FlowStatus::Cancelled));
}

#[test]
fn session_records_accepted_code() {
    let cfg = config();
    let mut session = FlowSession::begin(cfg);
    let d = session.advance(&open_at(
        200,
        b"https://login.live.com/oauth20_desktop.srf?code=once",
    ));
    assert!(matches!(d, TickDecision::Accept(_)));
    match session.status {
        FlowStatus::Accepted(code) => assert_eq!(code, b"once".to_vec()),
        _ => panic!("expected the session to hold the accepted code"),
    }
}

#[test]
fn conclude_hands_back_the_accepted_code() {
    let r = conclude(FlowStatus::Accepted(b"M.abc".to_vec()));
    assert_eq!(r, Ok(Some(b"M.abc".to_vec())));
}

#[test]
fn surface_ledger_never_holds_two() {
    let mut l = authflow::surface::SurfaceLedger::new();
    assert_eq!(l.open_surfaces, 0);
    assert!(!l.prepare());
    assert_eq!(l.open_surfaces, 1);
    assert!(l.prepare());
    assert_eq!(l.open_surfaces, 1);
    l.close_all();
    assert_eq!(l.open_surfaces, 0);
}

#[test]
fn conclude_maps_surface_failure_to_error() {
    let r = conclude(FlowStatus::Failed);
    assert_eq!(r, Err(AuthError::Surface));
    assert_eq!(AuthError::Surface.tag(), "surface");
}

#[test]
fn error_tags_are_stable() {
    assert_eq!(AuthError::FlowInit.tag(), "flow_init");
    assert_eq!(AuthError::RedirectParse.tag(), "redirect_parse");
    assert_eq!(AuthError::Exchange.tag(), "exchange");
    assert_eq!(AuthError::NotFound.tag(), "not_found");
}
