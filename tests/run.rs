use notify_on_exit::config::{EnvFileOutcome, EnvLocation};
use notify_on_exit::request::Cli;
use notify_on_exit::session::{Action, Event, Session, Stage};

fn cli(name: &str, interval: u64, dry_run: bool) -> Cli {
    Cli { process_name: name.to_string(), interval, dry_run }
}

fn fail(m: &str) -> Action {
    Action::Fail(m.to_string())
}

/// Drives a non-dry run through both `.env` locations and the variable read.
fn resolved(name: &str, url: &str) -> Session {
    let (mut s, a) = Session::begin(cli(name, 10, false));
    assert_eq!(a, Action::LoadEnvFile(EnvLocation::ExeDir));
    assert_eq!(s.step(Event::EnvFileLoaded(EnvFileOutcome::Missing)), Action::LoadEnvFile(EnvLocation::WorkingDir));
    assert_eq!(s.step(Event::EnvFileLoaded(EnvFileOutcome::Loaded)), Action::ReadUrl);
    assert_eq!(
        s.step(Event::UrlRead(Ok(url.to_string()))),
        Action::LookUp { process_name: name.to_string() }
    );
    s
}

#[test]
fn dry_run_waits_then_reports_stop() {
    let (mut s, a) = Session::begin(cli("myapp.exe", 10, true));
    assert_eq!(a, Action::LookUp { process_name: "myapp.exe".to_string() });
    assert_eq!(s.step(Event::LookedUp(Some(42))), Action::Pause { secs: 10, pid: 42 });
    assert_eq!(s.step(Event::Polled(true)), Action::Pause { secs: 10, pid: 42 });
    assert_eq!(s.step(Event::Polled(true)), Action::Pause { secs: 10, pid: 42 });
    assert_eq!(
        s.step(Event::Polled(false)),
        Action::Succeed(Some("Process stopped: myapp.exe".to_string()))
    );
    assert_eq!(s.stage(), Stage::Done);
}

#[test]
fn missing_process_fails_at_once() {
    let mut s = resolved("ghost.exe", "https://x/y");
    assert_eq!(s.step(Event::LookedUp(None)), fail("process isn't running: ghost.exe"));
    assert_eq!(s.stage(), Stage::Done);
    assert!(matches!(s.step(Event::Polled(false)), Action::Fail(_)));
}

#[test]
fn missing_process_fails_in_dry_run_too() {
    let (mut s, _) = Session::begin(cli("ghost.exe", 3, true));
    assert_eq!(s.step(Event::LookedUp(None)), fail("process isn't running: ghost.exe"));
}

#[test]
fn zero_interval_is_refused() {
    let (mut s, a) = Session::begin(cli("app", 0, false));
    assert_eq!(a, fail("interval is too short (must be at least 1 second)"));
    assert_eq!(s.stage(), Stage::Done);
    assert!(matches!(s.step(Event::LookedUp(Some(1))), Action::Fail(_)));
}

#[test]
fn empty_name_is_refused_first() {
    let (s, a) = Session::begin(cli("", 0, true));
    assert_eq!(a, fail("process name can't be empty"));
    assert_eq!(s.stage(), Stage::Done);
}

#[test]
fn interval_of_one_second_is_accepted() {
    assert_eq!(cli("app", 1, false).enforce_invariants(), Ok(()));
    assert_eq!(
        cli("app", 0, false).enforce_invariants(),
        Err("interval is too short (must be at least 1 second)".to_string())
    );
}

#[test]
fn stop_sends_one_notification() {
    let mut s = resolved("app", "https://x/y");
    assert_eq!(s.step(Event::LookedUp(Some(7))), Action::Pause { secs: 10, pid: 7 });
    assert_eq!(
        s.step(Event::Polled(false)),
        Action::Notify {
            url: "https://x/y".to_string(),
            announcement: "Process stopped, sending notification: app".to_string(),
        }
    );
    assert_eq!(s.step(Event::Notified(Ok(()))), Action::Succeed(None));
}

#[test]
fn transport_error_fails_the_run() {
    let mut s = resolved("app", "https://x/y");
    s.step(Event::LookedUp(Some(7)));
    s.step(Event::Polled(false));
    assert_eq!(
        s.step(Event::Notified(Err("connection refused".to_string()))),
        fail("http request failed: connection refused")
    );
}

#[test]
fn dry_run_never_resolves_or_notifies() {
    let (mut s, a) = Session::begin(cli("app", 2, true));
    assert!(matches!(a, Action::LookUp { .. }));
    assert_eq!(s.step(Event::LookedUp(Some(3))), Action::Pause { secs: 2, pid: 3 });
    let last = s.step(Event::Polled(false));
    assert!(!matches!(last, Action::Notify { .. } | Action::ReadUrl | Action::LoadEnvFile(_)));
}

#[test]
fn unset_url_fails_before_lookup() {
    let (mut s, _) = Session::begin(cli("app", 10, false));
    s.step(Event::EnvFileLoaded(EnvFileOutcome::Missing));
    s.step(Event::EnvFileLoaded(EnvFileOutcome::Missing));
    assert_eq!(
        s.step(Event::UrlRead(Err("environment variable not found".to_string()))),
        fail("environment variable not found")
    );
    assert!(matches!(s.step(Event::LookedUp(Some(1))), Action::Fail(_)));
}

#[test]
fn empty_url_fails_before_lookup() {
    let (mut s, _) = Session::begin(cli("app", 10, false));
    s.step(Event::EnvFileLoaded(EnvFileOutcome::Loaded));
    s.step(Event::EnvFileLoaded(EnvFileOutcome::Missing));
    assert_eq!(
        s.step(Event::UrlRead(Ok(String::new()))),
        fail("'NOTIF_URL' environment variable needs to be set (to the webhook url)")
    );
}

#[test]
fn non_http_url_fails_before_lookup() {
    let (mut s, _) = Session::begin(cli("app", 10, false));
    s.step(Event::EnvFileLoaded(EnvFileOutcome::Missing));
    s.step(Event::EnvFileLoaded(EnvFileOutcome::Missing));
    assert_eq!(s.step(Event::UrlRead(Ok("ftp://x/y".to_string()))), fail("`NOTIF_URL` must be a url"));
    assert_eq!(s.stage(), Stage::Done);
}

#[test]
fn malformed_env_file_in_exe_dir_fails() {
    let (mut s, _) = Session::begin(cli("app", 10, false));
    assert_eq!(
        s.step(Event::EnvFileLoaded(EnvFileOutcome::Failed("line 2".to_string()))),
        fail("failed read .env file in exe directory: line 2")
    );
}

#[test]
fn malformed_env_file_in_working_dir_fails() {
    let (mut s, _) = Session::begin(cli("app", 10, false));
    s.step(Event::EnvFileLoaded(EnvFileOutcome::Loaded));
    assert_eq!(
        s.step(Event::EnvFileLoaded(EnvFileOutcome::Failed("line 5".to_string()))),
        fail("failed read .env file in current working directory: line 5")
    );
}

#[test]
fn unknown_exe_dir_fails_with_its_reason() {
    let (mut s, _) = Session::begin(cli("app", 10, false));
    assert_eq!(
        s.step(Event::EnvFileLoaded(EnvFileOutcome::NoLocation("no parent".to_string()))),
        fail("no parent")
    );
}

#[test]
fn event_out_of_order_fails() {
    let (mut s, _) = Session::begin(cli("app", 10, true));
    assert_eq!(
        s.step(Event::Polled(true)),
        fail("unexpected event for the current stage of the run")
    );
    assert_eq!(s.stage(), Stage::Done);
}

#[test]
fn largest_interval_is_passed_on() {
    let (mut s, _) = Session::begin(cli("app", u64::MAX, true));
    assert_eq!(s.step(Event::LookedUp(Some(u32::MAX))), Action::Pause { secs: u64::MAX, pid: u32::MAX });
}
