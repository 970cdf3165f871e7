use vstd::prelude::*;

use crate::config::{
    check_env_file, check_webhook_url, env_file_error, url_error, EnvFileOutcome,
    EnvFileOutcomeView, EnvLocation,
};
use crate::request::{request_error, Cli, CliView};

verus! {

/// What a run is waiting for.
#[derive(Clone, Copy, Debug, PartialEq, Eq, Structural)]
pub enum Stage {
    /// The outcome of loading the `.env` file at a location.
    LoadingEnv(EnvLocation),
    /// The value of the webhook variable.
    ReadingUrl,
    /// The first process whose name matches exactly.
    LookingUp,
    /// Whether the watched process is still alive after a pause.
    Watching { pid: u32 },
    /// The outcome of the webhook call.
    Notifying,
    /// Nothing: the run is over.
    Done,
}

/// What the surrounding program observed, handed back to the run.
#[derive(Debug, PartialEq, Eq)]
pub enum Event {
    /// The `.env` file asked for was loaded, or not.
    EnvFileLoaded(EnvFileOutcome),
    /// The webhook variable was read, or reading it failed with the text given.
    UrlRead(Result<String, String>),
    /// One snapshot of the process table: the id of the first process with
    /// the exact name, if there is one.
    LookedUp(Option<u32>),
    /// The watched process was refreshed: whether it is still alive.
    Polled(bool),
    /// The webhook call completed, or failed at transport level with the text given.
    Notified(Result<(), String>),
}

/// What the surrounding program must do next.
#[derive(Debug, PartialEq, Eq)]
pub enum Action {
    /// Load the `.env` file at this location, without overwriting variables
    /// that are already set.
    LoadEnvFile(EnvLocation),
    /// Read the `NOTIF_URL` environment variable.
    ReadUrl,
    /// Take one snapshot of the process table and find the first process
    /// with exactly this name.
    LookUp { process_name: String },
    /// Sleep for `secs` seconds, then refresh process `pid` alone.
    Pause { secs: u64, pid: u32 },
    /// Print `announcement`, then send one POST with an empty body to `url`.
    Notify { url: String, announcement: String },
    /// The run succeeded; print the line, if any, and exit with status 0.
    Succeed(Option<String>),
    /// The run failed with this message; exit with status 1.
    Fail(String),
}

/// The mathematical content of an [`Event`].
pub enum EventView {
    EnvFileLoaded(EnvFileOutcomeView),
    UrlRead(Result<Seq<char>, Seq<char>>),
    LookedUp(Option<u32>),
    Polled(bool),
    Notified(Result<(), Seq<char>>),
}

/// The mathematical content of an [`Action`].
pub enum ActionView {
    LoadEnvFile(EnvLocation),
    ReadUrl,
    LookUp { process_name: Seq<char> },
    Pause { secs: u64, pid: u32 },
    Notify { url: Seq<char>, announcement: Seq<char> },
    Succeed(Option<Seq<char>>),
    Fail(Seq<char>),
}

impl View for Event {
    type V = EventView;

    open spec fn view(&self) -> EventView {
        match self {
            Event::EnvFileLoaded(o) => EventView::EnvFileLoaded(o@),
            Event::UrlRead(Ok(v)) => EventView::UrlRead(Ok(v@)),
            Event::UrlRead(Err(e)) => EventView::UrlRead(Err(e@)),
            Event::LookedUp(p) => EventView::LookedUp(*p),
            Event::Polled(alive) => EventView::Polled(*alive),
            Event::Notified(Ok(())) => EventView::Notified(Ok(())),
            Event::Notified(Err(e)) => EventView::Notified(Err(e@)),
        }
    }
}

impl View for Action {
    type V = ActionView;

    open spec fn view(&self) -> ActionView {
        match self {
            Action::LoadEnvFile(loc) => ActionView::LoadEnvFile(*loc),
            Action::ReadUrl => ActionView::ReadUrl,
            Action::LookUp { process_name } => ActionView::LookUp { process_name: process_name@ },
            Action::Pause { secs, pid } => ActionView::Pause { secs: *secs, pid: *pid },
            Action::Notify { url, announcement } => ActionView::Notify {
                url: url@,
                announcement: announcement@,
            },
            Action::Succeed(Some(line)) => ActionView::Succeed(Some(line@)),
            Action::Succeed(None) => ActionView::Succeed(None),
            Action::Fail(m) => ActionView::Fail(m@),
        }
    }
}

/// One run of the tool: the request, the webhook url once it is known, and
/// what the run waits for.
pub struct Session {
    cli: Cli,
    url: Option<String>,
    stage: Stage,
}

/// The mathematical content of a [`Session`].
pub struct SessionView {
    pub cli: CliView,
    pub url: Option<Seq<char>>,
    pub stage: Stage,
}

impl View for Session {
    type V = SessionView;

    closed spec fn view(&self) -> SessionView {
        SessionView {
            cli: self.cli@,
            url: match self.url {
                Some(u) => Some(u@),
                None => None,
            },
            stage: self.stage,
        }
    }
}

/// Text reported when the process is not running when the run starts.
pub open spec fn not_running_message(name: Seq<char>) -> Seq<char> {
    "process isn't running: "@ + name
}

/// Line printed before the notification is sent.
pub open spec fn sending_line(name: Seq<char>) -> Seq<char> {
    "Process stopped, sending notification: "@ + name
}

/// Line printed when the process stopped in a dry run.
pub open spec fn stopped_line(name: Seq<char>) -> Seq<char> {
    "Process stopped: "@ + name
}

/// Text reported when the webhook call failed at transport level.
pub open spec fn request_failed_message(e: Seq<char>) -> Seq<char> {
    "http request failed: "@ + e
}

/// Text reported for an event that the run was not waiting for.
pub open spec fn out_of_order_message() -> Seq<char> {
    "unexpected event for the current stage of the run"@
}

/// The run that has ended with nothing more to wait for.
pub open spec fn finished(s: SessionView) -> SessionView {
    SessionView { stage: Stage::Done, ..s }
}

/// How a run starts: a rejected request fails at once; a dry run goes
/// straight to the process lookup; any other run first resolves the webhook
/// url, beginning with the `.env` file next to the executable.
pub open spec fn begin_spec(c: CliView) -> (SessionView, ActionView) {
    let s = SessionView { cli: c, url: None, stage: Stage::Done };
    match request_error(c) {
        Some(m) => (s, ActionView::Fail(m)),
        None => if c.dry_run {
            (
                SessionView { stage: Stage::LookingUp, ..s },
                ActionView::LookUp { process_name: c.process_name },
            )
        } else {
            (
                SessionView { stage: Stage::LoadingEnv(EnvLocation::ExeDir), ..s },
                ActionView::LoadEnvFile(EnvLocation::ExeDir),
            )
        },
    }
}

/// How a run answers an event: the next state and what to do next.
pub open spec fn step_spec(s: SessionView, e: EventView) -> (SessionView, ActionView) {
    let name = s.cli.process_name;
    match (s.stage, e) {
        (Stage::LoadingEnv(loc), EventView::EnvFileLoaded(o)) => match env_file_error(loc, o) {
            Some(m) => (finished(s), ActionView::Fail(m)),
            None => match loc {
                EnvLocation::ExeDir => (
                    SessionView { stage: Stage::LoadingEnv(EnvLocation::WorkingDir), ..s },
                    ActionView::LoadEnvFile(EnvLocation::WorkingDir),
                ),
                EnvLocation::WorkingDir => (
                    SessionView { stage: Stage::ReadingUrl, ..s },
                    ActionView::ReadUrl,
                ),
            },
        },
        (Stage::ReadingUrl, EventView::UrlRead(Err(m))) => (finished(s), ActionView::Fail(m)),
        (Stage::ReadingUrl, EventView::UrlRead(Ok(v))) => match url_error(v) {
            Some(m) => (finished(s), ActionView::Fail(m)),
            None => (
                SessionView { url: Some(v), stage: Stage::LookingUp, ..s },
                ActionView::LookUp { process_name: name },
            ),
        },
        (Stage::LookingUp, EventView::LookedUp(None)) => (
            finished(s),
            ActionView::Fail(not_running_message(name)),
        ),
        (Stage::LookingUp, EventView::LookedUp(Some(pid))) => (
            SessionView { stage: Stage::Watching { pid }, ..s },
            ActionView::Pause { secs: s.cli.interval, pid },
        ),
        (Stage::Watching { pid }, EventView::Polled(true)) => (
            s,
            ActionView::Pause { secs: s.cli.interval, pid },
        ),
        (Stage::Watching { pid }, EventView::Polled(false)) => match s.url {
            Some(u) => (
                SessionView { stage: Stage::Notifying, ..s },
                ActionView::Notify { url: u, announcement: sending_line(name) },
            ),
            None => (finished(s), ActionView::Succeed(Some(stopped_line(name)))),
        },
        (Stage::Notifying, EventView::Notified(Ok(()))) => (
            finished(s),
            ActionView::Succeed(None),
        ),
        (Stage::Notifying, EventView::Notified(Err(e))) => (
            finished(s),
            ActionView::Fail(request_failed_message(e)),
        ),
        _ => (finished(s), ActionView::Fail(out_of_order_message())),
    }
}

/// Joins a fixed text and a name into a new string.
fn joined(prefix: &str, name: &String) -> (r: String)
    ensures
        r@ == prefix@ + name@,
{
    let mut r = String::from_str(prefix);
    r.append(name.as_str());
    r
}

impl Session {
    /// Starts a run for the request `cli`, and says what to do first.
    pub fn begin(cli: Cli) -> (r: (Session, Action))
        ensures
            (r.0@, r.1@) == begin_spec(cli@),
    {
        let checked = cli.enforce_invariants();
        match checked {
            Err(m) => (Session { cli, url: None, stage: Stage::Done }, Action::Fail(m)),
            Ok(()) => {
                if cli.dry_run {
                    let process_name = cli.process_name.clone();
                    (
                        Session { cli, url: None, stage: Stage::LookingUp },
                        Action::LookUp { process_name },
                    )
                } else {
                    (
                        Session { cli, url: None, stage: Stage::LoadingEnv(EnvLocation::ExeDir) },
                        Action::LoadEnvFile(EnvLocation::ExeDir),
                    )
                }
            },
        }
    }

    /// What the run waits for.
    pub fn stage(&self) -> (r: Stage)
        ensures
            r == self@.stage,
    {
        self.stage
    }

    /// Hands the run what was observed, and says what to do next.
    pub fn step(&mut self, event: Event) -> (r: Action)
        ensures
            (final(self)@, r@) == step_spec(old(self)@, event@),
    {
        let stage = self.stage;
        self.stage = Stage::Done;
        match (stage, event) {
            (Stage::LoadingEnv(loc), Event::EnvFileLoaded(o)) => match check_env_file(loc, &o) {
                Err(m) => Action::Fail(m),
                Ok(()) => match loc {
                    EnvLocation::ExeDir => {
                        self.stage = Stage::LoadingEnv(EnvLocation::WorkingDir);
                        Action::LoadEnvFile(EnvLocation::WorkingDir)
                    },
                    EnvLocation::WorkingDir => {
                        self.stage = Stage::ReadingUrl;
                        Action::ReadUrl
                    },
                },
            },
            (Stage::ReadingUrl, Event::UrlRead(value)) => match check_webhook_url(value) {
                Err(m) => Action::Fail(m),
                Ok(u) => {
                    self.url = Some(u);
                    self.stage = Stage::LookingUp;
                    Action::LookUp { process_name: self.cli.process_name.clone() }
                },
            },
            (Stage::LookingUp, Event::LookedUp(found)) => match found {
                None => Action::Fail(joined("process isn't running: ", &self.cli.process_name)),
                Some(pid) => {
                    self.stage = Stage::Watching { pid };
                    Action::Pause { secs: self.cli.interval, pid }
                },
            },
            (Stage::Watching { pid }, Event::Polled(alive)) => {
                if alive {
                    self.stage = Stage::Watching { pid };
                    Action::Pause { secs: self.cli.interval, pid }
                } else {
                    match &self.url {
                        Some(u) => {
                            let url = u.clone();
                            self.stage = Stage::Notifying;
                            Action::Notify {
                                url,
                                announcement: joined(
                                    "Process stopped, sending notification: ",
                                    &self.cli.process_name,
                                ),
                            }
                        },
                        None => Action::Succeed(
                            Some(joined("Process stopped: ", &self.cli.process_name)),
                        ),
                    }
                }
            },
            (Stage::Notifying, Event::Notified(outcome)) => match outcome {
                Ok(()) => Action::Succeed(None),
                Err(e) => Action::Fail(joined("http request failed: ", &e)),
            },
            _ => Action::Fail(String::from_str("unexpected event for the current stage of the run")),
        }
    }
}

} // verus!
