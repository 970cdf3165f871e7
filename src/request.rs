use vstd::prelude::*;

verus! {

/// What the user asked for: the exact name of the process to wait for, how
/// often to look at it (in seconds), and whether to skip the notification.
pub struct Cli {
    pub process_name: String,
    pub interval: u64,
    pub dry_run: bool,
}

/// The mathematical content of a [`Cli`].
pub struct CliView {
    pub process_name: Seq<char>,
    pub interval: u64,
    pub dry_run: bool,
}

impl View for Cli {
    type V = CliView;

    open spec fn view(&self) -> CliView {
        CliView { process_name: self.process_name@, interval: self.interval, dry_run: self.dry_run }
    }
}

/// Text reported for an empty process name.
pub open spec fn empty_name_message() -> Seq<char> {
    "process name can't be empty"@
}

/// Text reported for a poll interval under one second.
pub open spec fn short_interval_message() -> Seq<char> {
    "interval is too short (must be at least 1 second)"@
}

/// The error a request is rejected with, if any: an empty name is reported
/// first, then an interval under one second.
pub open spec fn request_error(c: CliView) -> Option<Seq<char>> {
    if c.process_name.len() == 0 {
        Some(empty_name_message())
    } else if c.interval < 1 {
        Some(short_interval_message())
    } else {
        None
    }
}

impl Cli {
    /// Checks that the process name is not empty and that the interval is at
    /// least one second.
    pub fn enforce_invariants(&self) -> (r: Result<(), String>)
        ensures
            r is Ok <==> request_error(self@) is None,
            r matches Err(m) ==> request_error(self@) == Some(m@),
    {
        if self.process_name.as_str().is_empty() {
            return Err(String::from_str("process name can't be empty"));
        }
        if self.interval < 1 {
            Err(String::from_str("interval is too short (must be at least 1 second)"))
        } else {
            Ok(())
        }
    }
}

} // verus!
