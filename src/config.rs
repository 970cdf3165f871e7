use vstd::prelude::*;

verus! {

/// Where a `.env` file is looked for, in the order they are tried.
#[derive(Clone, Copy, Debug, PartialEq, Eq, Structural)]
pub enum EnvLocation {
    /// The directory that holds the running executable.
    ExeDir,
    /// The current working directory.
    WorkingDir,
}

/// What came of loading the `.env` file at one location.
#[derive(Debug, PartialEq, Eq)]
pub enum EnvFileOutcome {
    /// The file was present and its variables were loaded.
    Loaded,
    /// There is no file at that location.
    Missing,
    /// The file could not be read or parsed; the text describes why.
    Failed(String),
    /// The location itself could not be determined; the text is reported as is.
    NoLocation(String),
}

/// The mathematical content of an [`EnvFileOutcome`].
pub enum EnvFileOutcomeView {
    Loaded,
    Missing,
    Failed(Seq<char>),
    NoLocation(Seq<char>),
}

impl View for EnvFileOutcome {
    type V = EnvFileOutcomeView;

    open spec fn view(&self) -> EnvFileOutcomeView {
        match self {
            EnvFileOutcome::Loaded => EnvFileOutcomeView::Loaded,
            EnvFileOutcome::Missing => EnvFileOutcomeView::Missing,
            EnvFileOutcome::Failed(e) => EnvFileOutcomeView::Failed(e@),
            EnvFileOutcome::NoLocation(e) => EnvFileOutcomeView::NoLocation(e@),
        }
    }
}

/// The words that name a location in an error.
pub open spec fn location_words(loc: EnvLocation) -> Seq<char> {
    match loc {
        EnvLocation::ExeDir => "exe directory"@,
        EnvLocation::WorkingDir => "current working directory"@,
    }
}

/// The error that loading a `.env` file ends the run with, if any. A missing
/// file is no error; a malformed or unreadable one is.
pub open spec fn env_file_error(loc: EnvLocation, o: EnvFileOutcomeView) -> Option<Seq<char>> {
    match o {
        EnvFileOutcomeView::Loaded => None,
        EnvFileOutcomeView::Missing => None,
        EnvFileOutcomeView::Failed(e) => Some(
            "failed read .env file in "@ + location_words(loc) + ": "@ + e,
        ),
        EnvFileOutcomeView::NoLocation(e) => Some(e),
    }
}

/// Decides whether loading the `.env` file at `loc` lets the run go on.
pub fn check_env_file(loc: EnvLocation, outcome: &EnvFileOutcome) -> (r: Result<(), String>)
    ensures
        r is Ok <==> env_file_error(loc, outcome@) is None,
        r matches Err(m) ==> env_file_error(loc, outcome@) == Some(m@),
{
    match outcome {
        EnvFileOutcome::Loaded => Ok(()),
        EnvFileOutcome::Missing => Ok(()),
        EnvFileOutcome::Failed(e) => {
            let mut m = String::from_str("failed read .env file in ");
            match loc {
                EnvLocation::ExeDir => m.append("exe directory"),
                EnvLocation::WorkingDir => m.append("current working directory"),
            }
            m.append(": ");
            m.append(e.as_str());
            Err(m)
        },
        EnvFileOutcome::NoLocation(e) => Err(e.clone()),
    }
}

/// Whether `s` begins with the four characters `http`.
pub open spec fn has_http_prefix(s: Seq<char>) -> bool {
    &&& s.len() >= 4
    &&& s[0] == 'h'
    &&& s[1] == 't'
    &&& s[2] == 't'
    &&& s[3] == 'p'
}

/// Text reported when the webhook variable is empty.
pub open spec fn empty_url_message() -> Seq<char> {
    "'NOTIF_URL' environment variable needs to be set (to the webhook url)"@
}

/// Text reported when the webhook variable does not look like a url.
pub open spec fn not_a_url_message() -> Seq<char> {
    "`NOTIF_URL` must be a url"@
}

/// The error a webhook url is rejected with, if any.
pub open spec fn url_error(v: Seq<char>) -> Option<Seq<char>> {
    if v.len() == 0 {
        Some(empty_url_message())
    } else if !has_http_prefix(v) {
        Some(not_a_url_message())
    } else {
        None
    }
}

/// Tells whether `s` begins with `http`.
pub fn starts_with_http(s: &str) -> (r: bool)
    ensures
        r == has_http_prefix(s@),
{
    let n = s.unicode_len();
    if n < 4 {
        return false;
    }
    s.get_char(0) == 'h' && s.get_char(1) == 't' && s.get_char(2) == 't' && s.get_char(3) == 'p'
}

/// Checks the value read for the webhook variable: a read error is passed on,
/// an empty value or one that does not begin with `http` is refused, and any
/// other value is the url.
pub fn check_webhook_url(value: Result<String, String>) -> (r: Result<String, String>)
    ensures
        match value {
            Err(e) => r matches Err(m) && m@ == e@,
            Ok(v) => match url_error(v@) {
                Some(msg) => r matches Err(m) && m@ == msg,
                None => r matches Ok(u) && u@ == v@,
            },
        },
{
    match value {
        Err(e) => Err(e),
        Ok(v) => {
            if v.as_str().is_empty() {
                Err(String::from_str("'NOTIF_URL' environment variable needs to be set (to the webhook url)"))
            } else if !starts_with_http(v.as_str()) {
                Err(String::from_str("`NOTIF_URL` must be a url"))
            } else {
                Ok(v)
            }
        },
    }
}

} // verus!
