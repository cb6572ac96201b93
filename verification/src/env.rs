//! The operator's configuration, as it comes from the environment: every
//! value arrives as optional text and is read here.

use vstd::prelude::*;
use vstd::string::*;

use crate::text::same_text;

verus! {

/// The variable that holds the URL of the external store.
pub const ENV_URL: &'static str = "ELASTIC_URL";

/// The variable that holds the name of the store's administrator.
pub const ENV_USERNAME: &'static str = "ELASTIC_USERNAME";

/// The variable that holds the administrator's password.
pub const ENV_PASSWORD: &'static str = "ELASTIC_PASSWORD";

/// The variable that says whether to skip the check of TLS certificates.
pub const ENV_SKIP_VERIFY: &'static str = "ELASTIC_SKIP_VERIFY";

/// The variable that holds the log level.
pub const ENV_LOGLEVEL: &'static str = "LOGLEVEL";

/// What `str::to_lowercase` makes of a text: its lowercase equivalent, as
/// Unicode defines it.
pub uninterp spec fn lowercased(s: Seq<char>) -> Seq<char>;

/// What `str::trim` leaves of a text: the text without the whitespace, as
/// Unicode defines it, at its start and at its end.
pub uninterp spec fn trimmed(s: Seq<char>) -> Seq<char>;

/// `str::to_lowercase`. Trusted: the result depends on the text alone.
pub assume_specification[ str::to_lowercase ](s: &str) -> (r: String)
    ensures
        r@ == lowercased(s@),
;

/// `str::trim`. Trusted: the result depends on the text alone.
pub assume_specification[ str::trim ](s: &str) -> (r: &str)
    ensures
        r@ == trimmed(s@),
;

/// The truth value that a word stands for, if it stands for one.
pub open spec fn word_truth(word: Seq<char>) -> Option<bool> {
    if word == "1"@ || word == "true"@ || word == "t"@ || word == "yes"@ || word == "y"@ {
        Some(true)
    } else if word == "0"@ || word == "false"@ || word == "f"@ || word == "no"@ || word == "n"@ {
        Some(false)
    } else {
        None
    }
}

/// The truth value that a text stands for, whatever its case and the
/// whitespace around it.
pub open spec fn text_truth(v: Seq<char>) -> Option<bool> {
    word_truth(trimmed(lowercased(v)))
}

/// The truth value that `word` stands for: `1`, `true`, `t`, `yes` and `y`
/// are true; `0`, `false`, `f`, `no` and `n` are false; nothing else has one.
pub fn truth_of_word(word: &str) -> (r: Option<bool>)
    ensures
        r == word_truth(word@),
{
    if same_text(word, "1") || same_text(word, "true") || same_text(word, "t") || same_text(
        word,
        "yes",
    ) || same_text(word, "y") {
        Some(true)
    } else if same_text(word, "0") || same_text(word, "false") || same_text(word, "f") || same_text(
        word,
        "no",
    ) || same_text(word, "n") {
        Some(false)
    } else {
        None
    }
}

/// The truth value that `v` stands for, whatever its case and the
/// whitespace around it.
pub fn as_bool(v: &str) -> (r: Option<bool>)
    ensures
        r == text_truth(v@),
{
    let lower = v.to_lowercase();
    truth_of_word(lower.as_str().trim())
}

/// How to reach the external store, and as whom.
#[derive(Debug)]
pub struct Env {
    pub url: String,
    pub username: String,
    pub password: String,
    pub skip_tls_cert_verify: bool,
}

/// What contracts say of an [`Env`].
pub struct EnvView {
    pub url: Seq<char>,
    pub username: Seq<char>,
    pub password: Seq<char>,
    pub skip_tls_cert_verify: bool,
}

impl View for Env {
    type V = EnvView;

    open spec fn view(&self) -> EnvView {
        EnvView {
            url: self.url@,
            username: self.username@,
            password: self.password@,
            skip_tls_cert_verify: self.skip_tls_cert_verify,
        }
    }
}

/// Whether to skip the check of TLS certificates: no where nothing is said,
/// and else what the text says, if it says anything.
pub open spec fn skip_verify_of(skip_verify: Option<Seq<char>>) -> Option<bool> {
    match skip_verify {
        None => Some(false),
        Some(v) => text_truth(v),
    }
}

/// The configuration that the four values make, or the complaint about the
/// first of them that is missing or cannot be read.
pub open spec fn env_of(
    url: Option<Seq<char>>,
    username: Option<Seq<char>>,
    password: Option<Seq<char>>,
    skip_verify: Option<Seq<char>>,
) -> Result<EnvView, Seq<char>> {
    if url is None {
        Err("ELASTIC_URL undefined"@)
    } else if username is None {
        Err("ELASTIC_USERNAME undefined"@)
    } else if password is None {
        Err("ELASTIC_PASSWORD undefined"@)
    } else if skip_verify_of(skip_verify) is None {
        Err("ELASTIC_SKIP_VERIFY must be undefined, true or false."@)
    } else {
        Ok(
            EnvView {
                url: url->0,
                username: username->0,
                password: password->0,
                skip_tls_cert_verify: skip_verify_of(skip_verify)->0,
            },
        )
    }
}

/// The configuration that the values of the four variables make. Each
/// argument is the value of one variable, `None` where the variable is not
/// set. The URL, the user name and the password are required.
pub fn env_from(
    url: Option<String>,
    username: Option<String>,
    password: Option<String>,
    skip_verify: Option<String>,
) -> (r: Result<Env, &'static str>)
    ensures
        match (r, env_of(
            url.deep_view(),
            username.deep_view(),
            password.deep_view(),
            skip_verify.deep_view(),
        )) {
            (Ok(env), Ok(expected)) => env@ == expected,
            (Err(complaint), Err(expected)) => complaint@ == expected,
            _ => false,
        },
{
    let url = match url {
        Some(v) => v,
        None => { return Err("ELASTIC_URL undefined"); },
    };
    let username = match username {
        Some(v) => v,
        None => { return Err("ELASTIC_USERNAME undefined"); },
    };
    let password = match password {
        Some(v) => v,
        None => { return Err("ELASTIC_PASSWORD undefined"); },
    };
    let skip = match skip_verify {
        Some(v) => as_bool(v.as_str()),
        None => Some(false),
    };
    match skip {
        Some(skip_tls_cert_verify) => Ok(Env { url, username, password, skip_tls_cert_verify }),
        None => Err("ELASTIC_SKIP_VERIFY must be undefined, true or false."),
    }
}

/// How much the operator logs.
#[derive(Clone, Copy, Debug, PartialEq, Eq, Structural)]
pub enum LogLevel {
    Trace,
    Debug,
    Info,
    Warn,
    Error,
}

/// The log level that a lowercase word names, if it names one.
pub open spec fn word_level(word: Seq<char>) -> Option<LogLevel> {
    if word == "trace"@ {
        Some(LogLevel::Trace)
    } else if word == "debug"@ {
        Some(LogLevel::Debug)
    } else if word == "info"@ {
        Some(LogLevel::Info)
    } else if word == "warn"@ || word == "warning"@ {
        Some(LogLevel::Warn)
    } else if word == "error"@ {
        Some(LogLevel::Error)
    } else {
        None
    }
}

/// The log level that a text names, whatever its case; where there is no
/// text, the empty complaint, and where the text names none, the text in
/// lowercase as the complaint.
pub open spec fn level_of(value: Option<Seq<char>>) -> Result<LogLevel, Seq<char>> {
    match value {
        None => Err(Seq::empty()),
        Some(v) => match word_level(lowercased(v)) {
            Some(level) => Ok(level),
            None => Err(lowercased(v)),
        },
    }
}

/// The log level that `word` names: `trace`, `debug`, `info`, `warn` or
/// `warning`, and `error`.
pub fn level_of_word(word: &str) -> (r: Option<LogLevel>)
    ensures
        r == word_level(word@),
{
    if same_text(word, "trace") {
        Some(LogLevel::Trace)
    } else if same_text(word, "debug") {
        Some(LogLevel::Debug)
    } else if same_text(word, "info") {
        Some(LogLevel::Info)
    } else if same_text(word, "warn") || same_text(word, "warning") {
        Some(LogLevel::Warn)
    } else if same_text(word, "error") {
        Some(LogLevel::Error)
    } else {
        None
    }
}

/// The log level that the value of the log level variable asks for.
pub fn get_log_level(value: Option<&str>) -> (r: Result<LogLevel, String>)
    ensures
        match (r, level_of(value.deep_view())) {
            (Ok(level), Ok(expected)) => level == expected,
            (Err(complaint), Err(expected)) => complaint@ == expected,
            _ => false,
        },
{
    match value {
        None => Err(String::new()),
        Some(v) => {
            let lower = v.to_lowercase();
            match level_of_word(lower.as_str()) {
                Some(level) => Ok(level),
                None => Err(lower),
            }
        },
    }
}

} // verus!
