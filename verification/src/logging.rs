//! The logging settings and the lenient parsers that read them; the
//! subscriber wiring itself lives with the host program.

use vstd::prelude::*;
use vstd::string::StringExecFns;

use crate::text::chars_eq;
use crate::text::normalized_chars;
use crate::text::norm_spec;
use crate::text::trim_spec;
use crate::text::trim_str;

verus! {

/// How log lines are rendered.
#[derive(Clone, Copy, Debug, PartialEq, Eq, Structural)]
pub enum LogFormat {
    Pretty,
    Json,
}

/// Where log lines are written.
#[derive(Clone, Copy, Debug, PartialEq, Eq, Structural)]
pub enum LogOutput {
    Stderr,
    File,
    Both,
}

/// `json` selects JSON lines; everything else, the pretty format.
pub open spec fn parse_log_format_spec(raw: Option<Seq<char>>) -> LogFormat {
    match raw {
        None => LogFormat::Pretty,
        Some(s) => if norm_spec(s) == "json"@ {
            LogFormat::Json
        } else {
            LogFormat::Pretty
        },
    }
}

pub fn parse_log_format(raw: Option<&str>) -> (r: LogFormat)
    ensures
        r == parse_log_format_spec(crate::config::view_opt(raw)),
{
    match raw {
        None => LogFormat::Pretty,
        Some(s) => {
            let n = normalized_chars(s);
            if chars_eq(&n, "json") {
                LogFormat::Json
            } else {
                LogFormat::Pretty
            }
        },
    }
}

/// `file` and `both` select those outputs; everything else, standard error.
pub open spec fn parse_log_output_spec(raw: Option<Seq<char>>) -> LogOutput {
    match raw {
        None => LogOutput::Stderr,
        Some(s) => {
            let n = norm_spec(s);
            if n == "file"@ {
                LogOutput::File
            } else if n == "both"@ {
                LogOutput::Both
            } else {
                LogOutput::Stderr
            }
        },
    }
}

pub fn parse_log_output(raw: Option<&str>) -> (r: LogOutput)
    ensures
        r == parse_log_output_spec(crate::config::view_opt(raw)),
{
    match raw {
        None => LogOutput::Stderr,
        Some(s) => {
            let n = normalized_chars(s);
            if chars_eq(&n, "file") {
                LogOutput::File
            } else if chars_eq(&n, "both") {
                LogOutput::Both
            } else {
                LogOutput::Stderr
            }
        },
    }
}

/// The trimmed configured path, or the default path where the value is
/// missing or blank.
pub open spec fn parse_log_file_path_spec(raw: Option<Seq<char>>) -> Seq<char> {
    match raw {
        None => "logs/fizz.log"@,
        Some(s) => {
            let t = trim_spec(s);
            if t.len() == 0 {
                "logs/fizz.log"@
            } else {
                t
            }
        },
    }
}

pub fn parse_log_file_path(raw: Option<&str>) -> (r: String)
    ensures
        r@ == parse_log_file_path_spec(crate::config::view_opt(raw)),
{
    match raw {
        None => String::from_str("logs/fizz.log"),
        Some(s) => {
            let t = trim_str(s);
            if t.as_str().is_empty() {
                String::from_str("logs/fizz.log")
            } else {
                t
            }
        },
    }
}

} // verus!
