//! Errors of the Slack CLI, their exit codes and their JSON report.
use vstd::prelude::*;
use crate::json::{json_quote, json_string};
use crate::text::append_str;

verus! {

/// The category of an error.
#[derive(Debug, Clone, Copy, PartialEq, Eq, Structural)]
pub enum ErrorKind {
    Config,
    Validation,
    Api,
    Network,
    Io,
}

/// An error of the CLI: its category and a human-readable detail.
#[derive(Debug)]
pub enum AppError {
    Config(String),
    Validation(String),
    Api(String),
    Network(String),
    Io(String),
}

impl View for AppError {
    type V = (ErrorKind, Seq<char>);

    open spec fn view(&self) -> (ErrorKind, Seq<char>) {
        match self {
            AppError::Config(s) => (ErrorKind::Config, s@),
            AppError::Validation(s) => (ErrorKind::Validation, s@),
            AppError::Api(s) => (ErrorKind::Api, s@),
            AppError::Network(s) => (ErrorKind::Network, s@),
            AppError::Io(s) => (ErrorKind::Io, s@),
        }
    }
}

/// The process exit code of each category.
pub open spec fn kind_exit_code(k: ErrorKind) -> i32 {
    match k {
        ErrorKind::Config => 1,
        ErrorKind::Validation => 2,
        ErrorKind::Api => 3,
        ErrorKind::Network => 4,
        ErrorKind::Io => 5,
    }
}

/// The name of each category in the JSON report.
pub open spec fn kind_name(k: ErrorKind) -> Seq<char> {
    match k {
        ErrorKind::Config => "config_error"@,
        ErrorKind::Validation => "validation_error"@,
        ErrorKind::Api => "api_error"@,
        ErrorKind::Network => "network_error"@,
        ErrorKind::Io => "io_error"@,
    }
}

/// The JSON report of an error: an object with the keys `detail`, `error` and `ok`, in the
/// sorted order in which `serde_json` writes a map.
pub open spec fn error_json(e: (ErrorKind, Seq<char>)) -> Seq<char> {
    "{\"detail\":"@ + json_string(e.1) + ",\"error\":"@ + json_string(kind_name(e.0))
        + ",\"ok\":false}"@
}

impl AppError {
    /// The process exit code for this error.
    pub fn exit_code(&self) -> (r: i32)
        ensures
            r == kind_exit_code(self@.0),
    {
        match self {
            AppError::Config(_) => 1,
            AppError::Validation(_) => 2,
            AppError::Api(_) => 3,
            AppError::Network(_) => 4,
            AppError::Io(_) => 5,
        }
    }

    /// The category name used in the JSON report.
    pub fn error_type(&self) -> (r: &'static str)
        ensures
            r@ == kind_name(self@.0),
    {
        match self {
            AppError::Config(_) => "config_error",
            AppError::Validation(_) => "validation_error",
            AppError::Api(_) => "api_error",
            AppError::Network(_) => "network_error",
            AppError::Io(_) => "io_error",
        }
    }

    /// The human-readable detail.
    pub fn detail(&self) -> (r: &str)
        ensures
            r@ == self@.1,
    {
        match self {
            AppError::Config(s) => s.as_str(),
            AppError::Validation(s) => s.as_str(),
            AppError::Api(s) => s.as_str(),
            AppError::Network(s) => s.as_str(),
            AppError::Io(s) => s.as_str(),
        }
    }

    /// The error's display text: its detail.
    pub fn message(&self) -> (r: String)
        ensures
            r@ == self@.1,
    {
        self.detail().to_string()
    }

    /// The one-line JSON report printed on failure.
    pub fn to_json(&self) -> (r: String)
        ensures
            r@ == error_json(self@),
    {
        let mut out = "{\"detail\":".to_string();
        append_str(&mut out, json_quote(self.detail()).as_str());
        append_str(&mut out, ",\"error\":");
        append_str(&mut out, json_quote(self.error_type()).as_str());
        append_str(&mut out, ",\"ok\":false}");
        out
    }
}

/// Each category has its own exit code, and none of them is 0 (success).
pub proof fn law_exit_codes_distinct(a: ErrorKind, b: ErrorKind)
    ensures
        kind_exit_code(a) != 0,
        a != b ==> kind_exit_code(a) != kind_exit_code(b),
{
}

} // verus!
