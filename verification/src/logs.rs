//! `slacli logs`: which log types exist and what is done with them.
use vstd::prelude::*;
use crate::app_error::{AppError, ErrorKind};
use crate::text::{append_str, concat, str_eq};

verus! {

/// What to do with a known log type.
#[derive(Debug, Clone, Copy, PartialEq, Eq, Structural)]
pub enum LogAction {
    /// Remove the log file.
    Clear,
    /// Print the log file's content.
    Print,
}

/// The log types that exist.
pub open spec fn known_log_type(t: Seq<char>) -> bool {
    t == "chat-send"@ || t == "profile-edit"@
}

/// The message for an unknown log type.
pub open spec fn unknown_log_type_msg(t: Seq<char>) -> Seq<char> {
    "Unknown log type: '"@ + t + "'. Available types: chat-send, profile-edit"@
}

/// Decides what `slacli logs --type <log_type> [--purge]` does: a known type is purged or
/// printed; any other type is refused.
pub fn run(log_type: &str, purge: bool) -> (r: Result<LogAction, AppError>)
    ensures
        known_log_type(log_type@) ==> r == Ok::<LogAction, AppError>(
            if purge {
                LogAction::Clear
            } else {
                LogAction::Print
            },
        ),
        !known_log_type(log_type@) ==> (r matches Err(e) && e@ == (
            ErrorKind::Validation,
            unknown_log_type_msg(log_type@),
        )),
{
    if str_eq(log_type, "chat-send") || str_eq(log_type, "profile-edit") {
        if purge {
            Ok(LogAction::Clear)
        } else {
            Ok(LogAction::Print)
        }
    } else {
        let mut msg = concat("Unknown log type: '", log_type);
        append_str(&mut msg, "'. Available types: chat-send, profile-edit");
        Err(AppError::Validation(msg))
    }
}

} // verus!
