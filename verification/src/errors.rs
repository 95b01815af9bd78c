use vstd::prelude::*;

verus! {

/// The structured outcomes a caller can receive instead of a result:
/// a failed name lookup, a rejected duplicate registration, an argument
/// payload of the wrong shape, or an internal failure surfaced by the
/// surrounding runtime (for example a poisoned lock).
#[derive(Clone, Copy, Debug, PartialEq, Eq, Structural)]
pub enum CommandError {
    UnknownCommand,
    DuplicateCommand,
    InvalidArguments,
    HandlerError,
}

/// The fixed human-readable text for each error kind.
pub open spec fn spec_error_message(e: CommandError) -> Seq<char> {
    match e {
        CommandError::UnknownCommand => "unknown command"@,
        CommandError::DuplicateCommand => "command name already registered"@,
        CommandError::InvalidArguments => "arguments do not match the command's expected shape"@,
        CommandError::HandlerError => "handler failed"@,
    }
}

impl CommandError {
    /// The error's message, one fixed string per kind.
    pub fn message(&self) -> (r: String)
        ensures
            r@ == spec_error_message(*self),
    {
        match self {
            CommandError::UnknownCommand => String::from_str("unknown command"),
            CommandError::DuplicateCommand => String::from_str("command name already registered"),
            CommandError::InvalidArguments => String::from_str(
                "arguments do not match the command's expected shape",
            ),
            CommandError::HandlerError => String::from_str("handler failed"),
        }
    }
}

} // verus!
