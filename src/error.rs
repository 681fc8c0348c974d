use vstd::prelude::*;

verus! {

#[verifier::external_type_specification]
#[verifier::external_body]
pub struct ExIoError(std::io::Error);

/// HTTP status of a request that succeeded.
pub const STATUS_OK: u16 = 200;

/// HTTP status of a log snapshot whose source could not be opened.
pub const STATUS_NOT_FOUND: u16 = 404;

/// HTTP status of a command that was not delivered.
pub const STATUS_SERVER_ERROR: u16 = 500;

/// Why a log snapshot or a command failed.
pub enum MinecraftError {
    /// The log source could not be opened or read.
    LogError(std::io::Error),
    /// The control input could not be opened or written; the text says why.
    CommandError(String),
}

impl From<std::io::Error> for MinecraftError {
    fn from(e: std::io::Error) -> (r: MinecraftError)
        ensures
            r is LogError,
    {
        MinecraftError::LogError(e)
    }
}

impl vstd::std_specs::convert::FromSpecImpl<std::io::Error> for MinecraftError {
    open spec fn obeys_from_spec() -> bool {
        true
    }

    open spec fn from_spec(e: std::io::Error) -> MinecraftError {
        MinecraftError::LogError(e)
    }
}

impl MinecraftError {
    /// The HTTP status that reports this failure to a client.
    pub fn status(&self) -> (r: u16)
        ensures
            r == (match self {
                MinecraftError::LogError(_) => STATUS_NOT_FOUND,
                MinecraftError::CommandError(_) => STATUS_SERVER_ERROR,
            }),
    {
        match self {
            MinecraftError::LogError(_) => STATUS_NOT_FOUND,
            MinecraftError::CommandError(_) => STATUS_SERVER_ERROR,
        }
    }
}

/// The HTTP status of a command request: success when the command was
/// written and flushed, a server error otherwise.
pub fn command_status(outcome: &Result<bool, MinecraftError>) -> (r: u16)
    ensures
        r == (if outcome is Ok { STATUS_OK } else { STATUS_SERVER_ERROR }),
{
    match outcome {
        Ok(_) => STATUS_OK,
        Err(_) => STATUS_SERVER_ERROR,
    }
}

} // verus!
