use vstd::prelude::*;

verus! {

/// What can go wrong while talking to a Kakoune session. The payloads hold
/// the text of the underlying failure, or the value that was refused.
#[derive(Debug, PartialEq, Eq, Clone)]
pub enum Error {
    /// The control process could not attach to the named session.
    InvalidSession(String),
    /// The `kak -p` control process could not be started.
    Spawn(String),
    /// The control process had no input stream.
    ChildStdin,
    /// Writing commands to the control process failed.
    Write(String),
    /// Waiting for the control process to exit failed.
    Wait(String),
    /// The text is not a log level.
    LevelFromStr(String),
    /// The temporary directory of a query could not be created.
    TempDir(String),
    /// The log file could not be opened.
    OpenLogFile(String),
    /// The process-wide tracing subscriber could not be installed.
    SetGlobalDefault(String),
    /// The named pipe of a query could not be created.
    CreateFifo(String),
    /// The named pipe of a query could not be opened.
    OpenFifo(String),
    /// The named pipe of a query could not be read.
    ReadFifo(String),
    /// Logging was initialized once already.
    LoggingAlreadyInitialized,
    /// Logging was used before it was initialized.
    LoggingUninitialized,
}

} // verus!
