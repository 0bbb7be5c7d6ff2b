//! Driving a running Kakoune session from another process: escaping of
//! command-language arguments, the text handed to a `kak -p` control process,
//! the script of the expansion query, and the leveled logging facade.

pub mod args;
pub mod error;
pub mod escape;
pub mod kakscripts;
pub mod logging;
pub mod session;
pub mod tracing_setup;

pub use args::KakouneArgs;
pub use error::Error;
pub use escape::EscapedString;
pub use logging::{Level, Logger, LoggerSlot};
pub use session::Kakoune;
pub use tracing_setup::{TracingArgs, TracingInitializer};
