use vstd::prelude::*;

use crate::error::Error;
use crate::escape::{escaped, EscapedString};
use crate::session::{debug_command, debug_text, escaped_views, Kakoune};

verus! {

/// The severity of a log message, from the least to the most severe.
#[derive(Clone, Copy, Debug, PartialEq, Eq, Structural, PartialOrd, Ord, Hash)]
pub enum Level {
    Trace,
    Debug,
    Info,
    Warn,
    Error,
}

/// The tag that names a level in the `*debug*` buffer.
pub open spec fn level_name(l: Level) -> Seq<char> {
    match l {
        Level::Trace => "TRACE"@,
        Level::Debug => "DEBUG"@,
        Level::Info => "INFO"@,
        Level::Warn => "WARN"@,
        Level::Error => "ERROR"@,
    }
}

/// The level whose tag is `n`, if any.
pub open spec fn level_named(n: Seq<char>) -> Option<Level> {
    if n == "TRACE"@ {
        Some(Level::Trace)
    } else if n == "DEBUG"@ {
        Some(Level::Debug)
    } else if n == "INFO"@ {
        Some(Level::Info)
    } else if n == "WARN"@ {
        Some(Level::Warn)
    } else if n == "ERROR"@ {
        Some(Level::Error)
    } else {
        None
    }
}

impl Level {
    /// The position of the level in the order Trace < Debug < Info < Warn < Error.
    pub open spec fn rank(self) -> nat {
        match self {
            Level::Trace => 0,
            Level::Debug => 1,
            Level::Info => 2,
            Level::Warn => 3,
            Level::Error => 4,
        }
    }

    /// Whether `self` is as severe as `other` or more.
    pub fn at_least(&self, other: &Level) -> (r: bool)
        ensures
            r == (self.rank() >= other.rank()),
    {
        self.position() >= other.position()
    }

    fn position(&self) -> (r: u8)
        ensures
            r as nat == self.rank(),
    {
        match self {
            Level::Trace => 0,
            Level::Debug => 1,
            Level::Info => 2,
            Level::Warn => 3,
            Level::Error => 4,
        }
    }

    /// The level's tag: `TRACE`, `DEBUG`, `INFO`, `WARN` or `ERROR`.
    pub fn name(&self) -> (r: &'static str)
        ensures
            r@ == level_name(*self),
    {
        match self {
            Level::Trace => "TRACE",
            Level::Debug => "DEBUG",
            Level::Info => "INFO",
            Level::Warn => "WARN",
            Level::Error => "ERROR",
        }
    }

    /// The level whose tag is exactly `s`.
    pub fn from_name(s: &str) -> (r: Option<Level>)
        ensures
            r == level_named(s@),
    {
        if same_text(s, "TRACE") {
            Some(Level::Trace)
        } else if same_text(s, "DEBUG") {
            Some(Level::Debug)
        } else if same_text(s, "INFO") {
            Some(Level::Info)
        } else if same_text(s, "WARN") {
            Some(Level::Warn)
        } else if same_text(s, "ERROR") {
            Some(Level::Error)
        } else {
            None
        }
    }
}

/// Whether `a` and `b` hold the same characters.
pub fn same_text(a: &str, b: &str) -> (r: bool)
    ensures
        r == (a@ == b@),
{
    let n = a.unicode_len();
    if n != b.unicode_len() {
        return false;
    }
    let mut i: usize = 0;
    while i < n
        invariant
            n == a@.len(),
            n == b@.len(),
            i <= n,
            a@.subrange(0, i as int) == b@.subrange(0, i as int),
        decreases n - i,
    {
        if a.get_char(i) != b.get_char(i) {
            return false;
        }
        assert(a@.subrange(0, i + 1) =~= a@.subrange(0, i as int).push(a@[i as int]));
        assert(b@.subrange(0, i + 1) =~= b@.subrange(0, i as int).push(b@[i as int]));
        i = i + 1;
    }
    assert(a@ =~= a@.subrange(0, n as int));
    assert(b@ =~= b@.subrange(0, n as int));
    true
}

/// Whether a logger whose minimum level is `min` sends a message at `level`.
pub open spec fn dispatches(min: Level, level: Level) -> bool {
    level.rank() >= min.rank()
}

/// The command that logs `message` at `level` under the module tag `module`.
pub open spec fn log_text(level: Level, module: Seq<char>, message: Seq<char>) -> Seq<char> {
    debug_text(seq![level_name(level) + ":"@, module, message])
}

/// The module tag under which a module's messages are logged: `(module)`,
/// escaped.
pub open spec fn module_tag_text(module: Seq<char>) -> Seq<char> {
    escaped("("@ + module + ")"@)
}

/// Level order and filtering: the levels are strictly ordered Trace < Debug <
/// Info < Warn < Error, the order is transitive, and a logger that sends a
/// message at some level sends the messages at every more severe level too.
pub proof fn lemma_level_order(min: Level, a: Level, b: Level, c: Level)
    ensures
        Level::Trace.rank() < Level::Debug.rank() < Level::Info.rank() < Level::Warn.rank()
            < Level::Error.rank(),
        a.rank() < b.rank() && b.rank() < c.rank() ==> a.rank() < c.rank(),
        a.rank() == b.rank() ==> a == b,
        dispatches(min, a) && b.rank() >= a.rank() ==> dispatches(min, b),
        dispatches(min, min),
        a.rank() < min.rank() ==> !dispatches(min, a),
{
}

/// A logger that sends messages, with a module tag, to the `*debug*` buffer
/// of a session. Only messages at its level or above are sent.
pub struct Logger {
    kakoune: Kakoune,
    level: Level,
    module: EscapedString,
}

impl Logger {
    pub closed spec fn session_view(&self) -> Seq<char> {
        self.kakoune@
    }

    pub closed spec fn min_level(&self) -> Level {
        self.level
    }

    pub closed spec fn module_tag(&self) -> Seq<char> {
        self.module@
    }

    pub fn new(kakoune: Kakoune, level: Level, module: EscapedString) -> (r: Self)
        ensures
            r.session_view() == kakoune@,
            r.min_level() == level,
            r.module_tag() == module@,
    {
        Logger { kakoune, level, module }
    }

    /// The session that the messages go to.
    pub fn kakoune(&self) -> (r: &Kakoune)
        ensures
            r@ == self.session_view(),
    {
        &self.kakoune
    }

    /// The least severe level that is sent.
    pub fn level(&self) -> (r: Level)
        ensures
            r == self.min_level(),
    {
        self.level
    }

    /// The command that logs `message` at `level`, or `None` where `level` is
    /// below the logger's level and nothing is to be sent.
    pub fn log_command(&self, level: Level, message: &EscapedString) -> (r: Option<String>)
        ensures
            dispatches(self.min_level(), level) ==> (r matches Some(c) && c@ == log_text(
                level,
                self.module_tag(),
                message@,
            )),
            !dispatches(self.min_level(), level) ==> r is None,
    {
        if !level.at_least(&self.level) {
            return None;
        }
        let mut tag = String::from_str(level.name());
        tag.append(":");
        let tag = EscapedString::new_unchecked(tag);
        let module = EscapedString::new_unchecked(String::from_str(self.module.as_str()));
        let message = EscapedString::new_unchecked(String::from_str(message.as_str()));
        let words = vec![tag, module, message];
        let command = debug_command(&words);
        assert(escaped_views(words@) =~= seq![level_name(level) + ":"@, self.module_tag(), message@]);
        Some(command)
    }
}

/// The module tag `(module)`, escaped.
pub fn module_tag(module: &str) -> (r: EscapedString)
    ensures
        r@ == module_tag_text(module@),
{
    let mut text = String::from_str("(");
    text.append(module);
    text.append(")");
    EscapedString::escape(text.as_str())
}

/// The slot that holds the one logger of a process: empty at first, filled
/// at most once, never emptied.
pub struct LoggerSlot {
    logger: Option<Logger>,
}

impl LoggerSlot {
    pub closed spec fn installed(&self) -> Option<Logger> {
        self.logger
    }

    /// An empty slot.
    pub fn new() -> (r: Self)
        ensures
            r.installed() is None,
    {
        LoggerSlot { logger: None }
    }

    pub fn is_initialized(&self) -> (r: bool)
        ensures
            r == self.installed() is Some,
    {
        self.logger.is_some()
    }

    /// The logger that initializing with these values would install: on
    /// `session`, at `level`, with the escaped module tag `(module)`. Fails
    /// where a logger is installed already.
    pub fn prepare(&self, session: String, level: Level, module: &str) -> (r: Result<Logger, Error>)
        ensures
            self.installed() is Some ==> r == Err::<Logger, Error>(Error::LoggingAlreadyInitialized),
            self.installed() is None ==> (r matches Ok(l) && l.session_view() == session@
                && l.min_level() == level && l.module_tag() == module_tag_text(module@)),
    {
        if self.logger.is_some() {
            return Err(Error::LoggingAlreadyInitialized);
        }
        let kakoune = Kakoune::new_unchecked(session);
        Ok(Logger::new(kakoune, level, module_tag(module)))
    }

    /// Installs `logger`. A second installation fails with
    /// `LoggingAlreadyInitialized` and leaves the first logger in place.
    pub fn install(&mut self, logger: Logger) -> (r: Result<(), Error>)
        ensures
            old(self).installed() is Some ==> r == Err::<(), Error>(Error::LoggingAlreadyInitialized)
                && final(self).installed() == old(self).installed(),
            old(self).installed() is None ==> r == Ok::<(), Error>(()) && final(self).installed()
                == Some(logger),
    {
        if self.logger.is_some() {
            return Err(Error::LoggingAlreadyInitialized);
        }
        self.logger = Some(logger);
        Ok(())
    }

    /// The command that logs `message` at `level` through the installed
    /// logger, `None` where the level is filtered out, or
    /// `LoggingUninitialized` where no logger is installed.
    pub fn log_command(&self, level: Level, message: &EscapedString) -> (r: Result<
        Option<String>,
        Error,
    >)
        ensures
            self.installed() is None ==> r == Err::<Option<String>, Error>(
                Error::LoggingUninitialized,
            ),
            self.installed() matches Some(l) ==> {
                &&& dispatches(l.min_level(), level) ==> (r matches Ok(Some(c)) && c@ == log_text(
                    level,
                    l.module_tag(),
                    message@,
                ))
                &&& !dispatches(l.min_level(), level) ==> r == Ok::<Option<String>, Error>(None)
            },
    {
        match &self.logger {
            Some(l) => Ok(l.log_command(level, message)),
            None => Err(Error::LoggingUninitialized),
        }
    }

    /// The installed logger, or `LoggingUninitialized`.
    pub fn logger(&self) -> (r: Result<&Logger, Error>)
        ensures
            self.installed() matches Some(l) ==> r == Ok::<&Logger, Error>(&l),
            self.installed() is None ==> r == Err::<&Logger, Error>(Error::LoggingUninitialized),
    {
        match &self.logger {
            Some(l) => Ok(l),
            None => Err(Error::LoggingUninitialized),
        }
    }
}

} // verus!
