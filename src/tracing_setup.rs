use vstd::prelude::*;

use crate::error::Error;
use crate::logging::{level_named, Level};
use crate::session::Kakoune;

verus! {

/// The session option that holds the directory of the log files.
pub const KAKOUNE_RS_TEMPDIR_OPTION: &'static str = "KAKOUNE_RS_TEMPDIR";

/// The session option that holds the tracing level.
pub const KAKOUNE_RS_TRACING_LEVEL_OPTION: &'static str = "kakoune_rs_log_level";

/// The tag of the level that `tracing` reads from `s`, if it reads one.
pub uninterp spec fn parsed_level_name(s: Seq<char>) -> Option<Seq<char>>;

/// The characters of an optional string.
pub open spec fn text_of(o: Option<String>) -> Option<Seq<char>> {
    match o {
        Some(t) => Some(t@),
        None => None,
    }
}

/// Relies on `tracing::Level`'s `FromStr` impl, and on `Level::as_str`, which
/// gives one of the tags `TRACE`, `DEBUG`, `INFO`, `WARN`, `ERROR`. A tag
/// itself is read as its own level.
#[verifier::external_body]
fn parse_tracing_level(s: &str) -> (r: Option<String>)
    ensures
        text_of(r) == parsed_level_name(s@),
        text_of(r) matches Some(n) ==> level_named(n) is Some,
        level_named(s@) is Some ==> text_of(r) == Some(s@),
{
    s.parse::<tracing::Level>().ok().map(|l| l.as_str().to_string())
}

/// The level that a tag read by `tracing` stands for, or the refusal of `s`.
pub fn level_from_parsed(s: &str, parsed: Option<&str>) -> (r: Result<Level, Error>)
    ensures
        parsed matches Some(n) ==> (level_named(n@) matches Some(l) ==> r == Ok::<Level, Error>(l)),
        parsed matches Some(n) ==> (level_named(n@) is None ==> (r matches Err(
            Error::LevelFromStr(t),
        ) && t@ == s@)),
        parsed is None ==> (r matches Err(Error::LevelFromStr(t)) && t@ == s@),
{
    match parsed {
        Some(n) => match Level::from_name(n) {
            Some(l) => Ok(l),
            None => Err(Error::LevelFromStr(String::from_str(s))),
        },
        None => Err(Error::LevelFromStr(String::from_str(s))),
    }
}

/// Reads a tracing level from `s` as `tracing` does (a level's name in any
/// case, or a number from 1 for ERROR to 5 for TRACE).
pub fn parse_level(s: &str) -> (r: Result<Level, Error>)
    ensures
        parsed_level_name(s@) matches Some(n) ==> (level_named(n) matches Some(l) && r == Ok::<
            Level,
            Error,
        >(l)),
        parsed_level_name(s@) is None ==> (r matches Err(Error::LevelFromStr(t)) && t@ == s@),
        level_named(s@) matches Some(l) ==> r == Ok::<Level, Error>(l),
{
    let parsed = parse_tracing_level(s);
    match parsed {
        Some(n) => level_from_parsed(s, Some(n.as_str())),
        None => level_from_parsed(s, None),
    }
}

/// The tracing settings given on the command line: a level, and the directory
/// of the log files. What is not given is asked of the session.
pub struct TracingArgs {
    tracing_level: Option<Level>,
    kakoune_rs_tempdir: Option<String>,
}

impl TracingArgs {
    pub closed spec fn given_level(&self) -> Option<Level> {
        self.tracing_level
    }

    pub closed spec fn given_tempdir(&self) -> Option<Seq<char>> {
        match &self.kakoune_rs_tempdir {
            Some(d) => Some(d@),
            None => None,
        }
    }

    pub fn new(tracing_level: Option<Level>, kakoune_rs_tempdir: Option<String>) -> (r: Self)
        ensures
            r.given_level() == tracing_level,
            r.given_tempdir() == (match kakoune_rs_tempdir {
                Some(d) => Some(d@),
                None => None::<Seq<char>>,
            }),
    {
        TracingArgs { tracing_level, kakoune_rs_tempdir }
    }

    pub fn into_initializer(self, kakoune: &Kakoune) -> (r: TracingInitializer)
        ensures
            r.session_view() == kakoune@,
            r.given_level() == self.given_level(),
            r.given_tempdir() == self.given_tempdir(),
    {
        TracingInitializer { kakoune: kakoune.duplicate(), tracing_args: self }
    }
}

/// Sets up tracing for one module of a program against a session.
pub struct TracingInitializer {
    kakoune: Kakoune,
    tracing_args: TracingArgs,
}

impl TracingInitializer {
    pub closed spec fn session_view(&self) -> Seq<char> {
        self.kakoune@
    }

    pub closed spec fn given_level(&self) -> Option<Level> {
        self.tracing_args.given_level()
    }

    pub closed spec fn given_tempdir(&self) -> Option<Seq<char>> {
        self.tracing_args.given_tempdir()
    }

    /// Whether the log directory is to be asked of the session: where none,
    /// or an empty one, was given.
    pub open spec fn tempdir_missing(&self) -> bool {
        match self.given_tempdir() {
            Some(d) => d.len() == 0,
            None => true,
        }
    }

    pub fn kakoune(&self) -> (r: &Kakoune)
        ensures
            r@ == self.session_view(),
    {
        &self.kakoune
    }

    /// The option to ask the session for the tracing level, or `None` where
    /// the level was given.
    pub fn level_query(&self) -> (r: Option<&'static str>)
        ensures
            self.given_level() is Some ==> r is None,
            self.given_level() is None ==> r == Some(KAKOUNE_RS_TRACING_LEVEL_OPTION),
    {
        match self.tracing_args.tracing_level {
            Some(_) => None,
            None => Some(KAKOUNE_RS_TRACING_LEVEL_OPTION),
        }
    }

    /// The tracing level: the one given, or else the one read from `answer`,
    /// the session's value of the level option.
    pub fn tracing_level(&self, answer: &str) -> (r: Result<Level, Error>)
        ensures
            self.given_level() matches Some(l) ==> r == Ok::<Level, Error>(l),
            self.given_level() is None ==> (parsed_level_name(answer@) matches Some(n) ==> (
            level_named(n) matches Some(l) && r == Ok::<Level, Error>(l))),
            self.given_level() is None ==> (parsed_level_name(answer@) is None ==> (r matches Err(
                Error::LevelFromStr(t),
            ) && t@ == answer@)),
    {
        match self.tracing_args.tracing_level {
            Some(l) => Ok(l),
            None => parse_level(answer),
        }
    }

    /// The option to ask the session for the log directory, or `None` where a
    /// non-empty one was given.
    pub fn tempdir_query(&self) -> (r: Option<&'static str>)
        ensures
            !self.tempdir_missing() ==> r is None,
            self.tempdir_missing() ==> r == Some(KAKOUNE_RS_TEMPDIR_OPTION),
    {
        match &self.tracing_args.kakoune_rs_tempdir {
            Some(d) => if d.as_str().unicode_len() == 0 {
                Some(KAKOUNE_RS_TEMPDIR_OPTION)
            } else {
                None
            },
            None => Some(KAKOUNE_RS_TEMPDIR_OPTION),
        }
    }

    /// The log directory: the non-empty one given, or else `answer`, the
    /// session's value of the directory option.
    pub fn tempdir(&self, answer: &str) -> (r: String)
        ensures
            !self.tempdir_missing() ==> self.given_tempdir() == Some(r@),
            self.tempdir_missing() ==> r@ == answer@,
    {
        match &self.tracing_args.kakoune_rs_tempdir {
            Some(d) => if d.as_str().unicode_len() == 0 {
                String::from_str(answer)
            } else {
                d.clone()
            },
            None => String::from_str(answer),
        }
    }

    /// The command that registers `module`'s log file with the session.
    pub fn register_command(module: &str) -> (r: String)
        ensures
            r@ == "register-log-module "@ + module@,
    {
        let mut out = String::from_str("register-log-module ");
        out.append(module);
        out
    }
}

} // verus!
