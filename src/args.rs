use vstd::prelude::*;

use crate::session::Kakoune;
use crate::tracing_setup::TracingArgs;

verus! {

/// The command-line settings of a program that drives a session: the
/// session's name and the tracing settings.
pub struct KakouneArgs {
    kakoune_session: String,
    tracing_args: TracingArgs,
}

impl KakouneArgs {
    pub closed spec fn session_view(&self) -> Seq<char> {
        self.kakoune_session@
    }

    pub closed spec fn tracing_view(&self) -> TracingArgs {
        self.tracing_args
    }

    pub fn new(kakoune_session: String, tracing_args: TracingArgs) -> (r: Self)
        ensures
            r.session_view() == kakoune_session@,
            r.tracing_view() == tracing_args,
    {
        KakouneArgs { kakoune_session, tracing_args }
    }

    /// The named session's name.
    pub fn kakoune_session(&self) -> (r: &str)
        ensures
            r@ == self.session_view(),
    {
        self.kakoune_session.as_str()
    }

    /// A handle on the named session, not yet checked to be alive, and the
    /// tracing settings.
    pub fn into_parts(self) -> (r: (Kakoune, TracingArgs))
        ensures
            r.0@ == self.session_view(),
            r.1 == self.tracing_view(),
    {
        (Kakoune::new_unchecked(self.kakoune_session), self.tracing_args)
    }
}

} // verus!
