use vstd::prelude::*;

use crate::error::Error;
use crate::escape::{escaped, EscapedString};

verus! {

/// The text streamed to a control process for a batch of commands: each
/// command followed by a newline, in the order given.
pub open spec fn input_of(cmds: Seq<Seq<char>>) -> Seq<char>
    decreases cmds.len(),
{
    if cmds.len() == 0 {
        Seq::empty()
    } else {
        cmds[0] + seq!['\n'] + input_of(cmds.drop_first())
    }
}

/// The words of one command, separated by single spaces.
pub open spec fn spaced(words: Seq<Seq<char>>) -> Seq<char>
    decreases words.len(),
{
    if words.len() == 0 {
        Seq::empty()
    } else if words.len() == 1 {
        words[0]
    } else {
        spaced(words.drop_last()) + seq![' '] + words.last()
    }
}

/// The command that echoes the given arguments to the `*debug*` buffer.
pub open spec fn debug_text(words: Seq<Seq<char>>) -> Seq<char> {
    "echo -debug "@ + spaced(words)
}

/// The script that writes the value of `expansion` to the file at `path`, and
/// an empty string there when the expansion fails.
pub open spec fn expansion_script_text(path: Seq<char>, expansion: Seq<char>) -> Seq<char> {
    "try %{\n  echo -to-file "@ + escaped(path) + " "@ + expansion + "\n} catch %{\n  echo -to-file "@
        + escaped(path) + " ''\n}"@
}

/// Where the first newline of `t` stands, or `t.len()` where it has none.
pub open spec fn first_newline(t: Seq<char>) -> nat
    decreases t.len(),
{
    if t.len() == 0 {
        0
    } else if t[0] == '\n' {
        0
    } else {
        1 + first_newline(t.drop_first())
    }
}

/// The newline-terminated lines of `t`, in order, as a reader of the stream
/// takes them.
pub open spec fn lines_of(t: Seq<char>) -> Seq<Seq<char>>
    decreases t.len(),
{
    if t.len() == 0 {
        Seq::empty()
    } else {
        let k = first_newline(t);
        if k < t.len() {
            seq![t.subrange(0, k as int)] + lines_of(t.subrange(k as int + 1, t.len() as int))
        } else {
            seq![t]
        }
    }
}

/// The characters of each string, in order.
pub open spec fn views_of(v: Seq<String>) -> Seq<Seq<char>> {
    v.map_values(|c: String| c@)
}

/// The text of each escaped string, in order.
pub open spec fn escaped_views(v: Seq<EscapedString>) -> Seq<Seq<char>> {
    v.map_values(|e: EscapedString| e@)
}

/// Sending the texts of two batches one after the other sends the text of
/// the two batches joined, the first batch's commands first.
pub proof fn lemma_input_concat(a: Seq<Seq<char>>, b: Seq<Seq<char>>)
    ensures
        input_of(a + b) == input_of(a) + input_of(b),
    decreases a.len(),
{
    if a.len() == 0 {
        assert(a + b =~= b);
        assert(input_of(a) + input_of(b) =~= input_of(b));
    } else {
        assert((a + b).drop_first() =~= a.drop_first() + b);
        lemma_input_concat(a.drop_first(), b);
        assert(input_of(a + b) =~= input_of(a) + input_of(b));
    }
}

proof fn lemma_first_newline(c: Seq<char>, rest: Seq<char>)
    requires
        !c.contains('\n'),
    ensures
        first_newline(c + seq!['\n'] + rest) == c.len(),
    decreases c.len(),
{
    let t = c + seq!['\n'] + rest;
    if c.len() > 0 {
        assert(t.drop_first() =~= c.drop_first() + seq!['\n'] + rest);
        assert(!c.drop_first().contains('\n')) by {
            if c.drop_first().contains('\n') {
                let k = choose|k: int| 0 <= k < c.drop_first().len() && c.drop_first()[k] == '\n';
                assert(c[k + 1] == '\n');
            }
        }
        assert(c[0] != '\n') by {
            if c[0] == '\n' {
                assert(c.contains('\n'));
            }
        }
        lemma_first_newline(c.drop_first(), rest);
    }
}

/// Dispatch order: a reader that splits the stream sent for a batch of
/// commands at its newlines finds the commands, each once, in the order given
/// (for commands that hold no newline of their own).
pub proof fn lemma_dispatch_order(cmds: Seq<Seq<char>>)
    requires
        forall|i: int| 0 <= i < cmds.len() ==> !(#[trigger] cmds[i]).contains('\n'),
    ensures
        lines_of(input_of(cmds)) == cmds,
    decreases cmds.len(),
{
    if cmds.len() == 0 {
        assert(input_of(cmds) =~= Seq::<char>::empty());
    } else {
        let rest = input_of(cmds.drop_first());
        let t = input_of(cmds);
        assert(t == cmds[0] + seq!['\n'] + rest);
        lemma_first_newline(cmds[0], rest);
        let k = cmds[0].len();
        assert(t.subrange(0, k as int) =~= cmds[0]);
        assert(t.subrange(k as int + 1, t.len() as int) =~= rest);
        lemma_dispatch_order(cmds.drop_first());
        assert(seq![cmds[0]] + cmds.drop_first() =~= cmds);
    }
}

/// A handle on a running Kakoune session: the session's name, nothing more.
pub struct Kakoune {
    session: String,
}

impl View for Kakoune {
    type V = Seq<char>;

    closed spec fn view(&self) -> Seq<char> {
        self.session@
    }
}

impl Kakoune {
    /// A handle on `session`, which is not checked to be alive.
    pub fn new_unchecked(session: String) -> (r: Self)
        ensures
            r@ == session@,
    {
        Kakoune { session }
    }

    /// The session's name.
    pub fn session(&self) -> (r: &str)
        ensures
            r@ == self@,
    {
        self.session.as_str()
    }

    /// A copy of this handle.
    pub fn duplicate(&self) -> (r: Self)
        ensures
            r@ == self@,
    {
        Kakoune { session: self.session.clone() }
    }

    /// What a liveness check concludes from how a control process that was
    /// given no commands ended: the session is alive exactly when it exited
    /// successfully.
    pub fn validation_result(&self, exited_successfully: bool) -> (r: Result<(), Error>)
        ensures
            exited_successfully ==> r == Ok::<(), Error>(()),
            !exited_successfully ==> (r matches Err(Error::InvalidSession(s)) && s@ == self@),
    {
        if exited_successfully {
            Ok(())
        } else {
            Err(Error::InvalidSession(self.session.clone()))
        }
    }
}

/// The text written to a control process's input for `commands`: each
/// command followed by a newline, in order.
pub fn command_input(commands: &Vec<String>) -> (r: String)
    ensures
        r@ == input_of(views_of(commands@)),
{
    let mut out = String::new();
    let mut i: usize = 0;
    while i < commands.len()
        invariant
            i <= commands@.len(),
            out@ == input_of(views_of(commands@.subrange(0, i as int))),
        decreases commands.len() - i,
    {
        proof {
            reveal_strlit("\n");
        }
        out.append(commands[i].as_str());
        out.append("\n");
        proof {
            let a = views_of(commands@.subrange(0, i as int));
            let c = seq![commands@[i as int]@];
            lemma_input_concat(a, c);
            assert(views_of(commands@.subrange(0, i + 1)) =~= a + c);
            assert(c.drop_first() =~= Seq::<Seq<char>>::empty());
            assert(input_of(Seq::<Seq<char>>::empty()) =~= Seq::<char>::empty());
            assert(input_of(c) =~= commands@[i as int]@ + seq!['\n']);
        }
        i = i + 1;
    }
    assert(commands@.subrange(0, commands@.len() as int) =~= commands@);
    out
}

/// The command that echoes `messages` to the `*debug*` buffer, each message
/// one argument of a single `echo -debug`.
pub fn debug_command(messages: &Vec<EscapedString>) -> (r: String)
    ensures
        r@ == debug_text(escaped_views(messages@)),
{
    let mut words = String::new();
    let mut i: usize = 0;
    while i < messages.len()
        invariant
            i <= messages@.len(),
            words@ == spaced(escaped_views(messages@.subrange(0, i as int))),
        decreases messages.len() - i,
    {
        proof {
            reveal_strlit(" ");
        }
        let ghost before = escaped_views(messages@.subrange(0, i as int));
        if i > 0 {
            words.append(" ");
        }
        words.append(messages[i].as_str());
        proof {
            let now = escaped_views(messages@.subrange(0, i + 1));
            assert(now.drop_last() =~= before);
            if i == 0 {
                assert(before =~= Seq::<Seq<char>>::empty());
                assert(words@ =~= now[0]);
            }
        }
        i = i + 1;
    }
    assert(messages@.subrange(0, messages@.len() as int) =~= messages@);
    let mut out = String::from_str("echo -debug ");
    out.append(words.as_str());
    out
}

/// The option expansion `%opt{name}`.
pub fn option_expansion(name: &str) -> (r: String)
    ensures
        r@ == "%opt{"@ + name@ + "}"@,
{
    let mut out = String::from_str("%opt{");
    out.append(name);
    out.append("}");
    out
}

/// The value expansion `%val{name}`.
pub fn value_expansion(name: &str) -> (r: String)
    ensures
        r@ == "%val{"@ + name@ + "}"@,
{
    let mut out = String::from_str("%val{");
    out.append(name);
    out.append("}");
    out
}

/// The script that makes the session write the value of `expansion` to the
/// named pipe at `path`, and an empty string there where evaluating the
/// expansion fails, so that the reading side is never left waiting.
pub fn expansion_script(path: &str, expansion: &str) -> (r: String)
    ensures
        r@ == expansion_script_text(path@, expansion@),
{
    let receiver = EscapedString::escape(path);
    let mut out = String::from_str("try %{\n  echo -to-file ");
    out.append(receiver.as_str());
    out.append(" ");
    out.append(expansion);
    out.append("\n} catch %{\n  echo -to-file ");
    out.append(receiver.as_str());
    out.append(" ''\n}");
    out
}

} // verus!
