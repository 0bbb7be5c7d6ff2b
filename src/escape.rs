use vstd::prelude::*;

verus! {

/// The delimiter of a `%§...§` block in the Kakoune command language. Inside
/// such a block the only escape is the doubling of the delimiter.
pub open spec fn delim() -> char {
    '§'
}

/// `s` with every delimiter doubled.
pub open spec fn doubled(s: Seq<char>) -> Seq<char>
    decreases s.len(),
{
    if s.len() == 0 {
        Seq::empty()
    } else if s[0] == delim() {
        seq![delim(), delim()] + doubled(s.drop_first())
    } else {
        seq![s[0]] + doubled(s.drop_first())
    }
}

/// The token that stands for the text `s` as one argument: `%§`, then `s`
/// with its delimiters doubled, then a closing `§`.
pub open spec fn escaped(s: Seq<char>) -> Seq<char> {
    seq!['%', delim()] + doubled(s) + seq![delim()]
}

/// Reads the inside of a `%§` block: returns the value it denotes and what
/// follows its closing delimiter, or `None` where the block never closes.
pub open spec fn read_block(t: Seq<char>) -> Option<(Seq<char>, Seq<char>)>
    decreases t.len(),
{
    if t.len() == 0 {
        None
    } else if t[0] == delim() {
        if t.len() >= 2 && t[1] == delim() {
            match read_block(t.subrange(2, t.len() as int)) {
                Some((v, rest)) => Some((seq![delim()] + v, rest)),
                None => None,
            }
        } else {
            Some((Seq::empty(), t.drop_first()))
        }
    } else {
        match read_block(t.drop_first()) {
            Some((v, rest)) => Some((seq![t[0]] + v, rest)),
            None => None,
        }
    }
}

/// How the command language reads `t` as a `%§` block: the value of the one
/// argument that `t` is, or `None` where `t` is not exactly one such block.
pub open spec fn parse_argument(t: Seq<char>) -> Option<Seq<char>> {
    if t.len() >= 2 && t[0] == '%' && t[1] == delim() {
        match read_block(t.subrange(2, t.len() as int)) {
            Some((v, rest)) => if rest.len() == 0 {
                Some(v)
            } else {
                None
            },
            None => None,
        }
    } else {
        None
    }
}

/// Doubling the delimiters of a concatenation doubles those of each part.
pub proof fn lemma_doubled_concat(a: Seq<char>, b: Seq<char>)
    ensures
        doubled(a + b) == doubled(a) + doubled(b),
    decreases a.len(),
{
    if a.len() == 0 {
        assert(a + b =~= b);
        assert(doubled(a) + doubled(b) =~= doubled(b));
    } else {
        assert((a + b).drop_first() =~= a.drop_first() + b);
        lemma_doubled_concat(a.drop_first(), b);
        if a[0] == delim() {
            assert(doubled(a + b) =~= doubled(a) + doubled(b));
        } else {
            assert(doubled(a + b) =~= doubled(a) + doubled(b));
        }
    }
}

/// Doubling never shortens a text.
pub proof fn lemma_doubled_len(s: Seq<char>)
    ensures
        doubled(s).len() >= s.len(),
    decreases s.len(),
{
    if s.len() > 0 {
        lemma_doubled_len(s.drop_first());
    }
}

/// The inside of a block written by doubling `s` and closing it reads back
/// as `s`, followed by whatever stood after it.
pub proof fn lemma_read_doubled(s: Seq<char>, rest: Seq<char>)
    requires
        rest.len() == 0 || rest[0] != delim(),
    ensures
        read_block(doubled(s) + seq![delim()] + rest) == Some((s, rest)),
    decreases s.len(),
{
    let t = doubled(s) + seq![delim()] + rest;
    if s.len() == 0 {
        assert(t =~= seq![delim()] + rest);
        assert(t.drop_first() =~= rest);
    } else {
        lemma_read_doubled(s.drop_first(), rest);
        let inner = doubled(s.drop_first()) + seq![delim()] + rest;
        if s[0] == delim() {
            assert(t =~= seq![delim(), delim()] + inner);
            assert(t.subrange(2, t.len() as int) =~= inner);
            assert(seq![delim()] + s.drop_first() =~= s);
        } else {
            assert(t =~= seq![s[0]] + inner);
            assert(t.drop_first() =~= inner);
            assert(seq![s[0]] + s.drop_first() =~= s);
        }
    }
}

/// Escaping round trip: the command language reads the escaped form of any
/// text as exactly one argument whose value is that text.
pub proof fn lemma_escape_round_trip(s: Seq<char>)
    ensures
        parse_argument(escaped(s)) == Some(s),
{
    let t = escaped(s);
    lemma_read_doubled(s, Seq::empty());
    assert(t.subrange(2, t.len() as int) =~= doubled(s) + seq![delim()] + Seq::<char>::empty());
}

/// Escaping is injective, and escaping the escaped form of a text never gives
/// back that escaped form: the wrapping does not collapse.
pub proof fn lemma_escape_twice_differs(s: Seq<char>, t: Seq<char>)
    ensures
        escaped(escaped(s)) != escaped(s),
        escaped(s) == escaped(t) ==> s == t,
{
    lemma_doubled_len(s);
    lemma_doubled_len(escaped(s));
    lemma_escape_round_trip(s);
    lemma_escape_round_trip(t);
}

/// Relies on `String::push`: the character is added at the end.
#[verifier::external_body]
pub(crate) fn push_char(s: &mut String, c: char)
    ensures
        final(s)@ == old(s)@.push(c),
{
    s.push(c);
}

/// A string that the Kakoune command language parses as a single argument of
/// a command, such as `abc`, `%{a b c}` or `%§a§§b§`.
pub struct EscapedString {
    text: String,
}

impl View for EscapedString {
    type V = Seq<char>;

    closed spec fn view(&self) -> Seq<char> {
        self.text@
    }
}

impl EscapedString {
    /// Wraps `s` as it is. The caller vouches that `s` already parses as one
    /// argument, e.g. because it contains no whitespace and no delimiter.
    pub fn new_unchecked(s: String) -> (r: Self)
        ensures
            r@ == s@,
    {
        EscapedString { text: s }
    }

    /// Escapes `s`: doubles each `§` in it and wraps the result in `%§...§`.
    pub fn escape(s: &str) -> (r: Self)
        ensures
            r@ == escaped(s@),
    {
        let n = s.unicode_len();
        let mut out = String::new();
        push_char(&mut out, '%');
        push_char(&mut out, '§');
        let mut i: usize = 0;
        while i < n
            invariant
                n == s@.len(),
                i <= n,
                out@ == seq!['%', delim()] + doubled(s@.subrange(0, i as int)),
            decreases n - i,
        {
            let c = s.get_char(i);
            push_char(&mut out, c);
            if c == '§' {
                push_char(&mut out, c);
            }
            proof {
                lemma_doubled_concat(s@.subrange(0, i as int), seq![c]);
                assert(s@.subrange(0, i as int) + seq![c] =~= s@.subrange(0, i + 1));
                assert(seq![c].drop_first() =~= Seq::<char>::empty());
                assert(doubled(Seq::<char>::empty()) =~= Seq::<char>::empty());
                if c == delim() {
                    assert(doubled(seq![c]) =~= seq![delim(), delim()]);
                } else {
                    assert(doubled(seq![c]) =~= seq![c]);
                }
            }
            i = i + 1;
        }
        push_char(&mut out, '§');
        assert(s@.subrange(0, n as int) =~= s@);
        EscapedString { text: out }
    }

    /// The token as it is written into a command.
    pub fn as_str(&self) -> (r: &str)
        ensures
            r@ == self@,
    {
        self.text.as_str()
    }
}

} // verus!
