//! String helpers shared by the diagnostic renderer, the reference
//! checks and the code emitter: equality, prefix/suffix tests, line
//! prefixing, trimming, and suffix-after-separator extraction.

use vstd::prelude::*;
use vstd::string::StrSliceExecFns;
use vstd::string::StringExecFns;

verus! {

/// The whitespace characters the emitter ever produces; trimming is
/// defined over exactly these.
pub open spec fn ws_char(c: char) -> bool {
    c == ' ' || c == '\n' || c == '\t' || c == '\r'
}

/// The text of an optional string: its characters when present, empty
/// when absent.
pub open spec fn opt_text(o: Option<String>) -> Seq<char> {
    match o {
        Option::None => Seq::empty(),
        Option::Some(x) => x@,
    }
}

/// A string starts with the given prefix.
pub open spec fn starts_with_v(s: Seq<char>, p: Seq<char>) -> bool {
    p.len() <= s.len() && s.subrange(0, p.len() as int) == p
}

/// Some character at position `from` or later equals `c`.
pub open spec fn has_char_from(s: Seq<char>, c: char, from: int) -> bool {
    exists|i: int| from <= i < s.len() && s[i] == c
}

/// The suffix after the last occurrence of `c`; the whole string when
/// `c` does not occur.
pub open spec fn tail_after_last(s: Seq<char>, c: char) -> Seq<char>
    decreases s.len(),
{
    if s.len() == 0 {
        Seq::empty()
    } else if s.last() == c {
        Seq::empty()
    } else {
        tail_after_last(s.drop_last(), c).push(s.last())
    }
}

/// Each line of `s` prefixed by `p`: the transformation applied to the
/// text after the first line start.
pub open spec fn prefixed_tail(s: Seq<char>, p: Seq<char>) -> Seq<char>
    decreases s.len(),
{
    if s.len() == 0 {
        Seq::empty()
    } else {
        (if s[0] == '\n' {
            seq!['\n'] + p
        } else {
            seq![s[0]]
        }) + prefixed_tail(s.skip(1), p)
    }
}

/// `s` with `p` put before its first line and after every line break.
pub open spec fn prefix_v(s: Seq<char>, p: Seq<char>) -> Seq<char> {
    p + prefixed_tail(s, p)
}

/// `s` without its leading whitespace.
pub open spec fn trim_start_v(s: Seq<char>) -> Seq<char>
    decreases s.len(),
{
    if s.len() > 0 && ws_char(s[0]) {
        trim_start_v(s.skip(1))
    } else {
        s
    }
}

/// `s` without its trailing whitespace.
pub open spec fn trim_end_v(s: Seq<char>) -> Seq<char>
    decreases s.len(),
{
    if s.len() > 0 && ws_char(s.last()) {
        trim_end_v(s.drop_last())
    } else {
        s
    }
}

/// `s` without leading and trailing whitespace.
pub open spec fn trim_v(s: Seq<char>) -> Seq<char> {
    trim_end_v(trim_start_v(s))
}

/// Relies on std's String::push: appends exactly one character.
#[verifier::external_body]
pub(crate) fn push_char(s: &mut String, c: char)
    ensures
        final(s)@ == old(s)@.push(c),
{
    s.push(c);
}

/// Character-wise string equality.
pub fn str_eq(a: &str, b: &str) -> (r: bool)
    ensures
        r == (a@ == b@),
{
    let sa: String = a.to_owned();
    let sb: String = b.to_owned();
    sa.eq(&sb)
}

/// The text of an optional string as a borrowed slice.
pub fn opt_str(o: &Option<String>) -> (r: &str)
    ensures
        r@ == opt_text(*o),
{
    match o {
        Option::None => {
            proof {
                reveal_strlit("");
                assert(""@ =~= Seq::<char>::empty());
            }
            ""
        },
        Option::Some(x) => x.as_str(),
    }
}

/// Whether `s` starts with `p`.
pub fn starts_with(s: &str, p: &str) -> (r: bool)
    ensures
        r == starts_with_v(s@, p@),
{
    let sn = s.unicode_len();
    let pn = p.unicode_len();
    if pn > sn {
        return false;
    }
    let mut i: usize = 0;
    while i < pn
        invariant
            0 <= i <= pn,
            pn <= sn,
            sn == s@.len(),
            pn == p@.len(),
            forall|j: int| 0 <= j < i ==> s@[j] == p@[j],
        decreases pn - i,
    {
        if s.get_char(i) != p.get_char(i) {
            proof {
                assert(s@.subrange(0, p@.len() as int)[i as int] != p@[i as int]);
            }
            return false;
        }
        i = i + 1;
    }
    proof {
        assert(s@.subrange(0, p@.len() as int) =~= p@);
    }
    true
}

/// Whether the last character of `s` is `c`.
pub fn ends_with_char(s: &str, c: char) -> (r: bool)
    ensures
        r == (s@.len() > 0 && s@.last() == c),
{
    let n = s.unicode_len();
    if n == 0 {
        false
    } else {
        s.get_char(n - 1) == c
    }
}

/// Whether `c` occurs in `s` at position `from` or later.
pub fn has_char_at_or_after(s: &str, c: char, from: usize) -> (r: bool)
    ensures
        r == has_char_from(s@, c, from as int),
{
    let n = s.unicode_len();
    let mut i: usize = from;
    if i > n {
        return false;
    }
    while i < n
        invariant
            from <= i <= n,
            n == s@.len(),
            forall|j: int| from <= j < i ==> s@[j] != c,
        decreases n - i,
    {
        if s.get_char(i) == c {
            return true;
        }
        i = i + 1;
    }
    false
}

proof fn lemma_tail_after_last_at(s: Seq<char>, c: char, lo: int)
    requires
        0 <= lo <= s.len(),
        forall|j: int| lo <= j < s.len() ==> s[j] != c,
        lo > 0 ==> s[lo - 1] == c,
    ensures
        tail_after_last(s, c) == s.subrange(lo, s.len() as int),
    decreases s.len(),
{
    if lo == s.len() {
        if s.len() == 0 {
            assert(tail_after_last(s, c) =~= s.subrange(lo, s.len() as int));
        } else {
            assert(s.last() == c);
            assert(tail_after_last(s, c) =~= s.subrange(lo, s.len() as int));
        }
    } else {
        assert(s.last() != c);
        lemma_tail_after_last_at(s.drop_last(), c, lo);
        assert(s.drop_last().subrange(lo, s.drop_last().len() as int).push(s.last()) =~= s
            .subrange(lo, s.len() as int));
    }
}

/// The suffix of `s` after its last occurrence of `c`; all of `s` when
/// `c` does not occur.
pub fn suffix_after_last(s: &str, c: char) -> (r: String)
    ensures
        r@ == tail_after_last(s@, c),
{
    let n = s.unicode_len();
    let mut lo: usize = n;
    while lo > 0 && s.get_char(lo - 1) != c
        invariant
            0 <= lo <= n,
            n == s@.len(),
            forall|j: int| lo <= j < n ==> s@[j] != c,
        decreases lo,
    {
        lo = lo - 1;
    }
    proof {
        lemma_tail_after_last_at(s@, c, lo as int);
    }
    let seg = s.substring_char(lo, n);
    seg.to_owned()
}

proof fn lemma_prefixed_tail_push(s: Seq<char>, p: Seq<char>, x: char)
    ensures
        prefixed_tail(s.push(x), p) == prefixed_tail(s, p) + (if x == '\n' {
            seq!['\n'] + p
        } else {
            seq![x]
        }),
    decreases s.len(),
{
    let t = s.push(x);
    if s.len() == 0 {
        assert(t.len() == 1 && t[0] == x);
        assert(t.skip(1) =~= Seq::<char>::empty());
        assert(prefixed_tail(t.skip(1), p) =~= Seq::<char>::empty());
        assert(prefixed_tail(s, p) =~= Seq::<char>::empty());
        assert(prefixed_tail(s, p) + (if x == '\n' {
            seq!['\n'] + p
        } else {
            seq![x]
        }) =~= prefixed_tail(t, p));
    } else {
        assert(t[0] == s[0]);
        assert(t.skip(1) =~= s.skip(1).push(x));
        lemma_prefixed_tail_push(s.skip(1), p, x);
        assert(prefixed_tail(t, p) =~= prefixed_tail(s, p) + (if x == '\n' {
            seq!['\n'] + p
        } else {
            seq![x]
        }));
    }
}

/// `s` with `p` put before its first line and after every line break.
pub fn prefix(s: &str, p: &str) -> (r: String)
    ensures
        r@ == prefix_v(s@, p@),
{
    let n = s.unicode_len();
    let mut acc: String = p.to_owned();
    let mut i: usize = 0;
    while i < n
        invariant
            0 <= i <= n,
            n == s@.len(),
            acc@ == p@ + prefixed_tail(s@.take(i as int), p@),
        decreases n - i,
    {
        let c = s.get_char(i);
        if c == '\n' {
            acc.append("\n");
            acc.append(p);
            proof {
                reveal_strlit("\n");
                lemma_prefixed_tail_push(s@.take(i as int), p@, c);
                assert(s@.take(i as int).push(c) =~= s@.take(i as int + 1));
                assert(acc@ =~= p@ + prefixed_tail(s@.take(i as int + 1), p@));
            }
        } else {
            push_char(&mut acc, c);
            proof {
                lemma_prefixed_tail_push(s@.take(i as int), p@, c);
                assert(s@.take(i as int).push(c) =~= s@.take(i as int + 1));
                assert(acc@ =~= p@ + prefixed_tail(s@.take(i as int + 1), p@));
            }
        }
        i = i + 1;
    }
    proof {
        assert(s@.take(n as int) =~= s@);
    }
    acc
}

/// Each line of `s` pushed right by four spaces.
pub fn indent(s: &str) -> (r: String)
    ensures
        r@ == prefix_v(s@, "    "@),
{
    prefix(s, "    ")
}

/// The doc-comment form of a comment text: each line prefixed as a
/// documentation line; empty text stays empty.
pub open spec fn code_documentation_v(s: Seq<char>) -> Seq<char> {
    if s.len() == 0 {
        Seq::empty()
    } else {
        prefix_v(s, "/// "@)
    }
}

/// Renders a comment as documentation lines; an empty comment renders
/// as nothing.
pub fn code_documentation(s: &str) -> (r: String)
    ensures
        r@ == code_documentation_v(s@),
{
    if s.unicode_len() == 0 {
        proof {
            reveal_strlit("");
            assert(""@ =~= Seq::<char>::empty());
        }
        String::from_str("")
    } else {
        prefix(s, "/// ")
    }
}

proof fn lemma_trim_start_at(s: Seq<char>, lo: int)
    requires
        0 <= lo <= s.len(),
        forall|j: int| 0 <= j < lo ==> ws_char(s[j]),
        lo < s.len() ==> !ws_char(s[lo]),
    ensures
        trim_start_v(s) == s.subrange(lo, s.len() as int),
    decreases lo,
{
    if lo == 0 {
        assert(s.subrange(0, s.len() as int) =~= s);
    } else {
        assert(ws_char(s[0]));
        lemma_trim_start_at(s.skip(1), lo - 1);
        assert(s.skip(1).subrange(lo - 1, s.skip(1).len() as int) =~= s.subrange(
            lo,
            s.len() as int,
        ));
    }
}

proof fn lemma_trim_end_at(s: Seq<char>, hi: int)
    requires
        0 <= hi <= s.len(),
        forall|j: int| hi <= j < s.len() ==> ws_char(s[j]),
        hi > 0 ==> !ws_char(s[hi - 1]),
    ensures
        trim_end_v(s) == s.subrange(0, hi),
    decreases s.len(),
{
    if hi == s.len() {
        assert(trim_end_v(s) == s.subrange(0, hi)) by {
            if s.len() > 0 {
                assert(!ws_char(s.last()));
            }
            assert(s.subrange(0, s.len() as int) =~= s);
        }
    } else {
        assert(ws_char(s.last()));
        lemma_trim_end_at(s.drop_last(), hi);
        assert(s.drop_last().subrange(0, hi) =~= s.subrange(0, hi));
    }
}

/// `s` without leading and trailing whitespace.
pub fn trim(s: &str) -> (r: String)
    ensures
        r@ == trim_v(s@),
{
    let n = s.unicode_len();
    let mut lo: usize = 0;
    while lo < n && is_ws(s.get_char(lo))
        invariant
            0 <= lo <= n,
            n == s@.len(),
            forall|j: int| 0 <= j < lo ==> ws_char(s@[j]),
        decreases n - lo,
    {
        lo = lo + 1;
    }
    let mut hi: usize = n;
    while hi > lo && is_ws(s.get_char(hi - 1))
        invariant
            lo <= hi <= n,
            n == s@.len(),
            forall|j: int| hi <= j < n ==> ws_char(s@[j]),
        decreases hi,
    {
        hi = hi - 1;
    }
    proof {
        lemma_trim_start_at(s@, lo as int);
        let t = s@.subrange(lo as int, s@.len() as int);
        lemma_trim_end_at(t, hi - lo);
        assert(t.subrange(0, hi - lo) =~= s@.subrange(lo as int, hi as int));
    }
    let seg = s.substring_char(lo, hi);
    seg.to_owned()
}

/// Whether `c` is one of the whitespace characters trimming removes.
pub fn is_ws(c: char) -> (r: bool)
    ensures
        r == ws_char(c),
{
    c == ' ' || c == '\n' || c == '\t' || c == '\r'
}

} // verus!
