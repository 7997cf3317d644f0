//! Verified line-oriented parsing of the external tool's output.
//!
//! The tool's version query and remote listing are read line by line: a
//! line ends at a line feed, loses one trailing carriage return, and — for
//! the remote listing — its trailing separator colons; blank results are
//! dropped.

use vstd::prelude::*;
use vstd::string::StrSliceExecFns;

verus! {

broadcast use vstd::string::group_string_axioms;

/// The characters before the first line feed; the whole sequence when
/// there is none.
pub open spec fn spec_before_newline(s: Seq<char>) -> Seq<char>
    decreases s.len(),
{
    if s.len() == 0 {
        s
    } else if s[0] == '\n' {
        Seq::empty()
    } else {
        seq![s[0]] + spec_before_newline(s.drop_first())
    }
}

/// The characters after the first line feed; empty when there is none.
pub open spec fn spec_after_newline(s: Seq<char>) -> Seq<char>
    decreases s.len(),
{
    if s.len() == 0 {
        s
    } else if s[0] == '\n' {
        s.drop_first()
    } else {
        spec_after_newline(s.drop_first())
    }
}

/// One trailing carriage return removed.
pub open spec fn spec_strip_cr(s: Seq<char>) -> Seq<char> {
    if s.len() > 0 && s.last() == '\r' {
        s.drop_last()
    } else {
        s
    }
}

/// The first line of a sequence, as line iteration yields it: the text
/// before the first line feed, with one trailing carriage return removed.
pub open spec fn spec_line_head(s: Seq<char>) -> Seq<char> {
    spec_strip_cr(spec_before_newline(s))
}

/// All trailing occurrences of one character removed.
pub open spec fn spec_strip_trailing(s: Seq<char>, c: char) -> Seq<char>
    decreases s.len(),
{
    if s.len() > 0 && s.last() == c {
        spec_strip_trailing(s.drop_last(), c)
    } else {
        s
    }
}

/// All trailing separator colons removed.
pub open spec fn spec_strip_colons(s: Seq<char>) -> Seq<char> {
    spec_strip_trailing(s, ':')
}

proof fn lemma_before_newline_scan(s: Seq<char>, i: int)
    requires
        0 <= i <= s.len(),
        forall|j: int| 0 <= j < i ==> s[j] != '\n',
        i == s.len() || s[i] == '\n',
    ensures
        spec_before_newline(s) == s.take(i),
    decreases s.len(),
{
    if s.len() == 0 {
        assert(s.take(0) =~= s);
    } else if i == 0 {
        if s[0] == '\n' {
            assert(s.take(0) =~= Seq::<char>::empty());
        } else {
            assert(i == s.len());
            assert(false);
        }
    } else {
        assert(s[0] != '\n');
        lemma_before_newline_scan(s.drop_first(), i - 1);
        assert(seq![s[0]] + s.drop_first().take(i - 1) =~= s.take(i));
    }
}

proof fn lemma_after_newline_scan(s: Seq<char>, i: int)
    requires
        0 <= i <= s.len(),
        forall|j: int| 0 <= j < i ==> s[j] != '\n',
        i == s.len() || s[i] == '\n',
    ensures
        spec_after_newline(s) == if i == s.len() {
            Seq::<char>::empty()
        } else {
            s.skip(i + 1)
        },
    decreases s.len(),
{
    if s.len() == 0 {
        assert(s =~= Seq::<char>::empty());
    } else if i == 0 {
        if s[0] == '\n' {
            assert(s.drop_first() =~= s.skip(1));
        } else {
            assert(false);
        }
    } else {
        assert(s[0] != '\n');
        lemma_after_newline_scan(s.drop_first(), i - 1);
        if i < s.len() {
            assert(s.drop_first().skip(i) =~= s.skip(i + 1));
        }
    }
}

proof fn lemma_after_newline_shorter(s: Seq<char>)
    requires
        s.len() > 0,
    ensures
        spec_after_newline(s).len() < s.len(),
    decreases s.len(),
{
    if s[0] != '\n' {
        if s.len() > 1 {
            lemma_after_newline_shorter(s.drop_first());
        } else {
            assert(s.drop_first().len() == 0);
            assert(spec_after_newline(s.drop_first()) == s.drop_first());
        }
    }
}

pub proof fn lemma_strip_trailing_scan(s: Seq<char>, k: int, c: char)
    requires
        0 <= k <= s.len(),
        forall|j: int| k <= j < s.len() ==> s[j] == c,
        k > 0 ==> s[k - 1] != c,
    ensures
        spec_strip_trailing(s, c) == s.take(k),
    decreases s.len(),
{
    if s.len() == 0 {
        assert(s.take(0) =~= s);
    } else if k == s.len() {
        assert(s.last() != c);
        assert(s.take(k) =~= s);
    } else {
        assert(s.last() == c);
        lemma_strip_trailing_scan(s.drop_last(), k, c);
        assert(s.drop_last().take(k) =~= s.take(k));
    }
}

/// Finds the first line feed at or after `from`, or the length when there
/// is none.
fn find_newline(s: &str, from: usize, len: usize) -> (r: usize)
    requires
        from <= len,
        len == s@.len(),
    ensures
        from <= r <= len,
        forall|j: int| from <= j < r ==> s@[j] != '\n',
        r < len ==> s@[r as int] == '\n',
{
    let mut i: usize = from;
    while i < len
        invariant
            from <= i <= len,
            len == s@.len(),
            forall|j: int| from <= j < i ==> s@[j] != '\n',
        decreases len - i,
    {
        if s.get_char(i) == '\n' {
            return i;
        }
        i = i + 1;
    }
    i
}

/// Compares two string slices character by character.
pub fn str_eq(a: &str, b: &str) -> (r: bool)
    ensures
        r == (a@ == b@),
{
    let la = a.unicode_len();
    let lb = b.unicode_len();
    if la != lb {
        proof {
            assert(a@ != b@);
        }
        return false;
    }
    let mut i: usize = 0;
    while i < la
        invariant
            0 <= i <= la,
            la == a@.len(),
            la == b@.len(),
            forall|j: int| 0 <= j < i ==> a@[j] == b@[j],
        decreases la - i,
    {
        if a.get_char(i) != b.get_char(i) {
            proof {
                assert(a@[i as int] != b@[i as int]);
            }
            return false;
        }
        i = i + 1;
    }
    proof {
        assert(a@ =~= b@);
    }
    true
}

/// Whether a sequence begins with a prefix.
pub open spec fn spec_starts_with(s: Seq<char>, prefix: Seq<char>) -> bool {
    prefix.len() <= s.len() && s.subrange(0, prefix.len() as int) == prefix
}

/// Tests whether a string begins with a prefix.
pub fn str_starts_with(s: &str, prefix: &str) -> (r: bool)
    ensures
        r == spec_starts_with(s@, prefix@),
{
    let ls = s.unicode_len();
    let lp = prefix.unicode_len();
    if ls < lp {
        return false;
    }
    let head = s.substring_char(0, lp);
    str_eq(head, prefix)
}

/// The first line of a tool's output: the text before the first line
/// break, or `unknown` when the output is empty.
pub open spec fn spec_first_line(s: Seq<char>) -> Seq<char> {
    if s.len() == 0 {
        "unknown"@
    } else {
        spec_line_head(s)
    }
}

/// Extracts the first line of a tool's output, `unknown` when it is empty.
pub fn first_line(output: &str) -> (r: String)
    ensures
        r@ == spec_first_line(output@),
{
    let len = output.unicode_len();
    if len == 0 {
        return "unknown".to_owned();
    }
    let nl = find_newline(output, 0, len);
    let end = if nl > 0 && output.get_char(nl - 1) == '\r' {
        nl - 1
    } else {
        nl
    };
    let r = output.substring_char(0, end).to_owned();
    proof {
        lemma_before_newline_scan(output@, nl as int);
        let head = output@.take(nl as int);
        if nl > 0 && output@[nl as int - 1] == '\r' {
            assert(head.last() == '\r');
            assert(head.drop_last() =~= output@.take(nl as int - 1));
        }
        assert(output@.subrange(0, end as int) =~= output@.take(end as int));
    }
    r
}

/// The parsed remote listing: each line with its trailing separator colons
/// stripped, blank results removed, in input order.
pub open spec fn spec_parse_remotes(s: Seq<char>) -> Seq<Seq<char>>
    decreases s.len(),
    via spec_parse_remotes_dec
{
    if s.len() == 0 {
        seq![]
    } else {
        let cleaned = spec_strip_colons(spec_line_head(s));
        let rest = spec_parse_remotes(spec_after_newline(s));
        if cleaned.len() > 0 {
            seq![cleaned] + rest
        } else {
            rest
        }
    }
}

#[via_fn]
proof fn spec_parse_remotes_dec(s: Seq<char>) {
    if s.len() > 0 {
        lemma_after_newline_shorter(s);
    }
}

/// Parses the remote listing output: one entry per line, trailing
/// separator colons stripped, blank entries removed, in input order.
pub fn parse_remote_list(output: &str) -> (remotes: Vec<String>)
    ensures
        remotes.deep_view() == spec_parse_remotes(output@),
{
    let len = output.unicode_len();
    let mut acc: Vec<String> = Vec::new();
    let mut pos: usize = 0;
    proof {
        assert(output@.skip(0) =~= output@);
        assert(acc.deep_view() =~= Seq::<Seq<char>>::empty());
        assert(acc.deep_view() + spec_parse_remotes(output@) =~= spec_parse_remotes(output@));
    }
    while pos < len
        invariant
            pos <= len,
            len == output@.len(),
            spec_parse_remotes(output@) == acc.deep_view() + spec_parse_remotes(
                output@.skip(pos as int),
            ),
        decreases len - pos,
    {
        let nl = find_newline(output, pos, len);
        let line_end = if nl > pos && output.get_char(nl - 1) == '\r' {
            nl - 1
        } else {
            nl
        };
        let mut end: usize = line_end;
        while end > pos && output.get_char(end - 1) == ':'
            invariant
                pos <= end <= line_end <= len,
                len == output@.len(),
                forall|j: int| end <= j < line_end ==> output@[j] == ':',
            decreases end,
        {
            end = end - 1;
        }
        let ghost suf = output@.skip(pos as int);
        proof {
            lemma_before_newline_scan(suf, nl - pos);
            lemma_after_newline_scan(suf, nl - pos);
            let head = suf.take(nl - pos);
            if nl > pos && output@[nl as int - 1] == '\r' {
                assert(head.last() == '\r');
                assert(head.drop_last() =~= suf.take(line_end - pos));
            }
            assert(spec_line_head(suf) == suf.take(line_end - pos));
            lemma_strip_trailing_scan(suf.take(line_end - pos), end - pos, ':');
            assert(suf.take(line_end - pos).take(end - pos) =~= suf.take(end - pos));
            assert(spec_strip_colons(spec_line_head(suf)) == suf.take(end - pos));
            assert(suf.take(end - pos) =~= output@.subrange(pos as int, end as int));
        }
        if end > pos {
            acc.push(output.substring_char(pos, end).to_owned());
        }
        let newpos = if nl < len {
            nl + 1
        } else {
            len
        };
        proof {
            if nl < len {
                assert(suf.skip(nl - pos + 1) =~= output@.skip(newpos as int));
                assert(spec_after_newline(suf) == output@.skip(newpos as int));
            } else {
                assert(spec_after_newline(suf) =~= output@.skip(newpos as int));
            }
            assert(spec_parse_remotes(output@) =~= acc.deep_view() + spec_parse_remotes(
                output@.skip(newpos as int),
            ));
        }
        pos = newpos;
    }
    proof {
        assert(output@.skip(len as int) =~= Seq::<char>::empty());
        assert(spec_parse_remotes(output@) =~= acc.deep_view());
    }
    acc
}

} // verus!
