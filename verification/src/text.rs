//! Verified text utilities for the admin command grammar: prefix testing,
//! splitting a message on single spaces (empty tokens from consecutive
//! spaces are preserved), joining tokens back with single spaces, and
//! blank-string testing.

use vstd::prelude::*;

verus! {

/// True when `c` has Unicode's White_Space property — the same
/// characters `char::is_whitespace` accepts and `str::trim` removes:
/// the ASCII whitespace controls and space, next line, no-break space,
/// ogham space mark, the en-quad..hair-space range, the line and
/// paragraph separators, narrow no-break space, medium mathematical
/// space and ideographic space.
pub open spec fn is_space_char(c: char) -> bool {
    let u = c as u32;
    (0x09 <= u && u <= 0x0D) || u == 0x20 || u == 0x85 || u == 0xA0 || u == 0x1680 || (0x2000 <= u
        && u <= 0x200A) || u == 0x2028 || u == 0x2029 || u == 0x202F || u == 0x205F || u == 0x3000
}

/// True when every character of `s` is whitespace; an empty `s` counts.
pub open spec fn spec_is_blank(s: Seq<char>) -> bool {
    forall|i: int| 0 <= i < s.len() ==> is_space_char(s[i])
}

/// True when `p` is a prefix of `s`.
pub open spec fn spec_starts_with(s: Seq<char>, p: Seq<char>) -> bool {
    p.len() <= s.len() && s.subrange(0, p.len() as int) == p
}

/// The views of a sequence of owned strings.
pub open spec fn views_of(vs: Seq<String>) -> Seq<Seq<char>> {
    vs.map_values(|v: String| v@)
}

/// Index of the first space character of `s`, or -1 when there is none.
pub open spec fn first_space(s: Seq<char>) -> int
    decreases s.len(),
{
    if s.len() == 0 {
        -1
    } else if s[0] == ' ' {
        0
    } else if first_space(s.skip(1)) < 0 {
        -1
    } else {
        first_space(s.skip(1)) + 1
    }
}

proof fn lemma_first_space_bounds(s: Seq<char>)
    ensures
        first_space(s) == -1 || 0 <= first_space(s) < s.len(),
    decreases s.len(),
{
    if s.len() != 0 && s[0] != ' ' {
        lemma_first_space_bounds(s.skip(1));
    }
}

proof fn lemma_first_space_at(s: Seq<char>, r: int)
    requires
        0 <= r < s.len(),
        s[r] == ' ',
        forall|j: int| 0 <= j < r ==> s[j] != ' ',
    ensures
        first_space(s) == r,
    decreases r,
{
    if r > 0 {
        assert forall|j: int| 0 <= j < r - 1 implies s.skip(1)[j] != ' ' by {
            assert(s.skip(1)[j] == s[j + 1]);
        }
        assert(s.skip(1)[r - 1] == s[r]);
        lemma_first_space_at(s.skip(1), r - 1);
    }
}

proof fn lemma_first_space_none(s: Seq<char>)
    requires
        forall|j: int| 0 <= j < s.len() ==> s[j] != ' ',
    ensures
        first_space(s) == -1,
    decreases s.len(),
{
    if s.len() != 0 {
        assert forall|j: int| 0 <= j < s.skip(1).len() implies s.skip(1)[j] != ' ' by {
            assert(s.skip(1)[j] == s[j + 1]);
        }
        lemma_first_space_none(s.skip(1));
    }
}

/// `s` split on single space characters. Consecutive spaces produce empty
/// tokens; the result always holds at least one token.
pub open spec fn spec_split(s: Seq<char>) -> Seq<Seq<char>>
    decreases s.len(),
{
    let i = first_space(s);
    if 0 <= i < s.len() {
        seq![s.take(i)] + spec_split(s.skip(i + 1))
    } else {
        seq![s]
    }
}

pub proof fn lemma_split_nonempty(s: Seq<char>)
    ensures
        spec_split(s).len() >= 1,
{
    let i = first_space(s);
    if 0 <= i < s.len() {
        assert(spec_split(s) == seq![s.take(i)] + spec_split(s.skip(i + 1)));
    } else {
        assert(spec_split(s) == seq![s]);
    }
}

/// `ts` joined back into one string with a single space between
/// consecutive tokens.
pub open spec fn spec_join(ts: Seq<Seq<char>>) -> Seq<char>
    decreases ts.len(),
{
    if ts.len() == 0 {
        Seq::empty()
    } else if ts.len() == 1 {
        ts[0]
    } else {
        ts[0] + seq![' '] + spec_join(ts.skip(1))
    }
}

proof fn lemma_join_push(ts: Seq<Seq<char>>, t: Seq<char>)
    ensures
        spec_join(ts.push(t)) == if ts.len() == 0 {
            t
        } else {
            (spec_join(ts) + seq![' '] + t)
        },
    decreases ts.len(),
{
    let p = ts.push(t);
    if ts.len() == 0 {
        assert(p.len() == 1);
        assert(p[0] == t);
    } else if ts.len() == 1 {
        assert(p.len() == 2);
        assert(p.skip(1) =~= seq![t]);
        assert(spec_join(seq![t]) == t);
        assert(p[0] == ts[0]);
    } else {
        assert(p.skip(1) =~= ts.skip(1).push(t));
        lemma_join_push(ts.skip(1), t);
        assert(p[0] == ts[0]);
        assert(spec_join(p) == ts[0] + seq![' '] + (spec_join(ts.skip(1)) + seq![' '] + t));
        assert(ts[0] + seq![' '] + (spec_join(ts.skip(1)) + seq![' '] + t) =~= (ts[0] + seq![' ']
            + spec_join(ts.skip(1))) + seq![' '] + t);
    }
}

/// First index of a space character in `s`, or the length of `s` when
/// no space occurs.
pub fn find_first_space(s: &str) -> (r: usize)
    ensures
        r as int == if first_space(s@) >= 0 {
            first_space(s@)
        } else {
            s@.len() as int
        },
{
    let n = s.unicode_len();
    let mut i: usize = 0;
    while i < n
        invariant
            n == s@.len(),
            i <= n,
            forall|j: int| 0 <= j < i ==> s@[j] != ' ',
        decreases n - i,
    {
        if s.get_char(i) == ' ' {
            proof {
                lemma_first_space_at(s@, i as int);
            }
            return i;
        }
        i = i + 1;
    }
    proof {
        lemma_first_space_none(s@);
    }
    n
}

/// Splits `s` on single space characters, keeping empty tokens, as
/// [`spec_split`] describes.
pub fn split_spaces(s: &str) -> (r: Vec<String>)
    ensures
        views_of(r@) == spec_split(s@),
    decreases s@.len(),
{
    let n = s.unicode_len();
    let sp = find_first_space(s);
    if sp < n {
        proof {
            lemma_first_space_bounds(s@);
        }
        let head = String::from_str(s.substring_char(0, sp));
        let rest = s.substring_char(sp + 1, n);
        let mut r = split_spaces(rest);
        r.insert(0, head);
        proof {
            assert(views_of(r@) =~= seq![s@.take(sp as int)] + spec_split(s@.skip(sp as int + 1)));
        }
        r
    } else {
        let mut r: Vec<String> = Vec::new();
        r.push(String::from_str(s));
        proof {
            assert(views_of(r@) =~= seq![s@]);
        }
        r
    }
}

/// Joins the tokens of `ts` from index `from` on with single spaces, as
/// [`spec_join`] describes.
pub fn join_from(ts: &Vec<String>, from: usize) -> (r: String)
    requires
        from <= ts@.len(),
    ensures
        r@ == spec_join(views_of(ts@).skip(from as int)),
{
    let ghost all = views_of(ts@).skip(from as int);
    let mut r = String::new();
    let mut i: usize = from;
    while i < ts.len()
        invariant
            from <= i <= ts@.len(),
            all == views_of(ts@).skip(from as int),
            r@ == spec_join(all.take(i - from)),
        decreases ts@.len() - i,
    {
        let ghost done = all.take(i - from);
        if i > from {
            r.append(" ");
        }
        r.append(ts[i].as_str());
        proof {
            reveal_strlit(" ");
            assert(" "@ =~= seq![' ']);
            lemma_join_push(done, ts@[i as int]@);
            assert(all.take(i - from + 1) =~= done.push(ts@[i as int]@));
            if i == from {
                assert(r@ =~= ts@[i as int]@);
            }
        }
        i = i + 1;
    }
    proof {
        assert(all.take(ts@.len() - from) =~= all);
    }
    r
}

/// Character-for-character equality of two string slices.
pub fn str_eq(a: &str, b: &str) -> (r: bool)
    ensures
        r == (a@ == b@),
{
    let na = a.unicode_len();
    let nb = b.unicode_len();
    if na != nb {
        return false;
    }
    let mut i: usize = 0;
    while i < na
        invariant
            na == a@.len(),
            na == b@.len(),
            i <= na,
            forall|j: int| 0 <= j < i ==> a@[j] == b@[j],
        decreases na - i,
    {
        if a.get_char(i) != b.get_char(i) {
            return false;
        }
        i = i + 1;
    }
    proof {
        assert(a@ =~= b@);
    }
    true
}

/// True when every character of `s` is whitespace, as [`spec_is_blank`]
/// describes.
pub fn is_blank(s: &str) -> (r: bool)
    ensures
        r == spec_is_blank(s@),
{
    let n = s.unicode_len();
    let mut i: usize = 0;
    while i < n
        invariant
            n == s@.len(),
            i <= n,
            forall|j: int| 0 <= j < i ==> is_space_char(s@[j]),
        decreases n - i,
    {
        let c = s.get_char(i);
        let u = c as u32;
        let white = (0x09 <= u && u <= 0x0D) || u == 0x20 || u == 0x85 || u == 0xA0 || u == 0x1680
            || (0x2000 <= u && u <= 0x200A) || u == 0x2028 || u == 0x2029 || u == 0x202F
            || u == 0x205F || u == 0x3000;
        if !white {
            return false;
        }
        i = i + 1;
    }
    true
}

/// True when `p` is a prefix of `s`, as [`spec_starts_with`] describes.
pub fn starts_with_prefix(s: &str, p: &str) -> (r: bool)
    ensures
        r == spec_starts_with(s@, p@),
{
    let ns = s.unicode_len();
    let np = p.unicode_len();
    if np > ns {
        return false;
    }
    let mut i: usize = 0;
    while i < np
        invariant
            ns == s@.len(),
            np == p@.len(),
            np <= ns,
            i <= np,
            forall|j: int| 0 <= j < i ==> s@[j] == p@[j],
        decreases np - i,
    {
        if s.get_char(i) != p.get_char(i) {
            assert(!spec_starts_with(s@, p@)) by {
                if spec_starts_with(s@, p@) {
                    assert(s@.subrange(0, p@.len() as int)[i as int] == s@[i as int]);
                }
            }
            return false;
        }
        i = i + 1;
    }
    proof {
        assert(s@.subrange(0, p@.len() as int) =~= p@);
    }
    true
}

} // verus!
