//! Verified string utilities: equality, substring search, suffix and
//! extension tests, and a lexicographic order on character sequences.

use vstd::prelude::*;
use vstd::string::StrSliceExecFns;

verus! {

/// `sub` occurs contiguously somewhere inside `s`.
pub open spec fn contains_seq(s: Seq<char>, sub: Seq<char>) -> bool {
    exists|i: int|
        0 <= i && i + sub.len() <= s.len() && #[trigger] s.subrange(i, i + sub.len()) == sub
}

/// Character-by-character equality of two string slices.
pub fn str_eq(a: &str, b: &str) -> (r: bool)
    ensures
        r == (a@ == b@),
{
    let alen = a.unicode_len();
    let blen = b.unicode_len();
    if alen != blen {
        return false;
    }
    let mut i: usize = 0;
    while i < alen
        invariant
            alen == a@.len(),
            blen == b@.len(),
            alen == blen,
            i <= alen,
            forall|j: int| 0 <= j < i ==> a@[j] == b@[j],
        decreases alen - i,
    {
        if a.get_char(i) != b.get_char(i) {
            return false;
        }
        i += 1;
    }
    proof {
        assert(a@ =~= b@);
    }
    true
}

/// Does `sub` match `s` at offset `at`?
fn match_at(s: &str, sub: &str, at: usize) -> (r: bool)
    requires
        at + sub@.len() <= s@.len(),
    ensures
        r == (s@.subrange(at as int, at + sub@.len()) == sub@),
{
    let slen = s.unicode_len();
    let nlen = sub.unicode_len();
    let mut j: usize = 0;
    while j < nlen
        invariant
            slen == s@.len(),
            nlen == sub@.len(),
            at + nlen <= s@.len(),
            j <= nlen,
            forall|k: int| 0 <= k < j ==> s@[at + k] == sub@[k],
        decreases nlen - j,
    {
        if s.get_char(at + j) != sub.get_char(j) {
            proof {
                assert(s@.subrange(at as int, at + sub@.len())[j as int] != sub@[j as int]);
            }
            return false;
        }
        j += 1;
    }
    proof {
        assert(s@.subrange(at as int, at + sub@.len()) =~= sub@);
    }
    true
}

/// Substring search, proved against `contains_seq`.
pub fn contains_str(s: &str, sub: &str) -> (r: bool)
    ensures
        r == contains_seq(s@, sub@),
{
    let slen = s.unicode_len();
    let nlen = sub.unicode_len();
    if nlen > slen {
        return false;
    }
    if nlen == 0 {
        proof {
            assert(s@.subrange(0, 0 + sub@.len() as int) =~= sub@);
        }
        return true;
    }
    let bound = slen - nlen;
    let mut i: usize = 0;
    while i <= bound
        invariant
            slen == s@.len(),
            nlen == sub@.len(),
            0 < nlen <= slen,
            bound == slen - nlen,
            i <= bound + 1,
            forall|k: int| 0 <= k < i ==> #[trigger] s@.subrange(k, k + sub@.len()) != sub@,
        decreases bound + 1 - i,
    {
        if match_at(s, sub, i) {
            return true;
        }
        i += 1;
    }
    false
}

/// `suf` is a suffix of `s`.
pub open spec fn has_suffix(s: Seq<char>, suf: Seq<char>) -> bool {
    suf.len() <= s.len() && s.subrange(s.len() - suf.len(), s.len() as int) == suf
}

/// Suffix test, proved against `has_suffix`.
pub fn ends_with_str(s: &str, suf: &str) -> (r: bool)
    ensures
        r == has_suffix(s@, suf@),
{
    let slen = s.unicode_len();
    let nlen = suf.unicode_len();
    if nlen > slen {
        return false;
    }
    match_at(s, suf, slen - nlen)
}

/// The character `c` occurs in `s`.
pub open spec fn contains_char(s: Seq<char>, c: char) -> bool {
    exists|i: int| 0 <= i < s.len() && s[i] == c
}

fn find_char(s: &str, c: char) -> (r: bool)
    ensures
        r == contains_char(s@, c),
{
    let slen = s.unicode_len();
    let mut i: usize = 0;
    while i < slen
        invariant
            slen == s@.len(),
            i <= slen,
            forall|k: int| 0 <= k < i ==> s@[k] != c,
        decreases slen - i,
    {
        if s.get_char(i) == c {
            return true;
        }
        i += 1;
    }
    false
}

/// The file name `name` has extension `e`: `e` is what follows the last `.`,
/// that dot is not the first character (a leading dot marks a hidden file,
/// not an extension), and an extension never contains a dot itself.
pub open spec fn has_ext(name: Seq<char>, e: Seq<char>) -> bool {
    &&& !contains_char(e, '.')
    &&& name.len() >= e.len() + 2
    &&& name[name.len() - e.len() - 1] == '.'
    &&& name.subrange(name.len() - e.len(), name.len() as int) == e
}

/// Extension test, proved against `has_ext`.
pub fn ext_is(name: &str, e: &str) -> (r: bool)
    ensures
        r == has_ext(name@, e@),
{
    if find_char(e, '.') {
        return false;
    }
    let nlen = name.unicode_len();
    let elen = e.unicode_len();
    if nlen < elen {
        return false;
    }
    if nlen - elen < 2 {
        return false;
    }
    if name.get_char(nlen - elen - 1) != '.' {
        return false;
    }
    match_at(name, e, nlen - elen)
}

/// Lexicographic order on character sequences, by code point.
pub open spec fn lex_le(a: Seq<char>, b: Seq<char>) -> bool
    decreases a.len(),
{
    if a.len() == 0 {
        true
    } else if b.len() == 0 {
        false
    } else if a[0] < b[0] {
        true
    } else if b[0] < a[0] {
        false
    } else {
        lex_le(a.drop_first(), b.drop_first())
    }
}

/// Strict lexicographic order.
pub open spec fn lex_lt(a: Seq<char>, b: Seq<char>) -> bool {
    lex_le(a, b) && a != b
}

/// The lexicographic order is total.
pub proof fn lemma_lex_total(a: Seq<char>, b: Seq<char>)
    ensures
        lex_le(a, b) || lex_le(b, a),
    decreases a.len(),
{
    if a.len() != 0 && b.len() != 0 && a[0] == b[0] {
        lemma_lex_total(a.drop_first(), b.drop_first());
    }
}

/// The lexicographic order is antisymmetric.
pub proof fn lemma_lex_antisym(a: Seq<char>, b: Seq<char>)
    requires
        lex_le(a, b),
        lex_le(b, a),
    ensures
        a == b,
    decreases a.len(),
{
    if a.len() == 0 {
        assert(b.len() == 0);
        assert(a =~= b);
    } else {
        assert(b.len() != 0);
        assert(a[0] == b[0]);
        lemma_lex_antisym(a.drop_first(), b.drop_first());
        assert(a =~= b) by {
            assert(forall|i: int| 1 <= i < a.len() ==> #[trigger] a[i] == a.drop_first()[i - 1]);
            assert(forall|i: int| 1 <= i < b.len() ==> #[trigger] b[i] == b.drop_first()[i - 1]);
        }
    }
}

/// The lexicographic order is transitive.
pub proof fn lemma_lex_trans(a: Seq<char>, b: Seq<char>, c: Seq<char>)
    requires
        lex_le(a, b),
        lex_le(b, c),
    ensures
        lex_le(a, c),
    decreases a.len(),
{
    if a.len() != 0 && b.len() != 0 && c.len() != 0 && a[0] == b[0] && b[0] == c[0] {
        lemma_lex_trans(a.drop_first(), b.drop_first(), c.drop_first());
    }
}

/// A common prefix does not decide the order.
proof fn lemma_lex_skip(a: Seq<char>, b: Seq<char>, i: int)
    requires
        0 <= i <= a.len(),
        i <= b.len(),
        forall|j: int| 0 <= j < i ==> a[j] == b[j],
    ensures
        lex_le(a, b) == lex_le(a.skip(i), b.skip(i)),
    decreases i,
{
    if i == 0 {
        assert(a.skip(0) =~= a);
        assert(b.skip(0) =~= b);
    } else {
        assert(a[0] == b[0]);
        lemma_lex_skip(a.drop_first(), b.drop_first(), i - 1);
        assert(a.drop_first().skip(i - 1) =~= a.skip(i));
        assert(b.drop_first().skip(i - 1) =~= b.skip(i));
    }
}

/// Lexicographic comparison of two string slices.
pub fn str_le(a: &str, b: &str) -> (r: bool)
    ensures
        r == lex_le(a@, b@),
{
    let alen = a.unicode_len();
    let blen = b.unicode_len();
    let mut i: usize = 0;
    while i < alen && i < blen
        invariant
            alen == a@.len(),
            blen == b@.len(),
            i <= alen,
            i <= blen,
            forall|j: int| 0 <= j < i ==> a@[j] == b@[j],
        decreases alen - i,
    {
        let ca = a.get_char(i);
        let cb = b.get_char(i);
        if ca < cb {
            proof {
                lemma_lex_skip(a@, b@, i as int);
            }
            return true;
        }
        if cb < ca {
            proof {
                lemma_lex_skip(a@, b@, i as int);
            }
            return false;
        }
        i += 1;
    }
    proof {
        lemma_lex_skip(a@, b@, i as int);
    }
    alen <= blen
}

/// The views of the strings in `s` are strictly ascending.
pub open spec fn sorted_strict(s: Seq<String>) -> bool {
    forall|i: int, j: int| 0 <= i < j < s.len() ==> lex_lt(s[i]@, s[j]@)
}

/// Some string in `s` has view `t`.
pub open spec fn tag_in(s: Seq<String>, t: Seq<char>) -> bool {
    exists|i: int| 0 <= i < s.len() && s[i]@ == t
}

pub proof fn lemma_tag_in_push(s: Seq<String>, x: String)
    ensures
        forall|t: Seq<char>| #[trigger] tag_in(s.push(x), t) == (tag_in(s, t) || x@ == t),
{
    assert forall|t: Seq<char>| #[trigger] tag_in(s.push(x), t) == (tag_in(s, t) || x@ == t) by {
        if tag_in(s, t) {
            let i = choose|i: int| 0 <= i < s.len() && s[i]@ == t;
            assert(s.push(x)[i]@ == t);
            assert(tag_in(s.push(x), t));
        }
        if x@ == t {
            assert(s.push(x)[s.len() as int]@ == t);
            assert(tag_in(s.push(x), t));
        }
        if tag_in(s.push(x), t) {
            let i = choose|i: int| 0 <= i < s.push(x).len() && s.push(x)[i]@ == t;
            if i < s.len() {
                assert(s[i]@ == t);
                assert(tag_in(s, t));
            } else {
                assert(x@ == t);
            }
        }
    }
}

proof fn lemma_tag_in_remove(s: Seq<String>, i: int)
    requires
        0 <= i < s.len(),
    ensures
        forall|t: Seq<char>| tag_in(s, t) == (tag_in(s.remove(i), t) || s[i]@ == t),
{
    s.remove_ensures(i);
    assert forall|t: Seq<char>| tag_in(s, t) == (tag_in(s.remove(i), t) || s[i]@ == t) by {
        if tag_in(s, t) {
            let j = choose|j: int| 0 <= j < s.len() && s[j]@ == t;
            if j < i {
                assert(s.remove(i)[j]@ == t);
                assert(tag_in(s.remove(i), t));
            } else if j > i {
                assert(s.remove(i)[j - 1]@ == t);
                assert(tag_in(s.remove(i), t));
            } else {
                assert(s[i]@ == t);
            }
        }
        if tag_in(s.remove(i), t) {
            let j = choose|j: int| 0 <= j < s.remove(i).len() && s.remove(i)[j]@ == t;
            if j < i {
                assert(s[j]@ == t);
            } else {
                assert(s[j + 1]@ == t);
            }
            assert(tag_in(s, t));
        }
        if s[i]@ == t {
            assert(tag_in(s, t));
        }
    }
}

/// Sorts the strings ascending and removes duplicates; the set of string
/// views is kept exactly.
pub fn sort_dedup(tags: Vec<String>) -> (r: Vec<String>)
    ensures
        sorted_strict(r@),
        forall|t: Seq<char>| tag_in(r@, t) == tag_in(tags@, t),
{
    let ghost orig = tags@;
    let mut rest = tags;
    let mut out: Vec<String> = Vec::new();
    while rest.len() > 0
        invariant
            sorted_strict(out@),
            forall|t: Seq<char>| (tag_in(out@, t) || tag_in(rest@, t)) == tag_in(orig, t),
            forall|i: int, j: int|
                0 <= i < out@.len() && 0 <= j < rest@.len() ==> lex_le(out@[i]@, rest@[j]@),
        decreases rest.len(),
    {
        // find the index of a least remaining string
        let mut m: usize = 0;
        let mut k: usize = 1;
        proof {
            lemma_lex_total(rest@[0]@, rest@[0]@);
        }
        while k < rest.len()
            invariant
                rest@.len() > 0,
                m < rest@.len(),
                k <= rest@.len(),
                forall|j: int| 0 <= j < k ==> lex_le(rest@[m as int]@, rest@[j]@),
            decreases rest.len() - k,
        {
            if str_le(rest[k].as_str(), rest[m].as_str()) {
                assert forall|j: int| 0 <= j < k + 1 implies lex_le(rest@[k as int]@, rest@[j]@) by {
                    if j < k {
                        lemma_lex_trans(rest@[k as int]@, rest@[m as int]@, rest@[j]@);
                    } else {
                        lemma_lex_total(rest@[k as int]@, rest@[k as int]@);
                    }
                }
                m = k;
            } else {
                proof {
                    lemma_lex_total(rest@[k as int]@, rest@[m as int]@);
                }
            }
            k += 1;
        }
        let ghost rest_before = rest@;
        let x = rest.remove(m);
        proof {
            lemma_tag_in_remove(rest_before, m as int);
            rest_before.remove_ensures(m as int);
        }
        let push_it = if out.len() == 0 {
            true
        } else {
            !str_eq(out[out.len() - 1].as_str(), x.as_str())
        };
        if push_it {
            let ghost out_before = out@;
            proof {
                lemma_tag_in_push(out@, x);
                assert forall|i: int, j: int|
                    0 <= i < j < out_before.push(x).len() implies lex_lt(
                    out_before.push(x)[i]@,
                    out_before.push(x)[j]@,
                ) by {
                    if j < out_before.len() {
                        assert(lex_lt(out_before[i]@, out_before[j]@));
                    } else {
                        // j points at x; i points into the old prefix
                        let last = out_before.len() - 1;
                        if i < last {
                            assert(lex_lt(out_before[i]@, out_before[last]@));
                            lemma_lex_trans(out_before[i]@, out_before[last]@, x@);
                            if out_before[i]@ == x@ {
                                lemma_lex_antisym(out_before[i]@, out_before[last]@);
                            }
                        }
                    }
                }
            }
            out.push(x);
        } else {
            proof {
                assert(out@[out@.len() - 1]@ == x@);
                assert(tag_in(out@, x@));
            }
        }
    }
    out
}

}
