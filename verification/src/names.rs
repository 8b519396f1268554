//! Display names, the hidden-entry rule, and lexicographic ordering of
//! the listed paths.

use vstd::prelude::*;
use vstd::seq_lib::{to_multiset_insert, to_multiset_remove};

verus! {

/// `p` with every trailing `/` removed.
pub open spec fn strip_trailing_slashes(p: Seq<char>) -> Seq<char>
    decreases p.len(),
{
    if p.len() > 0 && p[p.len() - 1] == '/' {
        strip_trailing_slashes(p.drop_last())
    } else {
        p
    }
}

/// The suffix of `p` after its last `/`; the whole of `p` when it holds
/// no `/` at all.
pub open spec fn after_last_slash(p: Seq<char>) -> Seq<char>
    decreases p.len(),
{
    if p.len() == 0 {
        Seq::empty()
    } else if p[p.len() - 1] == '/' {
        Seq::empty()
    } else {
        after_last_slash(p.drop_last()).push(p[p.len() - 1])
    }
}

/// Whether `s` is the literal current-directory marker `.`.
pub open spec fn is_dot(s: Seq<char>) -> bool {
    s.len() == 1 && s[0] == '.'
}

/// Whether `s` is the literal parent-directory marker `..`.
pub open spec fn is_dot_dot(s: Seq<char>) -> bool {
    s.len() == 2 && s[0] == '.' && s[1] == '.'
}

/// The display name of a listed path: the literal `.` or `..` stays
/// itself; otherwise the final path component (ignoring trailing
/// separators).  A path without a usable final component — empty, all
/// separators, or ending in a `.` or `..` component — displays as the
/// empty name.
pub open spec fn display_name_spec(p: Seq<char>) -> Seq<char> {
    if is_dot(p) || is_dot_dot(p) {
        p
    } else {
        let comp = after_last_slash(strip_trailing_slashes(p));
        if comp.len() == 0 || is_dot(comp) || is_dot_dot(comp) {
            Seq::empty()
        } else {
            comp
        }
    }
}

/// The hidden-entry rule: a name is hidden when it starts with `.` and is
/// not one of the literal markers `.` and `..`.
pub open spec fn is_hidden_name(name: Seq<char>) -> bool {
    &&& name.len() > 0
    &&& name[0] == '.'
    &&& !is_dot(name)
    &&& !is_dot_dot(name)
}

/// An index `end` that marks where the trailing slashes of `p` begin
/// pins down `strip_trailing_slashes(p)` as the prefix before it.
proof fn lemma_strip_trailing_at(p: Seq<char>, end: int)
    requires
        0 <= end <= p.len(),
        forall|j: int| end <= j < p.len() ==> p[j] == '/',
        end > 0 ==> p[end - 1] != '/',
    ensures
        strip_trailing_slashes(p) == p.subrange(0, end),
    decreases p.len(),
{
    if p.len() == 0 {
        assert(strip_trailing_slashes(p) =~= p.subrange(0, end));
    } else if p[p.len() - 1] == '/' {
        assert(end < p.len());
        lemma_strip_trailing_at(p.drop_last(), end);
        assert(p.drop_last().subrange(0, end) =~= p.subrange(0, end));
    } else {
        assert(end == p.len());
        assert(strip_trailing_slashes(p) =~= p.subrange(0, end));
    }
}

/// An index `start` that marks where the final slash-free run of `p`
/// begins pins down `after_last_slash(p)` as the suffix from it.
proof fn lemma_after_last_slash_at(p: Seq<char>, start: int)
    requires
        0 <= start <= p.len(),
        forall|j: int| start <= j < p.len() ==> p[j] != '/',
        start > 0 ==> p[start - 1] == '/',
    ensures
        after_last_slash(p) == p.subrange(start, p.len() as int),
    decreases p.len(),
{
    if p.len() == 0 {
        assert(after_last_slash(p) =~= p.subrange(start, p.len() as int));
    } else if p[p.len() - 1] == '/' {
        assert(start == p.len());
        assert(after_last_slash(p) =~= p.subrange(start, p.len() as int));
    } else if start == p.len() {
        assert(p[p.len() - 1] != '/');
        assert(start > 0 && p[start - 1] == '/');
        assert(false);
    } else {
        lemma_after_last_slash_at(p.drop_last(), start);
        assert(after_last_slash(p) =~= p.subrange(start, p.len() as int));
    }
}

/// Computes the display name of a listed path.
pub fn display_name(path: &str) -> (r: String)
    ensures
        r@ == display_name_spec(path@),
{
    let n = path.unicode_len();
    if n == 1 && path.get_char(0) == '.' {
        return String::from_str(path);
    }
    if n == 2 && path.get_char(0) == '.' && path.get_char(1) == '.' {
        return String::from_str(path);
    }
    let mut end: usize = n;
    while end > 0 && path.get_char(end - 1) == '/'
        invariant
            end <= n,
            n == path@.len(),
            forall|j: int| end <= j < n ==> path@[j] == '/',
        decreases end,
    {
        end = end - 1;
    }
    let ghost stripped = strip_trailing_slashes(path@);
    proof {
        lemma_strip_trailing_at(path@, end as int);
    }
    let mut start: usize = end;
    while start > 0 && path.get_char(start - 1) != '/'
        invariant
            start <= end <= n,
            n == path@.len(),
            forall|j: int| start <= j < end ==> path@[j] != '/',
        decreases start,
    {
        start = start - 1;
    }
    proof {
        lemma_after_last_slash_at(stripped, start as int);
        assert(stripped.subrange(start as int, stripped.len() as int) =~= path@.subrange(
            start as int,
            end as int,
        ));
    }
    let comp = path.substring_char(start, end);
    let clen = end - start;
    proof {
        assert(comp@.len() == clen);
    }
    if clen == 0 {
        return String::new();
    }
    if comp.get_char(0) == '.' && (clen == 1 || (clen == 2 && comp.get_char(1) == '.')) {
        return String::new();
    }
    String::from_str(comp)
}

/// Whether this display name is filtered out without `-a`.
pub fn is_hidden(name: &str) -> (r: bool)
    ensures
        r == is_hidden_name(name@),
{
    let n = name.unicode_len();
    if n == 0 {
        return false;
    }
    if name.get_char(0) != '.' {
        return false;
    }
    if n == 1 {
        return false;
    }
    if n == 2 && name.get_char(1) == '.' {
        return false;
    }
    true
}

/// Strict lexicographic order on character sequences, by code point.
pub open spec fn lex_lt(a: Seq<char>, b: Seq<char>) -> bool
    decreases a.len(),
{
    if b.len() == 0 {
        false
    } else if a.len() == 0 {
        true
    } else if a[0] < b[0] {
        true
    } else if a[0] == b[0] {
        lex_lt(a.drop_first(), b.drop_first())
    } else {
        false
    }
}

/// Lexicographic order, allowing equality.
pub open spec fn lex_le(a: Seq<char>, b: Seq<char>) -> bool {
    lex_lt(a, b) || a == b
}

/// Any two character sequences are ordered one way or the other.
pub proof fn lemma_lex_total(a: Seq<char>, b: Seq<char>)
    ensures
        lex_le(a, b) || lex_le(b, a),
    decreases a.len(),
{
    if a.len() == 0 || b.len() == 0 {
        if a.len() == 0 && b.len() == 0 {
            assert(a =~= b);
        }
    } else if a[0] < b[0] || b[0] < a[0] {
    } else {
        assert(a[0] == b[0]);
        lemma_lex_total(a.drop_first(), b.drop_first());
        if a.drop_first() == b.drop_first() {
            assert(a.drop_first() == a.subrange(1, a.len() as int));
            assert(b.drop_first() == b.subrange(1, b.len() as int));
            assert forall|k: int| 0 <= k < a.len() implies a[k] == b[k] by {
                if k > 0 {
                    assert(a.subrange(1, a.len() as int)[k - 1] == a[k]);
                    assert(b.subrange(1, b.len() as int)[k - 1] == b[k]);
                }
            }
            assert(a =~= b);
        }
    }
}

/// Strict lexicographic order is transitive.
proof fn lemma_lex_lt_trans(a: Seq<char>, b: Seq<char>, c: Seq<char>)
    requires
        lex_lt(a, b),
        lex_lt(b, c),
    ensures
        lex_lt(a, c),
    decreases a.len(),
{
    if a.len() == 0 {
    } else {
        assert(b.len() > 0 && c.len() > 0);
        if a[0] == b[0] && b[0] == c[0] {
            lemma_lex_lt_trans(a.drop_first(), b.drop_first(), c.drop_first());
        }
    }
}

/// Lexicographic order is transitive.
pub proof fn lemma_lex_trans(a: Seq<char>, b: Seq<char>, c: Seq<char>)
    requires
        lex_le(a, b),
        lex_le(b, c),
    ensures
        lex_le(a, c),
{
    if lex_lt(a, b) && lex_lt(b, c) {
        lemma_lex_lt_trans(a, b, c);
    }
}

/// A shared proper prefix does not decide the order: it is decided by
/// what follows.
proof fn lemma_lex_lt_skip(a: Seq<char>, b: Seq<char>, i: int)
    requires
        0 <= i <= a.len(),
        i <= b.len(),
        forall|j: int| 0 <= j < i ==> a[j] == b[j],
    ensures
        lex_lt(a, b) == lex_lt(a.skip(i), b.skip(i)),
    decreases i,
{
    if i > 0 {
        assert(a.len() > 0 && b.len() > 0 && a[0] == b[0]);
        assert(lex_lt(a, b) == lex_lt(a.drop_first(), b.drop_first()));
        lemma_lex_lt_skip(a.drop_first(), b.drop_first(), i - 1);
        assert(a.drop_first().skip(i - 1) =~= a.skip(i));
        assert(b.drop_first().skip(i - 1) =~= b.skip(i));
    } else {
        assert(a.skip(0) =~= a);
        assert(b.skip(0) =~= b);
    }
}

/// Decides `lex_le` on two strings.
pub fn str_lex_le(a: &str, b: &str) -> (r: bool)
    ensures
        r == lex_le(a@, b@),
{
    let alen = a.unicode_len();
    let blen = b.unicode_len();
    let mut i: usize = 0;
    loop
        invariant
            i <= alen,
            i <= blen,
            alen == a@.len(),
            blen == b@.len(),
            forall|j: int| 0 <= j < i ==> a@[j] == b@[j],
        decreases alen - i,
    {
        if i == alen {
            proof {
                lemma_lex_lt_skip(a@, b@, i as int);
                if i == blen {
                    assert(a@ =~= b@);
                } else {
                    assert(lex_lt(a@.skip(i as int), b@.skip(i as int)));
                }
            }
            return true;
        }
        if i == blen {
            proof {
                lemma_lex_lt_skip(a@, b@, i as int);
                assert(!lex_lt(a@.skip(i as int), b@.skip(i as int)));
                assert(a@.len() != b@.len());
                assert(a@ != b@);
            }
            return false;
        }
        let ca = a.get_char(i);
        let cb = b.get_char(i);
        if ca != cb {
            proof {
                lemma_lex_lt_skip(a@, b@, i as int);
                assert(a@.skip(i as int)[0] == ca && b@.skip(i as int)[0] == cb);
                assert(a@[i as int] != b@[i as int]);
                assert(a@ != b@);
            }
            return ca < cb;
        }
        i = i + 1;
    }
}

/// The listed order: every earlier name is lexicographically at most
/// every later one.
pub open spec fn names_sorted(s: Seq<String>) -> bool {
    forall|i: int, j: int| 0 <= i < j < s.len() ==> lex_le(s[i]@, s[j]@)
}

/// Sorts the names in place into lexicographic order, keeping exactly the
/// same collection of names.
pub fn sort_names(v: &mut Vec<String>)
    ensures
        names_sorted(final(v)@),
        final(v)@.to_multiset() == old(v)@.to_multiset(),
{
    if v.len() <= 1 {
        return;
    }
    let mut i: usize = 1;
    while i < v.len()
        invariant
            1 <= i <= v@.len(),
            v@.len() == old(v)@.len(),
            names_sorted(v@.subrange(0, i as int)),
            v@.to_multiset() == old(v)@.to_multiset(),
        decreases v@.len() - i,
    {
        let ghost before = v@;
        let x = v.remove(i);
        let mut j: usize = 0;
        while j < i && str_lex_le(v[j].as_str(), x.as_str())
            invariant
                j <= i < before.len(),
                v@ == before.remove(i as int),
                forall|k: int| 0 <= k < j ==> lex_le(v@[k]@, x@),
            decreases i - j,
        {
            j = j + 1;
        }
        let ghost rem = v@;
        proof {
            assert(forall|k: int| 0 <= k < i ==> rem[k] == before.subrange(0, i as int)[k]);
            assert forall|k: int| j <= k < i as int implies lex_le(x@, rem[k]@) by {
                lemma_lex_total(rem[j as int]@, x@);
                if k > j {
                    lemma_lex_trans(x@, rem[j as int]@, rem[k]@);
                }
            }
        }
        v.insert(j, x);
        proof {
            broadcast use vstd::seq_lib::group_to_multiset_ensures;

            to_multiset_remove(before, i as int);
            to_multiset_insert(rem, j as int, x);
            assert(before.contains(before[i as int]));
            assert(before.to_multiset().count(before[i as int]) > 0);
            assert(v@.to_multiset() =~= before.to_multiset());
            assert(forall|k: int| 0 <= k < j ==> v@[k] == rem[k]);
            assert(v@[j as int] == x);
            assert(forall|k: int| j < k <= i ==> v@[k] == rem[k - 1]);
            let prefix = v@.subrange(0, (i + 1) as int);
            assert forall|p: int, q: int| 0 <= p < q < prefix.len() implies lex_le(
                prefix[p]@,
                prefix[q]@,
            ) by {
                if q < j {
                    assert(lex_le(rem[p]@, rem[q]@));
                } else if q == j {
                    assert(lex_le(rem[p]@, x@));
                } else if p < j {
                    assert(lex_le(rem[p]@, rem[q - 1]@));
                } else if p == j {
                    assert(lex_le(x@, rem[q - 1]@));
                } else {
                    assert(lex_le(rem[p - 1]@, rem[q - 1]@));
                }
            }
            assert(names_sorted(v@.subrange(0, (i + 1) as int)));
        }
        i = i + 1;
    }
    proof {
        assert(v@.subrange(0, v@.len() as int) =~= v@);
        assert(names_sorted(v@));
    }
}

} // verus!
