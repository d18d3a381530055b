//! Plain-text helpers for the query and the sort clauses: substring
//! containment for the live filter, and lexicographic (code-point) order
//! for date strings, which sorts `YYYY-MM-DD` dates chronologically.

use vstd::prelude::*;

verus! {

/// `needle` occurs in `hay` starting at position `i`.
pub open spec fn contains_at(hay: Seq<char>, needle: Seq<char>, i: int) -> bool {
    &&& 0 <= i
    &&& i + needle.len() <= hay.len()
    &&& hay.subrange(i, i + needle.len()) == needle
}

/// `needle` occurs somewhere in `hay`; the empty needle occurs everywhere.
pub open spec fn spec_contains(hay: Seq<char>, needle: Seq<char>) -> bool {
    exists|i: int| contains_at(hay, needle, i)
}

/// Whether `hay` matches `needle` exactly at position `start`.
fn matches_at(hay: &Vec<char>, needle: &Vec<char>, start: usize) -> (r: bool)
    requires
        start + needle.len() <= hay.len(),
    ensures
        r == contains_at(hay@, needle@, start as int),
{
    let mut k: usize = 0;
    while k < needle.len()
        invariant
            k <= needle.len(),
            start + needle.len() <= hay.len(),
            forall|j: int| 0 <= j < k ==> hay@[start + j] == needle@[j],
        decreases needle.len() - k,
    {
        if hay[start + k] != needle[k] {
            proof {
                let ki = k as int;
                assert(hay@.subrange(start as int, start + needle@.len())[ki] != needle@[ki]);
            }
            return false;
        }
        k += 1;
    }
    proof {
        assert(hay@.subrange(start as int, start + needle@.len()) =~= needle@);
    }
    true
}

/// Whether `needle` occurs anywhere in `hay`.
pub fn contains_sub(hay: &Vec<char>, needle: &Vec<char>) -> (r: bool)
    ensures
        r == spec_contains(hay@, needle@),
{
    if needle.len() == 0 {
        proof {
            assert(hay@.subrange(0, 0) =~= needle@);
            assert(contains_at(hay@, needle@, 0));
        }
        return true;
    }
    if needle.len() > hay.len() {
        return false;
    }
    let last_start = hay.len() - needle.len();
    let mut i: usize = 0;
    loop
        invariant
            i <= last_start + 1,
            1 <= needle@.len(),
            last_start + needle.len() == hay.len(),
            forall|j: int| 0 <= j < i ==> !contains_at(hay@, needle@, j),
        ensures
            i <= last_start ==> contains_at(hay@, needle@, i as int),
            i > last_start ==> (forall|j: int| 0 <= j <= last_start ==> !contains_at(
                hay@,
                needle@,
                j,
            )),
        decreases last_start + 1 - i,
    {
        if i > last_start {
            break ;
        }
        if matches_at(hay, needle, i) {
            break ;
        }
        i += 1;
    }
    if i <= last_start {
        true
    } else {
        false
    }
}

/// Lexicographic order on character sequences by code point, with a
/// proper prefix ordered first.
pub open spec fn lex_le(a: Seq<char>, b: Seq<char>) -> bool
    decreases a.len(),
{
    if a.len() == 0 {
        true
    } else if b.len() == 0 {
        false
    } else if (a[0] as int) < (b[0] as int) {
        true
    } else if (a[0] as int) > (b[0] as int) {
        false
    } else {
        lex_le(a.drop_first(), b.drop_first())
    }
}

/// Law: any two character sequences are lexicographically comparable.
pub proof fn lemma_lex_le_total(a: Seq<char>, b: Seq<char>)
    ensures
        lex_le(a, b) || lex_le(b, a),
    decreases a.len(),
{
    if a.len() > 0 && b.len() > 0 && a[0] == b[0] {
        lemma_lex_le_total(a.drop_first(), b.drop_first());
    }
}

/// Law: sequences each lexicographically at most the other are equal.
pub proof fn lemma_lex_le_antisym(a: Seq<char>, b: Seq<char>)
    requires
        lex_le(a, b),
        lex_le(b, a),
    ensures
        a == b,
    decreases a.len(),
{
    if a.len() == 0 {
        assert(b.len() == 0);
        assert(a =~= b);
    } else {
        assert(b.len() > 0);
        assert(a[0] == b[0]);
        lemma_lex_le_antisym(a.drop_first(), b.drop_first());
        assert(a =~= seq![a[0]] + a.drop_first());
        assert(b =~= seq![b[0]] + b.drop_first());
    }
}

/// Law: lexicographic order is transitive.
pub proof fn lemma_lex_le_trans(a: Seq<char>, b: Seq<char>, c: Seq<char>)
    requires
        lex_le(a, b),
        lex_le(b, c),
    ensures
        lex_le(a, c),
    decreases a.len(),
{
    if a.len() > 0 {
        assert(b.len() > 0);
        assert(c.len() > 0);
        if a[0] == b[0] && b[0] == c[0] {
            lemma_lex_le_trans(a.drop_first(), b.drop_first(), c.drop_first());
        }
    }
}

/// One step of the scan: equal heads leave the comparison unchanged.
proof fn lemma_lex_le_skip_step(a: Seq<char>, b: Seq<char>, i: int)
    requires
        0 <= i < a.len(),
        i < b.len(),
        a[i] == b[i],
    ensures
        lex_le(a.skip(i), b.skip(i)) == lex_le(a.skip(i + 1), b.skip(i + 1)),
{
    assert(a.skip(i).drop_first() =~= a.skip(i + 1));
    assert(b.skip(i).drop_first() =~= b.skip(i + 1));
    assert(a.skip(i)[0] == a[i]);
    assert(b.skip(i)[0] == b[i]);
}

/// Compare two character sequences in lexicographic (code-point) order.
pub fn lex_le_chars(a: &Vec<char>, b: &Vec<char>) -> (r: bool)
    ensures
        r == lex_le(a@, b@),
{
    let n = if a.len() <= b.len() {
        a.len()
    } else {
        b.len()
    };
    let mut i: usize = 0;
    proof {
        assert(a@.skip(0) =~= a@);
        assert(b@.skip(0) =~= b@);
    }
    loop
        invariant
            i <= n,
            n == if a@.len() <= b@.len() {
                a@.len()
            } else {
                b@.len()
            },
            lex_le(a@, b@) == lex_le(a@.skip(i as int), b@.skip(i as int)),
        ensures
            i <= n,
            n == if a@.len() <= b@.len() {
                a@.len()
            } else {
                b@.len()
            },
            lex_le(a@, b@) == lex_le(a@.skip(i as int), b@.skip(i as int)),
            i == n || a@[i as int] != b@[i as int],
        decreases n - i,
    {
        if i >= n {
            break ;
        }
        if a[i] != b[i] {
            break ;
        }
        proof {
            lemma_lex_le_skip_step(a@, b@, i as int);
        }
        i += 1;
    }
    if i < n {
        // A genuine mismatch inside both sequences decides the order.
        proof {
            let sa = a@.skip(i as int);
            let sb = b@.skip(i as int);
            assert(sa.len() > 0 && sb.len() > 0);
            assert(sa[0] == a@[i as int] && sb[0] == b@[i as int]);
            assert(lex_le(sa, sb) == ((sa[0] as int) < (sb[0] as int)));
        }
        let x: char = a[i];
        let y: char = b[i];
        x < y
    } else {
        // One sequence is a prefix of the other; the shorter comes first.
        proof {
            if a@.len() <= b@.len() {
                assert(a@.skip(i as int).len() == 0);
            } else {
                assert(b@.skip(i as int).len() == 0);
                assert(a@.skip(i as int).len() > 0);
            }
        }
        a.len() <= b.len()
    }
}

} // verus!
