//! Price input parsing: a decimal string such as `"4.99"` becomes an
//! integer number of minor currency units (cents) by multiplying by 100
//! and truncating any digits past the second fractional place. A
//! malformed or too-large input is a recoverable user error, never a
//! panic.

use vstd::prelude::*;

verus! {

/// A decimal digit character.
pub open spec fn is_digit(c: char) -> bool {
    48 <= c as int <= 57
}

/// The numeric value of a digit character.
pub open spec fn digit_val(c: char) -> int {
    c as int - 48
}

/// The number written by a string of digit characters, most significant
/// first; the empty string writes zero.
pub open spec fn digits_val(s: Seq<char>) -> int
    decreases s.len(),
{
    if s.len() == 0 {
        0
    } else {
        digits_val(s.drop_last()) * 10 + digit_val(s.last())
    }
}

/// `s` is a price written as digits with at most one decimal point at
/// position `k` (`k == s.len()` when there is none), and holds at least
/// one digit.
pub open spec fn price_shape(s: Seq<char>, k: int) -> bool {
    &&& 0 <= k <= s.len()
    &&& (k == s.len() || s[k] == '.')
    &&& (forall|i: int| 0 <= i < s.len() && i != k ==> is_digit(#[trigger] s[i]))
    &&& s.len() >= 1
    &&& (k != s.len() ==> s.len() >= 2)
}

/// `s` is a well-formed unsigned decimal price string.
pub open spec fn spec_is_price(s: Seq<char>) -> bool {
    exists|k: int| price_shape(s, k)
}

/// The integer part and the first two fractional digits of the price at
/// shape position `k`, in cents: the value of `s` multiplied by 100 and
/// truncated.
pub open spec fn price_cents_at(s: Seq<char>, k: int) -> int {
    digits_val(s.subrange(0, k)) * 100 + frac_cents(frac_part(s, k))
}

/// The fractional digits of the price at shape position `k`.
pub open spec fn frac_part(s: Seq<char>, k: int) -> Seq<char> {
    if k == s.len() {
        Seq::<char>::empty()
    } else {
        s.subrange(k + 1, s.len() as int)
    }
}

/// The cents contributed by the fractional digits: the first pays ten
/// cents a unit, the second one cent, the rest are truncated away.
pub open spec fn frac_cents(frac: Seq<char>) -> int {
    (if frac.len() >= 1 {
        digit_val(frac[0]) * 10
    } else {
        0
    }) + (if frac.len() >= 2 {
        digit_val(frac[1])
    } else {
        0
    })
}

/// The value in cents of a well-formed price string.
pub open spec fn spec_price_cents(s: Seq<char>) -> int {
    price_cents_at(s, choose|k: int| price_shape(s, k))
}

/// Law: the decimal point position of a well-formed price is unique, so
/// `spec_price_cents` is well defined.
pub proof fn lemma_price_shape_unique(s: Seq<char>, k1: int, k2: int)
    requires
        price_shape(s, k1),
        price_shape(s, k2),
    ensures
        k1 == k2,
{
    if k1 != k2 {
        if k1 < s.len() && k2 < s.len() {
            assert(is_digit(s[k1]));
        } else if k1 == s.len() {
            assert(is_digit(s[k2]));
        } else {
            assert(is_digit(s[k1]));
        }
    }
}

/// A digit string writes a non-negative number.
proof fn lemma_digits_val_nonneg(s: Seq<char>)
    requires
        forall|i: int| 0 <= i < s.len() ==> is_digit(#[trigger] s[i]),
    ensures
        digits_val(s) >= 0,
    decreases s.len(),
{
    if s.len() > 0 {
        lemma_digits_val_nonneg(s.drop_last());
    }
}

/// Extending a digit string on the right never shrinks its value.
proof fn lemma_digits_val_prefix_le(s: Seq<char>, i: int, j: int)
    requires
        forall|n: int| 0 <= n < s.len() ==> is_digit(#[trigger] s[n]),
        0 <= i <= j <= s.len(),
    ensures
        digits_val(s.subrange(0, i)) <= digits_val(s.subrange(0, j)),
    decreases j - i,
{
    if i < j {
        lemma_digits_val_prefix_le(s, i, j - 1);
        let p = s.subrange(0, j);
        assert(p.drop_last() =~= s.subrange(0, j - 1));
        assert(forall|n: int| 0 <= n < p.len() ==> is_digit(#[trigger] p[n]));
        lemma_digits_val_nonneg(p.drop_last());
        assert(digits_val(p) == digits_val(p.drop_last()) * 10 + digit_val(p.last()));
        assert(digits_val(p.drop_last()) * 10 >= digits_val(p.drop_last())) by (nonlinear_arith)
            requires
                digits_val(p.drop_last()) >= 0,
        ;
    }
}

/// The numeric value of one digit character.
fn digit_value(c: char) -> (v: u8)
    requires
        is_digit(c),
    ensures
        v as int == digit_val(c),
{
    if c == '0' {
        0
    } else if c == '1' {
        1
    } else if c == '2' {
        2
    } else if c == '3' {
        3
    } else if c == '4' {
        4
    } else if c == '5' {
        5
    } else if c == '6' {
        6
    } else if c == '7' {
        7
    } else if c == '8' {
        8
    } else {
        9
    }
}

/// Whether a character is a decimal digit.
fn is_digit_char(c: char) -> (r: bool)
    ensures
        r == is_digit(c),
{
    '0' <= c && c <= '9'
}

/// Parse a price string into cents: the integer part times 100 plus the
/// first two fractional digits. Returns `None` exactly on input that is
/// not a well-formed unsigned decimal, or whose value in cents does not
/// fit an `i64`.
pub fn parse_price(s: &Vec<char>) -> (r: Option<i64>)
    ensures
        r is Some <==> spec_is_price(s@) && spec_price_cents(s@) <= i64::MAX,
        r matches Some(v) ==> v as int == spec_price_cents(s@),
{
    // Find the decimal point and check every other character is a digit.
    let mut k: usize = s.len();
    let mut i: usize = 0;
    while i < s.len()
        invariant
            i <= s.len(),
            k == s.len() || (k < i && s@[k as int] == '.'),
            forall|j: int| 0 <= j < i && j != k ==> is_digit(#[trigger] s@[j]),
        decreases s.len() - i,
    {
        let c = s[i];
        if c == '.' {
            if k < s.len() {
                // A second decimal point: no position can satisfy the shape.
                proof {
                    let ki = k as int;
                    let ii = i as int;
                    assert forall|k2: int| !price_shape(s@, k2) by {
                        if price_shape(s@, k2) {
                            if k2 != ki {
                                assert(is_digit(s@[ki]));
                            } else {
                                assert(is_digit(s@[ii]));
                            }
                        }
                    }
                }
                return None;
            }
            k = i;
        } else if !is_digit_char(c) {
            proof {
                let ii = i as int;
                assert forall|k2: int| !price_shape(s@, k2) by {
                    if price_shape(s@, k2) {
                        if k2 != ii {
                            assert(is_digit(s@[ii]));
                        } else {
                            assert(s@[ii] == '.');
                        }
                    }
                }
            }
            return None;
        }
        i += 1;
    }
    if s.len() == 0 || (k < s.len() && s.len() < 2) {
        proof {
            assert(forall|k2: int| !price_shape(s@, k2));
        }
        return None;
    }
    proof {
        assert(price_shape(s@, k as int));
    }
    // The fractional digits that still count: at most the first two.
    let frac: i64 = if k < s.len() {
        let f1: i64 = if s.len() - k > 1 {
            digit_value(s[k + 1]) as i64
        } else {
            0
        };
        let f2: i64 = if s.len() - k > 2 {
            digit_value(s[k + 2]) as i64
        } else {
            0
        };
        f1 * 10 + f2
    } else {
        0
    };
    proof {
        assert(frac as int == frac_cents(frac_part(s@, k as int)));
    }
    // The integer part, refused as soon as the total can no longer fit.
    let thresh: i64 = (i64::MAX - frac) / 100;
    let mut acc: i64 = 0;
    let mut n: usize = 0;
    proof {
        assert(s@.subrange(0, 0) =~= Seq::<char>::empty());
    }
    while n < k
        invariant
            n <= k <= s@.len(),
            price_shape(s@, k as int),
            0 <= frac <= 99,
            frac as int == frac_cents(frac_part(s@, k as int)),
            thresh == (i64::MAX - frac) / 100,
            0 <= acc <= thresh,
            acc as int == digits_val(s@.subrange(0, n as int)),
        decreases k - n,
    {
        let d = digit_value(s[n]);
        proof {
            assert(thresh <= i64::MAX / 100) by (nonlinear_arith)
                requires
                    thresh == (i64::MAX - frac) / 100,
                    0 <= frac,
            ;
            assert(acc * 10 + 9 <= i64::MAX) by (nonlinear_arith)
                requires
                    0 <= acc <= i64::MAX / 100,
            ;
        }
        let next = acc * 10 + (d as i64);
        proof {
            let p = s@.subrange(0, n + 1);
            assert(p.drop_last() =~= s@.subrange(0, n as int));
            assert(next as int == digits_val(p));
        }
        if next > thresh {
            // Whatever digits follow, the total can only grow past the cap.
            proof {
                let ki = k as int;
                assert(forall|j: int|
                    0 <= j < s@.subrange(0, ki).len() ==> is_digit(
                        #[trigger] s@.subrange(0, ki)[j],
                    ));
                lemma_digits_val_prefix_le(s@.subrange(0, ki), n + 1, ki);
                assert(s@.subrange(0, ki).subrange(0, n + 1) =~= s@.subrange(0, n + 1));
                assert(s@.subrange(0, ki).subrange(0, ki) =~= s@.subrange(0, ki));
                let a = digits_val(s@.subrange(0, ki));
                assert(a >= next);
                assert(a * 100 + frac > i64::MAX) by (nonlinear_arith)
                    requires
                        a > (i64::MAX - frac) / 100,
                        0 <= frac <= 99,
                ;
                lemma_price_cents_is(s@, k as int);
            }
            return None;
        }
        acc = next;
        n += 1;
    }
    // acc * 100 + frac is the exact value and provably fits.
    proof {
        assert(acc * 100 + frac <= i64::MAX) by (nonlinear_arith)
            requires
                0 <= acc <= (i64::MAX - frac) / 100,
                0 <= frac <= 99,
        ;
        assert(acc * 100 >= 0) by (nonlinear_arith)
            requires
                0 <= acc,
        ;
        lemma_price_cents_is(s@, k as int);
    }
    Some(acc * 100 + frac)
}

/// With the shape position in hand, `spec_price_cents` is the value at
/// that position.
proof fn lemma_price_cents_is(s: Seq<char>, k: int)
    requires
        price_shape(s, k),
    ensures
        spec_is_price(s),
        spec_price_cents(s) == price_cents_at(s, k),
{
    let kc = choose|k2: int| price_shape(s, k2);
    lemma_price_shape_unique(s, k, kc);
}

} // verus!
