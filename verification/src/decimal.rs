//! Parsing decimal numerals into exact rationals.
//!
//! A numeral is an optional leading `-`, then digits with at most one
//! decimal point and at least one digit (`120`, `-3.5`, `.25`, `7.`).
//! Its value is held exactly: the digits with the point removed become the
//! numerator, a power of ten the denominator.

use vstd::prelude::*;
use vstd::string::StrSliceExecFns;
use crate::rational::{Q, Rat, in_i128};

verus! {

/// The value of a decimal digit, or -1 for any other character.
pub open spec fn digit_val(c: char) -> int {
    match c {
        '0' => 0,
        '1' => 1,
        '2' => 2,
        '3' => 3,
        '4' => 4,
        '5' => 5,
        '6' => 6,
        '7' => 7,
        '8' => 8,
        '9' => 9,
        _ => -1,
    }
}

/// Whether a character is a decimal digit.
pub open spec fn is_digit(c: char) -> bool {
    digit_val(c) >= 0
}

/// Whether every character of `s` is a decimal digit.
pub open spec fn all_digits(s: Seq<char>) -> bool {
    forall|i: int| 0 <= i < s.len() ==> is_digit(#[trigger] s[i])
}

/// The value of a digit string, most significant digit first.
pub open spec fn digits_val(s: Seq<char>) -> int
    decreases s.len(),
{
    if s.len() == 0 {
        0
    } else {
        digits_val(s.drop_last()) * 10 + digit_val(s.last())
    }
}

/// Ten to the `k`.
pub open spec fn pow10(k: nat) -> int
    decreases k,
{
    if k == 0 {
        1
    } else {
        10 * pow10((k - 1) as nat)
    }
}

/// The index of the first `.` in `s`, or `s.len()` if there is none.
pub open spec fn find_dot(s: Seq<char>) -> int
    decreases s.len(),
{
    if s.len() == 0 {
        0
    } else if s[0] == '.' {
        0
    } else {
        1 + find_dot(s.skip(1))
    }
}

/// Whether the numeral starts with a minus sign.
pub open spec fn has_sign(s: Seq<char>) -> bool {
    s.len() > 0 && s[0] == '-'
}

/// The digits of the numeral's whole part.
pub open spec fn int_part(body: Seq<char>) -> Seq<char> {
    body.take(find_dot(body))
}

/// The digits of the numeral's fractional part.
pub open spec fn frac_part(body: Seq<char>) -> Seq<char> {
    if find_dot(body) == body.len() {
        Seq::empty()
    } else {
        body.skip(find_dot(body) + 1)
    }
}

/// The exact rational a numeral denotes, when it is well formed and its
/// parts fit in this library's integer range.
pub open spec fn decimal_q(s: Seq<char>) -> Option<Q> {
    let body = if has_sign(s) { s.skip(1) } else { s };
    let digits = int_part(body) + frac_part(body);
    let den = pow10(frac_part(body).len());
    if all_digits(int_part(body)) && all_digits(frac_part(body)) && digits.len() > 0 && in_i128(
        digits_val(digits),
    ) && in_i128(den) {
        Some(Q { n: if has_sign(s) { -digits_val(digits) } else { digits_val(digits) }, d: den })
    } else {
        None
    }
}

/// Scanning one more fractional digit extends the digit string by one.
proof fn lemma_extend_frac(body: Seq<char>, dotp: int, k: int)
    requires
        0 <= dotp < k < body.len(),
    ensures
        (body.take(dotp) + body.subrange(dotp + 1, k + 1)).len() > 0,
        (body.take(dotp) + body.subrange(dotp + 1, k + 1)).drop_last() == body.take(dotp)
            + body.subrange(dotp + 1, k),
        (body.take(dotp) + body.subrange(dotp + 1, k + 1)).last() == body[k],
{
    assert((body.take(dotp) + body.subrange(dotp + 1, k + 1)).drop_last() =~= body.take(dotp)
        + body.subrange(dotp + 1, k));
}

/// Scanning one more whole-part digit extends the digit string by one.
proof fn lemma_extend_int(body: Seq<char>, k: int)
    requires
        0 <= k < body.len(),
    ensures
        body.take(k + 1).len() > 0,
        body.take(k + 1).drop_last() == body.take(k),
        body.take(k + 1).last() == body[k],
{
    assert(body.take(k + 1).drop_last() =~= body.take(k));
}

/// The value of a decimal digit, executable form.
fn digit_of(c: char) -> (r: i128)
    ensures
        r == digit_val(c),
{
    match c {
        '0' => 0,
        '1' => 1,
        '2' => 2,
        '3' => 3,
        '4' => 4,
        '5' => 5,
        '6' => 6,
        '7' => 7,
        '8' => 8,
        '9' => 9,
        _ => -1,
    }
}

/// A digit string's value is never negative.
proof fn lemma_digits_val_nonneg(s: Seq<char>)
    requires
        all_digits(s),
    ensures
        digits_val(s) >= 0,
    decreases s.len(),
{
    if s.len() > 0 {
        assert(all_digits(s.drop_last()));
        lemma_digits_val_nonneg(s.drop_last());
    }
}

/// Dropping trailing digits can only lower a digit string's value.
proof fn lemma_digits_val_take_le(s: Seq<char>, k: int)
    requires
        all_digits(s),
        0 <= k <= s.len(),
    ensures
        digits_val(s.take(k)) <= digits_val(s),
    decreases s.len() - k,
{
    if k == s.len() {
        assert(s.take(k) =~= s);
    } else {
        assert(s.take(k + 1).drop_last() =~= s.take(k));
        assert(all_digits(s.take(k)));
        lemma_digits_val_nonneg(s.take(k));
        assert(digits_val(s.take(k + 1)) == digits_val(s.take(k)) * 10 + digit_val(s[k]));
        lemma_digits_val_take_le(s, k + 1);
    }
}

/// Powers of ten are positive.
proof fn lemma_pow10_pos(k: nat)
    ensures
        pow10(k) >= 1,
    decreases k,
{
    if k > 0 {
        lemma_pow10_pos((k - 1) as nat);
    }
}

/// Powers of ten grow with the exponent.
proof fn lemma_pow10_le(k1: nat, k2: nat)
    requires
        k1 <= k2,
    ensures
        pow10(k1) <= pow10(k2),
    decreases k2,
{
    if k1 < k2 {
        lemma_pow10_le(k1, (k2 - 1) as nat);
        lemma_pow10_pos((k2 - 1) as nat);
    }
}

/// Where the first dot of `s` is: nothing before it is a dot, and either it
/// is a dot or there is none at all.
proof fn lemma_find_dot(s: Seq<char>)
    ensures
        0 <= find_dot(s) <= s.len(),
        forall|j: int| 0 <= j < find_dot(s) ==> s[j] != '.',
        find_dot(s) < s.len() ==> s[find_dot(s)] == '.',
    decreases s.len(),
{
    if s.len() > 0 && s[0] != '.' {
        lemma_find_dot(s.skip(1));
        assert(forall|j: int| 0 <= j < find_dot(s.skip(1)) ==> s.skip(1)[j] != '.');
        assert forall|j: int| 0 <= j < find_dot(s) implies s[j] != '.' by {
            if j > 0 {
                assert(s.skip(1)[j - 1] != '.');
            }
        }
    }
}

/// A dot at `k` with none before it is the first dot.
proof fn lemma_find_dot_at(s: Seq<char>, k: int)
    requires
        0 <= k < s.len(),
        s[k] == '.',
        forall|j: int| 0 <= j < k ==> s[j] != '.',
    ensures
        find_dot(s) == k,
{
    lemma_find_dot(s);
    if find_dot(s) < k {
        assert(s[find_dot(s)] == '.');
    }
}

/// No dot anywhere means the first dot sits at the end.
proof fn lemma_find_dot_none(s: Seq<char>)
    requires
        forall|j: int| 0 <= j < s.len() ==> s[j] != '.',
    ensures
        find_dot(s) == s.len(),
{
    lemma_find_dot(s);
    if find_dot(s) < s.len() {
        assert(s[find_dot(s)] == '.');
    }
}

impl Rat {
    /// Parses a decimal numeral — an optional `-`, digits, at most one
    /// `.`, at least one digit — into the exact rational it denotes.
    /// `None` exactly when the numeral is malformed or a part does not
    /// fit in this library's integer range.
    pub fn from_decimal_str(s: &str) -> (r: Option<Rat>)
        ensures
            r is Some <==> decimal_q(s@) is Some,
            r matches Some(q) ==> q.wf() && Some(q@) == decimal_q(s@),
    {
        let n = s.unicode_len();
        let neg = n > 0 && s.get_char(0) == '-';
        let start: usize = if neg { 1 } else { 0 };
        let ghost body = if has_sign(s@) { s@.skip(1) } else { s@ };
        proof {
            assert(neg == has_sign(s@));
            assert(body.len() == n - start);
            assert(forall|j: int| 0 <= j < body.len() ==> body[j] == s@[j + start]);
        }
        let mut i: usize = start;
        let mut mag: i128 = 0;
        let mut den: i128 = 1;
        let mut seen_dot = false;
        while i < n
            invariant
                n == s@.len(),
                start <= i <= n,
                start == if has_sign(s@) { 1int } else { 0int },
                body == (if has_sign(s@) { s@.skip(1) } else { s@ }),
                body.len() == n - start,
                forall|j: int| 0 <= j < body.len() ==> body[j] == s@[j + start],
                mag >= 0,
                !seen_dot ==> {
                    &&& forall|j: int| 0 <= j < i - start ==> body[j] != '.'
                    &&& all_digits(body.take(i - start))
                    &&& mag == digits_val(body.take(i - start))
                    &&& den == 1
                },
                seen_dot ==> {
                    &&& find_dot(body) < i - start
                    &&& body[find_dot(body)] == '.'
                    &&& all_digits(body.take(find_dot(body)))
                    &&& all_digits(body.subrange(find_dot(body) + 1, i - start))
                    &&& mag == digits_val(
                        body.take(find_dot(body)) + body.subrange(find_dot(body) + 1, i - start),
                    )
                    &&& den == pow10((i - start - find_dot(body) - 1) as nat)
                },
            decreases n - i,
        {
            let c = s.get_char(i);
            proof {
                assert(body[i - start] == c);
            }
            if c == '.' {
                if seen_dot {
                    // A second dot stands inside the fractional part, which
                    // therefore is not all digits.
                    proof {
                        let dotp = find_dot(body);
                        lemma_find_dot(body);
                        assert(frac_part(body) == body.skip(dotp + 1));
                        assert(frac_part(body)[i - start - dotp - 1] == '.');
                        assert(!all_digits(frac_part(body)));
                    }
                    return None;
                }
                seen_dot = true;
                proof {
                    lemma_find_dot_at(body, i - start);
                    assert(body.subrange(find_dot(body) + 1, i + 1 - start) =~= Seq::<
                        char,
                    >::empty());
                    assert(body.take(find_dot(body)) + body.subrange(
                        find_dot(body) + 1,
                        i + 1 - start,
                    ) =~= body.take(i - start));
                }
            } else {
                let d = digit_of(c);
                if d < 0 {
                    // A non-digit stands in the whole or fractional part.
                    proof {
                        let dotp = find_dot(body);
                        lemma_find_dot(body);
                        if seen_dot {
                            assert(frac_part(body) == body.skip(dotp + 1));
                            assert(frac_part(body)[i - start - dotp - 1] == c);
                            assert(!all_digits(frac_part(body)));
                        } else {
                            // No dot so far and this is not one either, so
                            // this position lies in the whole part.
                            assert(forall|j: int| 0 <= j <= i - start ==> body[j] != '.');
                            lemma_find_dot(body);
                            assert(find_dot(body) > i - start) by {
                                if find_dot(body) <= i - start {
                                    assert(body[find_dot(body)] == '.');
                                }
                            }
                            assert(int_part(body)[i - start] == c);
                            assert(!all_digits(int_part(body)));
                        }
                    }
                    return None;
                }
                let ghost processed = if seen_dot {
                    body.take(find_dot(body)) + body.subrange(find_dot(body) + 1, i - start)
                } else {
                    body.take(i - start)
                };
                let mag10 = match mag.checked_mul(10) {
                    Some(x) => x,
                    None => {
                        proof {
                            lemma_overflow_means_none(s@, body, processed, i - start, seen_dot, mag
                                as int, d as int, true);
                        }
                        return None;
                    },
                };
                let new_mag = match mag10.checked_add(d) {
                    Some(x) => x,
                    None => {
                        proof {
                            lemma_overflow_means_none(s@, body, processed, i - start, seen_dot, mag
                                as int, d as int, false);
                        }
                        return None;
                    },
                };
                mag = new_mag;
                if seen_dot {
                    den = match den.checked_mul(10) {
                        Some(x) => x,
                        None => {
                            proof {
                                lemma_pow10_pos((i - start - find_dot(body) - 1) as nat);
                                lemma_den_overflow_means_none(s@, body, i - start, den as int);
                            }
                            return None;
                        },
                    };
                }
                proof {
                    let k: int = i - start;
                    if seen_dot {
                        lemma_find_dot(body);
                        lemma_extend_frac(body, find_dot(body), k);
                    } else {
                        lemma_extend_int(body, k);
                        assert(forall|j: int| 0 <= j < k + 1 ==> body[j] != '.');
                    }
                }
            }
            i += 1;
        }
        // The whole numeral is scanned; assemble the parts.
        proof {
            let dotp = find_dot(body);
            lemma_find_dot(body);
            if seen_dot {
                assert(int_part(body) == body.take(dotp));
                assert(frac_part(body) == body.skip(dotp + 1));
                assert(body.subrange(dotp + 1, n - start) =~= body.skip(dotp + 1));
            } else {
                lemma_find_dot_none(body);
                assert(int_part(body) =~= body.take(n - start));
                assert(frac_part(body) =~= Seq::<char>::empty());
                assert(int_part(body) + frac_part(body) =~= body.take(n - start));
            }
        }
        let digit_chars = (n - start) - (if seen_dot { 1 } else { 0 });
        if digit_chars == 0 {
            proof {
                assert((int_part(body) + frac_part(body)).len() == 0);
            }
            return None;
        }
        proof {
            lemma_pow10_pos(frac_part(body).len());
        }
        let num = if neg { -mag } else { mag };
        Some(Rat::from_parts(num, den))
    }
}

/// When the running magnitude can no longer grow by one digit inside
/// `i128`, the numeral's full digit string cannot fit either — or it is
/// malformed outright; in both cases the numeral denotes nothing.
proof fn lemma_overflow_means_none(
    s: Seq<char>,
    body: Seq<char>,
    processed: Seq<char>,
    k: int,
    seen_dot: bool,
    mag: int,
    d: int,
    mul_step: bool,
)
    requires
        body == (if has_sign(s) { s.skip(1) } else { s }),
        0 <= k < body.len(),
        is_digit(body[k]),
        d == digit_val(body[k]),
        seen_dot ==> {
            &&& find_dot(body) < k
            &&& all_digits(body.take(find_dot(body)))
            &&& all_digits(body.subrange(find_dot(body) + 1, k))
            &&& processed == body.take(find_dot(body)) + body.subrange(find_dot(body) + 1, k)
        },
        !seen_dot ==> {
            &&& forall|j: int| 0 <= j < k ==> body[j] != '.'
            &&& all_digits(body.take(k))
            &&& processed == body.take(k)
        },
        mag == digits_val(processed),
        mag >= 0,
        mul_step ==> mag * 10 > i128::MAX as int,
        !mul_step ==> mag * 10 + d > i128::MAX as int,
    ensures
        decimal_q(s) is None,
{
    lemma_find_dot(body);
    if all_digits(int_part(body)) && all_digits(frac_part(body)) {
        let digits = int_part(body) + frac_part(body);
        let dotp = find_dot(body);
        // `processed` extended by this digit is a prefix of the full digit
        // string.
        let ext = processed.push(body[k]);
        let plen = processed.len() + 1;
        if seen_dot {
            assert(ext =~= digits.take(plen as int)) by {
                assert(frac_part(body) == body.skip(dotp + 1));
                assert(digits.take(plen as int) =~= body.take(dotp) + body.subrange(
                    dotp + 1,
                    k + 1,
                ));
                assert(body.subrange(dotp + 1, k + 1) =~= body.subrange(dotp + 1, k).push(body[k]));
            }
        } else {
            assert(k < dotp) by {
                if dotp <= k {
                    if dotp < body.len() {
                        assert(body[dotp] == '.');
                    }
                }
            }
            assert(ext =~= digits.take(plen as int)) by {
                assert(int_part(body).take(k + 1) =~= body.take(k).push(body[k]));
                assert(digits.take(plen as int) =~= int_part(body).take(k + 1));
            }
        }
        assert(all_digits(digits));
        assert(all_digits(ext)) by {
            assert(forall|j: int| 0 <= j < plen ==> #[trigger] ext[j] == digits.take(plen as int)[j]);
        }
        assert(ext.drop_last() =~= processed);
        assert(digits_val(ext) == mag * 10 + d);
        lemma_digits_val_take_le(digits, plen as int);
        assert(digits_val(digits) >= mag * 10 + d);
        if mul_step {
            assert(mag * 10 + d >= mag * 10);
        }
        assert(!in_i128(digits_val(digits)));
    }
}

/// When the running denominator can no longer take another fractional
/// digit inside `i128`, the numeral's full denominator cannot fit either.
proof fn lemma_den_overflow_means_none(s: Seq<char>, body: Seq<char>, k: int, den: int)
    requires
        body == (if has_sign(s) { s.skip(1) } else { s }),
        0 <= k < body.len(),
        find_dot(body) < k,
        den == pow10((k - find_dot(body) - 1) as nat),
        den * 10 > i128::MAX as int,
    ensures
        decimal_q(s) is None,
{
    lemma_find_dot(body);
    let dotp = find_dot(body);
    assert(frac_part(body) == body.skip(dotp + 1));
    let flen = frac_part(body).len();
    assert(flen == body.len() - dotp - 1);
    assert(flen >= k - dotp);
    assert(pow10((k - dotp) as nat) == 10 * pow10((k - dotp - 1) as nat));
    lemma_pow10_le((k - dotp) as nat, flen);
    assert(pow10(flen) >= den * 10);
    assert(!in_i128(pow10(flen)));
}

} // verus!
