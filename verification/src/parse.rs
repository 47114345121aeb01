//! Decimal integer literals: an optional sign followed by decimal digits.
//! `parse_i32_range` reads such a literal out of a character range of a
//! string and reports exactly when the range is a literal whose value fits
//! in an `i32`.

use vstd::prelude::*;
use vstd::string::StrSliceExecFns;

verus! {

/// `c` is a decimal digit.
pub open spec fn is_digit(c: char) -> bool {
    48 <= c as u32 <= 57
}

/// The value of one decimal digit.
pub open spec fn digit_val(c: char) -> int {
    c as u32 - 48
}

/// Every character of `s` is a decimal digit.
pub open spec fn all_digits(s: Seq<char>) -> bool {
    forall|i: int| 0 <= i < s.len() ==> is_digit(#[trigger] s[i])
}

/// The value of a string of digits, most significant digit first.
pub open spec fn digits_val(s: Seq<char>) -> int
    decreases s.len(),
{
    if s.len() == 0 {
        0
    } else {
        digits_val(s.drop_last()) * 10 + digit_val(s.last())
    }
}

/// `s` is a decimal integer literal: an optional single sign, then at
/// least one digit and nothing else.
pub open spec fn is_int_literal(s: Seq<char>) -> bool {
    if s.len() > 0 && (s[0] == '+' || s[0] == '-') {
        s.len() > 1 && all_digits(s.subrange(1, s.len() as int))
    } else {
        s.len() > 0 && all_digits(s)
    }
}

/// The integer a literal stands for.
pub open spec fn literal_val(s: Seq<char>) -> int {
    if s.len() > 0 && s[0] == '-' {
        -digits_val(s.subrange(1, s.len() as int))
    } else if s.len() > 0 && s[0] == '+' {
        digits_val(s.subrange(1, s.len() as int))
    } else {
        digits_val(s)
    }
}

/// `s` is a literal whose value fits in an `i32`.
pub open spec fn parses_to_i32(s: Seq<char>) -> bool {
    is_int_literal(s) && i32::MIN <= literal_val(s) <= i32::MAX
}

/// A string of digits has a nonnegative value.
proof fn lemma_digits_val_nonneg(s: Seq<char>)
    requires
        all_digits(s),
    ensures
        digits_val(s) >= 0,
    decreases s.len(),
{
    if s.len() > 0 {
        assert(all_digits(s.drop_last()));
        lemma_digits_val_nonneg(s.drop_last());
    }
}

/// Extending a string of digits to the right never shrinks its value.
proof fn lemma_digits_val_prefix(s: Seq<char>, m: int)
    requires
        all_digits(s),
        0 <= m <= s.len(),
    ensures
        digits_val(s.subrange(0, m)) <= digits_val(s),
    decreases s.len() - m,
{
    if m == s.len() {
        assert(s.subrange(0, m) =~= s);
    } else {
        let t = s.drop_last();
        assert(all_digits(t));
        assert(s.subrange(0, m) =~= t.subrange(0, m));
        lemma_digits_val_prefix(t, m);
        lemma_digits_val_nonneg(t);
    }
}

/// Parse the characters of `s` in `[from, to)` as an `i32` literal.
/// Returns the value exactly when that range is a literal in range.
pub fn parse_i32_range(s: &str, from: usize, to: usize) -> (r: Option<i32>)
    requires
        from <= to <= s@.len(),
    ensures
        r is Some <==> parses_to_i32(s@.subrange(from as int, to as int)),
        r matches Some(v) ==> v == literal_val(s@.subrange(from as int, to as int)),
{
    let ghost lit = s@.subrange(from as int, to as int);
    if from == to {
        return None;
    }
    let first = s.get_char(from);
    let mut idx: usize = from;
    let mut negative: bool = false;
    if first == '+' {
        idx = from + 1;
    } else if first == '-' {
        negative = true;
        idx = from + 1;
    }
    if idx == to {
        // a sign with no digits after it
        return None;
    }
    let ghost dp = s@.subrange(idx as int, to as int);
    proof {
        if idx == from + 1 {
            assert(lit.subrange(1, lit.len() as int) =~= dp);
        } else {
            assert(lit =~= dp);
        }
    }
    let mut acc: u64 = 0;
    let mut i: usize = idx;
    while i < to
        invariant
            from <= idx <= i <= to <= s@.len(),
            idx <= from + 1,
            lit == s@.subrange(from as int, to as int),
            dp == s@.subrange(idx as int, to as int),
            idx == from + 1 <==> (s@[from as int] == '+' || s@[from as int] == '-'),
            negative <==> s@[from as int] == '-',
            all_digits(s@.subrange(idx as int, i as int)),
            acc == digits_val(s@.subrange(idx as int, i as int)),
            acc <= 0x8000_0000,
        decreases to - i,
    {
        let c = s.get_char(i);
        let code: u32 = c as u32;
        if code < 48 || code > 57 {
            proof {
                assert(dp[i - idx] == s@[i as int]);
                assert(!all_digits(dp));
                lemma_not_literal_links(s@, from as int, idx as int, to as int);
            }
            return None;
        }
        let d: u64 = (code - 48) as u64;
        let next_acc: u64 = acc * 10 + d;
        proof {
            assert(s@.subrange(idx as int, i + 1).drop_last() =~= s@.subrange(
                idx as int,
                i as int,
            ));
            assert(s@.subrange(idx as int, i + 1).last() == s@[i as int]);
        }
        if next_acc > 0x8000_0000 {
            proof {
                if all_digits(dp) {
                    assert(s@.subrange(idx as int, i + 1) =~= dp.subrange(0, i + 1 - idx));
                    lemma_digits_val_prefix(dp, i + 1 - idx);
                }
                lemma_too_large_links(s@, from as int, idx as int, to as int, next_acc as int);
            }
            return None;
        }
        acc = next_acc;
        i = i + 1;
    }
    proof {
        assert(s@.subrange(idx as int, i as int) =~= dp);
        lemma_literal_links(s@, from as int, idx as int, to as int);
    }
    if negative {
        if acc == 0x8000_0000 {
            Some(i32::MIN)
        } else {
            Some(-(acc as i32))
        }
    } else {
        if acc > 0x7FFF_FFFF {
            None
        } else {
            Some(acc as i32)
        }
    }
}

/// With the sign handled at `idx`, a non-digit in the digit part means
/// the whole range is no literal.
proof fn lemma_not_literal_links(s: Seq<char>, from: int, idx: int, to: int)
    requires
        0 <= from <= idx <= to <= s.len(),
        idx <= from + 1,
        from < to,
        idx < to,
        idx == from + 1 <==> (s[from] == '+' || s[from] == '-'),
        !all_digits(s.subrange(idx, to)),
    ensures
        !is_int_literal(s.subrange(from, to)),
{
    let lit = s.subrange(from, to);
    if idx == from + 1 {
        assert(lit.subrange(1, lit.len() as int) =~= s.subrange(idx, to));
    } else {
        assert(lit =~= s.subrange(idx, to));
    }
}

/// With the sign handled at `idx`, a digit part whose value exceeds the
/// magnitude bound puts the literal's value outside the `i32` range.
proof fn lemma_too_large_links(s: Seq<char>, from: int, idx: int, to: int, bound: int)
    requires
        0 <= from <= idx <= to <= s.len(),
        idx <= from + 1,
        from < to,
        idx < to,
        idx == from + 1 <==> (s[from] == '+' || s[from] == '-'),
        bound > 0x8000_0000,
        all_digits(s.subrange(idx, to)) ==> digits_val(s.subrange(idx, to)) >= bound,
    ensures
        !parses_to_i32(s.subrange(from, to)),
{
    let lit = s.subrange(from, to);
    let dp = s.subrange(idx, to);
    if idx == from + 1 {
        assert(lit.subrange(1, lit.len() as int) =~= dp);
    } else {
        assert(lit =~= dp);
    }
    if is_int_literal(lit) {
        assert(all_digits(dp));
        assert(digits_val(dp) >= bound);
    }
}

/// With the sign handled at `idx` and a nonempty, all-digit digit part,
/// the range is a literal whose magnitude is the digit part's value.
proof fn lemma_literal_links(s: Seq<char>, from: int, idx: int, to: int)
    requires
        0 <= from <= idx <= to <= s.len(),
        idx <= from + 1,
        from < to,
        idx < to,
        idx == from + 1 <==> (s[from] == '+' || s[from] == '-'),
        all_digits(s.subrange(idx, to)),
    ensures
        is_int_literal(s.subrange(from, to)),
        s[from] == '-' ==> literal_val(s.subrange(from, to)) == -digits_val(s.subrange(idx, to)),
        s[from] != '-' ==> literal_val(s.subrange(from, to)) == digits_val(s.subrange(idx, to)),
{
    let lit = s.subrange(from, to);
    if idx == from + 1 {
        assert(lit.subrange(1, lit.len() as int) =~= s.subrange(idx, to));
    } else {
        assert(lit =~= s.subrange(idx, to));
    }
}

} // verus!
