//! A wall clock holding hours and minutes, normalized so that any pair of
//! integers folds onto the 24-hour dial. Arithmetic works on the total
//! number of minutes and reduces modulo one day.

use crate::display::{digit_char, two_digit};
use crate::parse::{literal_val, parse_i32_range, parses_to_i32};
use vstd::prelude::*;
use vstd::string::{StrSliceExecFns, StringExecFns};

verus! {

/// Minutes on a full 24-hour dial.
pub const MINUTES_PER_DAY: i64 = 1440;

/// The total number of minutes a (hours, minutes) pair stands for.
pub open spec fn total_minutes(hours: int, minutes: int) -> int {
    hours * 60 + minutes
}

/// The dial position of a total: the hour field after normalization.
pub open spec fn spec_hours_of(total: int) -> int {
    (total % 1440) / 60
}

/// The dial position of a total: the minute field after normalization.
pub open spec fn spec_minutes_of(total: int) -> int {
    (total % 1440) % 60
}

/// A clock on a 24-hour dial. `new` and every arithmetic operation return
/// a normalized value: hours in [0, 24), minutes in [0, 60).
pub struct Clock {
    pub hours: i32,
    pub minutes: i32,
}

/// `c` is the normalized clock standing for `total` minutes.
pub open spec fn is_clock_of(c: Clock, total: int) -> bool {
    c.hours == spec_hours_of(total) && c.minutes == spec_minutes_of(total)
}

impl Clock {
    /// The total number of minutes this clock's fields stand for.
    pub open spec fn spec_total(self) -> int {
        total_minutes(self.hours as int, self.minutes as int)
    }

    /// The normalized clock for a total number of minutes.
    fn of_total(total: i64) -> (c: Clock)
        ensures
            is_clock_of(c, total as int),
            0 <= c.hours < 24,
            0 <= c.minutes < 60,
    {
        let reduced: i64 = total.checked_rem_euclid(MINUTES_PER_DAY).unwrap();
        let dial: u32 = reduced as u32;
        Clock { hours: (dial / 60) as i32, minutes: (dial % 60) as i32 }
    }

    /// Fold this clock's fields onto the dial, keeping the total of minutes.
    fn normalize(self) -> (c: Self)
        ensures
            is_clock_of(c, self.spec_total()),
            0 <= c.hours < 24,
            0 <= c.minutes < 60,
    {
        Self::of_total(self.hours as i64 * 60 + self.minutes as i64)
    }

    /// Build a clock from any pair of integers; the pair is normalized.
    pub fn new(hours: i32, minutes: i32) -> (c: Self)
        ensures
            is_clock_of(c, total_minutes(hours as int, minutes as int)),
            0 <= c.hours < 24,
            0 <= c.minutes < 60,
    {
        Self { hours, minutes }.normalize()
    }
}

/// The normalized clock value for a total number of minutes.
pub open spec fn spec_clock_of(total: int) -> Clock {
    Clock { hours: spec_hours_of(total) as i32, minutes: spec_minutes_of(total) as i32 }
}

impl core::ops::Add for Clock {
    type Output = Clock;

    /// Pointwise sum of two clocks, normalized.
    fn add(self, rhs: Clock) -> (c: Clock) {
        Clock::of_total(
            self.hours as i64 * 60 + self.minutes as i64 + rhs.hours as i64 * 60
                + rhs.minutes as i64,
        )
    }
}

impl vstd::std_specs::ops::AddSpecImpl for Clock {
    open spec fn obeys_add_spec() -> bool {
        true
    }

    open spec fn add_req(self, rhs: Clock) -> bool {
        true
    }

    open spec fn add_spec(self, rhs: Clock) -> Clock {
        spec_clock_of(self.spec_total() + rhs.spec_total())
    }
}

impl core::ops::Add<i32> for Clock {
    type Output = Clock;

    /// Move a clock forward by a number of minutes, normalized.
    fn add(self, rhs: i32) -> (c: Clock) {
        Clock::of_total(self.hours as i64 * 60 + self.minutes as i64 + rhs as i64)
    }
}

impl vstd::std_specs::ops::AddSpecImpl<i32> for Clock {
    open spec fn obeys_add_spec() -> bool {
        true
    }

    open spec fn add_req(self, rhs: i32) -> bool {
        true
    }

    open spec fn add_spec(self, rhs: i32) -> Clock {
        spec_clock_of(self.spec_total() + rhs)
    }
}

impl core::ops::Sub for Clock {
    type Output = Clock;

    /// Pointwise difference of two clocks, normalized.
    fn sub(self, rhs: Clock) -> (c: Clock) {
        Clock::of_total(
            self.hours as i64 * 60 + self.minutes as i64 - rhs.hours as i64 * 60
                - rhs.minutes as i64,
        )
    }
}

impl vstd::std_specs::ops::SubSpecImpl for Clock {
    open spec fn obeys_sub_spec() -> bool {
        true
    }

    open spec fn sub_req(self, rhs: Clock) -> bool {
        true
    }

    open spec fn sub_spec(self, rhs: Clock) -> Clock {
        spec_clock_of(self.spec_total() - rhs.spec_total())
    }
}

impl core::ops::Sub<i32> for Clock {
    type Output = Clock;

    /// Move a clock back by a number of minutes, normalized.
    fn sub(self, rhs: i32) -> (c: Clock) {
        Clock::of_total(self.hours as i64 * 60 + self.minutes as i64 - rhs as i64)
    }
}

impl vstd::std_specs::ops::SubSpecImpl<i32> for Clock {
    open spec fn obeys_sub_spec() -> bool {
        true
    }

    open spec fn sub_req(self, rhs: i32) -> bool {
        true
    }

    open spec fn sub_spec(self, rhs: i32) -> Clock {
        spec_clock_of(self.spec_total() - rhs)
    }
}

/// The "HH:MM" text of a normalized clock, both fields zero-padded to two
/// digits.
pub open spec fn spec_clock_text(c: Clock) -> Seq<char> {
    seq![
        digit_char(c.hours as int / 10),
        digit_char(c.hours as int % 10),
        ':',
        digit_char(c.minutes as int / 10),
        digit_char(c.minutes as int % 10),
    ]
}

impl Clock {
    /// This clock as zero-padded "HH:MM" text.
    pub fn display_string(&self) -> (r: String)
        requires
            0 <= self.hours < 24,
            0 <= self.minutes < 60,
        ensures
            r@ == spec_clock_text(*self),
    {
        let mut r = two_digit(self.hours as u32);
        r.append(":");
        let minutes = two_digit(self.minutes as u32);
        r.append(minutes.as_str());
        proof {
            reveal_strlit(":");
            assert(r@ =~= spec_clock_text(*self));
        }
        r
    }
}

/// The parse error for clock strings. It carries no detail: any string
/// that is not exactly two colon-separated integer literals in range is
/// rejected with this one error.
#[derive(Debug)]
pub struct ParseClockError;

/// Position `k` splits `s` into two halves around its only colon.
pub open spec fn spec_splits_at(s: Seq<char>, k: int) -> bool {
    &&& 0 <= k < s.len()
    &&& s[k] == ':'
    &&& forall|j: int| 0 <= j < s.len() && j != k ==> s[j] != ':'
}

/// `s` parses as a clock: one colon, and each half a literal in i32 range.
pub open spec fn spec_parse_ok(s: Seq<char>) -> bool {
    exists|k: int|
        #[trigger] spec_splits_at(s, k) && parses_to_i32(s.subrange(0, k)) && parses_to_i32(
            s.subrange(k + 1, s.len() as int),
        )
}

impl Clock {
    /// Parse "H:M" into a normalized clock. The string must hold exactly
    /// one colon, and each side must be a decimal integer literal whose
    /// value fits in an i32; anything else is a `ParseClockError`.
    pub fn from_str(s: &str) -> (r: Result<Clock, ParseClockError>)
        ensures
            r is Ok <==> spec_parse_ok(s@),
            forall|k: int|
                #[trigger] spec_splits_at(s@, k) ==> {
                    let hours_part = s@.subrange(0, k);
                    let minutes_part = s@.subrange(k + 1, s@.len() as int);
                    parses_to_i32(hours_part) && parses_to_i32(minutes_part) ==> (r matches Ok(c)
                        && is_clock_of(
                        c,
                        total_minutes(literal_val(hours_part), literal_val(minutes_part)),
                    ))
                },
    {
        let n: usize = s.unicode_len();
        let mut count: usize = 0;
        let mut cpos: usize = 0;
        let mut cpos2: usize = 0;
        let mut i: usize = 0;
        while i < n
            invariant
                i <= n,
                n == s@.len(),
                count <= i,
                count >= 1 ==> cpos < i && s@[cpos as int] == ':',
                count == 0 ==> forall|j: int| 0 <= j < i ==> s@[j] != ':',
                count == 1 ==> forall|j: int| 0 <= j < i && j != cpos ==> s@[j] != ':',
                count >= 2 ==> cpos < cpos2 < i && s@[cpos2 as int] == ':',
            decreases n - i,
        {
            let c = s.get_char(i);
            if c == ':' {
                if count == 0 {
                    cpos = i;
                } else if count == 1 {
                    cpos2 = i;
                }
                count = count + 1;
            }
            i = i + 1;
        }
        if count == 0 {
            proof {
                assert(forall|k: int| !spec_splits_at(s@, k));
            }
            return Err(ParseClockError);
        }
        if count >= 2 {
            proof {
                assert forall|k: int| !spec_splits_at(s@, k) by {
                    if spec_splits_at(s@, k) {
                        if k != cpos {
                            assert(s@[cpos as int] != ':');
                        } else {
                            assert(s@[cpos2 as int] != ':');
                        }
                    }
                }
            }
            return Err(ParseClockError);
        }
        proof {
            assert(spec_splits_at(s@, cpos as int));
            assert forall|k: int| spec_splits_at(s@, k) implies k == cpos as int by {
                if k != cpos as int {
                    assert(s@[cpos as int] != ':');
                }
            }
        }
        let hours = parse_i32_range(s, 0, cpos);
        let minutes = parse_i32_range(s, cpos + 1, n);
        match (hours, minutes) {
            (Some(h), Some(m)) => Ok(Clock::new(h, m)),
            _ => Err(ParseClockError),
        }
    }
}

impl core::str::FromStr for Clock {
    type Err = ParseClockError;

    fn from_str(s: &str) -> (r: Result<Clock, ParseClockError>) {
        Clock::from_str(s)
    }
}

} // verus!
