//! The account tier, decoded from a small integer code: 0 is the normal
//! tier, 1 the pro tier, and any other integer — sign allowed — an
//! unrecognized tier, which renders as a placeholder and never aborts a
//! decode. Text that is not an integer at all is rejected.

use vstd::prelude::*;

use crate::digits::all_digits;
use crate::digits::digits_val;
use crate::digits::is_dec_digit;
use crate::error::ValueError;

verus! {

/// An account's tier.
#[derive(Clone, Copy, Debug, PartialEq, Eq, Structural)]
pub enum Tier {
    Normal,
    Pro,
    Unknown,
}

/// What decoding a tier field yields: the tier named by the integer code, or
/// nothing where the text is not an optionally minus-signed digit string.
pub open spec fn spec_tier_decode(s: Seq<char>) -> Option<Tier> {
    let neg = s.len() >= 1 && s[0] == '-';
    let digits = if neg {
        s.drop_first()
    } else {
        s
    };
    if digits.len() == 0 || !all_digits(digits) {
        None
    } else if digits_val(digits) == 0 {
        Some(Tier::Normal)
    } else if digits_val(digits) == 1 && !neg {
        Some(Tier::Pro)
    } else {
        Some(Tier::Unknown)
    }
}

impl Tier {
    /// Decode a tier field.
    pub fn decode(s: &str) -> (r: Result<Tier, ValueError>)
        ensures
            match spec_tier_decode(s@) {
                Some(t) => r == Ok::<Tier, ValueError>(t),
                None => r == Err::<Tier, ValueError>(ValueError::Integer),
            },
    {
        let n = s.unicode_len();
        let neg = n >= 1 && s.get_char(0) == '-';
        let start: usize = if neg {
            1
        } else {
            0
        };
        let ghost digits: Seq<char> = s@.subrange(start as int, s@.len() as int);
        proof {
            if neg {
                assert(digits =~= s@.drop_first());
            } else {
                assert(digits =~= s@);
            }
        }
        if n == start {
            return Err(ValueError::Integer);
        }
        // the code's value, saturated at two: two already means "unknown"
        let mut sat: u64 = 0;
        let mut i: usize = start;
        proof {
            assert(digits.take(0) =~= Seq::<char>::empty());
        }
        while i < n
            invariant
                start <= i <= n,
                start < n,
                n == s@.len(),
                neg == (s@.len() >= 1 && s@[0] == '-'),
                start == if neg {
                    1int
                } else {
                    0int
                },
                digits == if neg {
                    s@.drop_first()
                } else {
                    s@
                },
                digits == s@.subrange(start as int, n as int),
                all_digits(digits.take(i - start)),
                sat == if digits_val(digits.take(i - start)) >= 2 {
                    2nat
                } else {
                    digits_val(digits.take(i - start))
                },
            decreases n - i,
        {
            let c = s.get_char(i);
            let u = c as u32;
            proof {
                assert(digits[i - start] == s@[i as int]);
            }
            if u < 48 || u > 57 {
                proof {
                    assert(!is_dec_digit(digits[i - start]));
                    assert(!all_digits(digits));
                }
                return Err(ValueError::Integer);
            }
            let d = (u - 48) as u64;
            proof {
                let t = digits.take(i - start + 1);
                assert(t.drop_last() =~= digits.take(i - start));
                assert(t.last() == digits[i - start]);
            }
            let v = sat * 10 + d;
            sat = if v >= 2 {
                2
            } else {
                v
            };
            i = i + 1;
        }
        proof {
            assert(digits.take(n - start) =~= digits);
        }
        if sat == 0 {
            Ok(Tier::Normal)
        } else if sat == 1 && !neg {
            Ok(Tier::Pro)
        } else {
            Ok(Tier::Unknown)
        }
    }
}

} // verus!
