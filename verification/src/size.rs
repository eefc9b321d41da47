//! Byte counts rendered with binary prefixes: a count is shown under the
//! largest unit of B, KB, MB, GB, TB for which the scaled value stays below
//! 1024, with exactly two decimal places above B and none at B.
//!
//! A count of a petabyte or more keeps the TB unit (the scaled value is then
//! 1024 or more): the unit ladder ends at TB by design, and capping there
//! renders such a count faithfully instead of miscomputing it.

use vstd::prelude::*;

use crate::digits::dec_digit_char;
use crate::digits::dec_of;
use crate::digits::digit_str;
use crate::digits::u64_to_string;

verus! {

/// Binary-prefix unit of a rendered byte count.
#[derive(Clone, Copy, Debug, PartialEq, Eq, Structural)]
pub enum Suffix {
    Base,
    Kilo,
    Mega,
    Giga,
    Tera,
}

/// The next-larger unit.
pub open spec fn spec_up(s: Suffix) -> Suffix {
    match s {
        Suffix::Base => Suffix::Kilo,
        Suffix::Kilo => Suffix::Mega,
        Suffix::Mega => Suffix::Giga,
        Suffix::Giga => Suffix::Tera,
        Suffix::Tera => Suffix::Tera,
    }
}

/// Unit label as it appears after the number.
pub open spec fn spec_suffix_label(s: Suffix) -> Seq<char> {
    match s {
        Suffix::Base => "B"@,
        Suffix::Kilo => "KB"@,
        Suffix::Mega => "MB"@,
        Suffix::Giga => "GB"@,
        Suffix::Tera => "TB"@,
    }
}

impl Suffix {
    /// Step to the next-larger unit. The ladder ends at TB: there is nothing
    /// above it to step to.
    pub fn up(&self) -> (r: Suffix)
        requires
            !(self is Tera),
        ensures
            r == spec_up(*self),
    {
        match self {
            Suffix::Base => Suffix::Kilo,
            Suffix::Kilo => Suffix::Mega,
            Suffix::Mega => Suffix::Giga,
            Suffix::Giga => Suffix::Tera,
            Suffix::Tera => Suffix::Tera,
        }
    }

    /// The unit's label.
    pub fn label(&self) -> (r: String)
        ensures
            r@ == spec_suffix_label(*self),
    {
        match self {
            Suffix::Base => String::from_str("B"),
            Suffix::Kilo => String::from_str("KB"),
            Suffix::Mega => String::from_str("MB"),
            Suffix::Giga => String::from_str("GB"),
            Suffix::Tera => String::from_str("TB"),
        }
    }
}

/// 1024 to the `k`-th power.
pub open spec fn pow1024(k: nat) -> nat
    decreases k,
{
    if k == 0 {
        1
    } else {
        1024 * pow1024((k - 1) as nat)
    }
}

/// Index of the display unit for a byte count: the largest unit whose scaled
/// value is below 1024, capped at TB.
pub open spec fn spec_scale_of(bytes: u64) -> nat {
    if bytes < 1024 {
        0
    } else if bytes < 1048576 {
        1
    } else if bytes < 1073741824 {
        2
    } else if bytes < 1099511627776 {
        3
    } else {
        4
    }
}

/// The unit at ladder index `k`.
pub open spec fn suffix_for_scale(k: nat) -> Suffix {
    if k == 0 {
        Suffix::Base
    } else if k == 1 {
        Suffix::Kilo
    } else if k == 2 {
        Suffix::Mega
    } else if k == 3 {
        Suffix::Giga
    } else {
        Suffix::Tera
    }
}

/// `frac / den` in hundredths, rounded to the nearest with ties to even.
pub open spec fn spec_centi_round(frac: nat, den: nat) -> nat {
    let q = frac * 100 / den;
    let r = frac * 100 % den;
    if 2 * r > den {
        q + 1
    } else if 2 * r == den && q % 2 == 1 {
        q + 1
    } else {
        q
    }
}

/// Whole and hundredths parts of the scaled value, after carrying a rounded
///-up fraction of one hundred into the whole part.
pub open spec fn spec_size_parts(bytes: u64) -> (nat, nat) {
    let den = pow1024(spec_scale_of(bytes));
    let q = spec_centi_round(bytes as nat % den, den);
    if q == 100 {
        ((bytes as nat / den + 1) as nat, 0)
    } else {
        ((bytes as nat / den) as nat, q)
    }
}

/// The rendered text of a byte count: the integer count with `B`, or the
/// scaled value with two decimal places and the unit label above B.
pub open spec fn spec_size_render(bytes: u64) -> Seq<char> {
    let k = spec_scale_of(bytes);
    if k == 0 {
        dec_of(bytes as nat) + "B"@
    } else {
        let (w, c) = spec_size_parts(bytes);
        dec_of(w) + "."@ + seq![dec_digit_char(c / 10), dec_digit_char(c % 10)]
            + spec_suffix_label(suffix_for_scale(k))
    }
}

/// The first five powers of 1024, unfolded.
proof fn lemma_pow1024_values()
    ensures
        pow1024(0) == 1,
        pow1024(1) == 1024,
        pow1024(2) == 1048576,
        pow1024(3) == 1073741824,
        pow1024(4) == 1099511627776,
{
    assert(pow1024(0) == 1);
    assert(pow1024(1) == 1024);
    assert(pow1024(2) == 1048576);
    assert(pow1024(3) == 1073741824);
    assert(pow1024(4) == 1099511627776);
}

/// A byte count shown with a binary prefix.
#[derive(Clone, Copy, Debug, PartialEq, Eq, Structural)]
pub struct ByteSize {
    pub bytes: u64,
}

impl ByteSize {
    /// A size of `bytes` bytes.
    pub fn new(bytes: u64) -> (r: ByteSize)
        ensures
            r.bytes == bytes,
    {
        ByteSize { bytes }
    }

    /// The display unit of this size.
    pub fn suffix(&self) -> (r: Suffix)
        ensures
            r == suffix_for_scale(spec_scale_of(self.bytes)),
    {
        if self.bytes < 1024 {
            Suffix::Base
        } else if self.bytes < 1048576 {
            Suffix::Kilo
        } else if self.bytes < 1073741824 {
            Suffix::Mega
        } else if self.bytes < 1099511627776 {
            Suffix::Giga
        } else {
            Suffix::Tera
        }
    }

    /// Render this size for a report.
    pub fn render(&self) -> (r: String)
        ensures
            r@ == spec_size_render(self.bytes),
    {
        let b = self.bytes;
        if b < 1024 {
            let mut s = u64_to_string(b);
            s.append("B");
            proof {
                assert(s@ =~= spec_size_render(self.bytes));
            }
            s
        } else {
            let suf = self.suffix();
            let den: u64 = match suf {
                Suffix::Base => 1,
                Suffix::Kilo => 1024,
                Suffix::Mega => 1048576,
                Suffix::Giga => 1073741824,
                Suffix::Tera => 1099511627776,
            };
            proof {
                lemma_pow1024_values();
                assert(den as nat == pow1024(spec_scale_of(b)));
            }
            let whole = b / den;
            let frac = b % den;
            let p = frac * 100;
            let q0 = p / den;
            let r0 = p % den;
            proof {
                vstd::arithmetic::div_mod::lemma_fundamental_div_mod(p as int, den as int);
                assert(p < 100 * den) by (nonlinear_arith)
                    requires
                        p == frac * 100,
                        0 <= frac < den,
                ;
                assert(q0 <= 99) by (nonlinear_arith)
                    requires
                        p == den * q0 + r0,
                        0 <= r0,
                        p < 100 * den,
                        den >= 1024,
                        q0 >= 0,
                ;
            }
            let q = if 2 * r0 > den {
                q0 + 1
            } else if 2 * r0 == den && q0 % 2 == 1 {
                q0 + 1
            } else {
                q0
            };
            proof {
                assert(whole * den <= b) by (nonlinear_arith)
                    requires
                        whole == b as int / den as int,
                        den >= 1024,
                        b >= 0,
                ;
                assert(whole <= u64::MAX / 1024) by (nonlinear_arith)
                    requires
                        whole * den <= b <= u64::MAX,
                        den >= 1024,
                        whole >= 0,
                ;
            }
            let (w, c) = if q == 100 {
                (whole + 1, 0u64)
            } else {
                (whole, q)
            };
            let mut s = u64_to_string(w);
            s.append(".");
            s.append(digit_str(c / 10));
            s.append(digit_str(c % 10));
            let lab = suf.label();
            s.append(lab.as_str());
            proof {
                assert((w as nat, c as nat) == spec_size_parts(self.bytes));
                assert(s@ =~= spec_size_render(self.bytes));
            }
            s
        }
    }
}

/// Law: rendering a byte count and reading the numeric portion back through
/// the same scale reconstructs the count within the rounding tolerance of the
/// two displayed decimal places — half a hundredth of the unit — and exactly
/// for counts below 1024, which are shown unscaled. The displayed digits
/// denote the parts via `dec_of`, which reparses losslessly
/// (`lemma_dec_of_round_trip`).
pub proof fn lemma_size_render_round_trip(bytes: u64)
    ensures
        ({
            let den = pow1024(spec_scale_of(bytes));
            let (w, c) = spec_size_parts(bytes);
            &&& 2 * ((100 * w + c) * den) <= 200 * bytes + den
            &&& 200 * bytes <= 2 * ((100 * w + c) * den) + den
        }),
        spec_scale_of(bytes) == 0 ==> spec_size_parts(bytes) == (bytes as nat, 0nat),
{
    let den = pow1024(spec_scale_of(bytes));
    lemma_pow1024_values();
    assert(den >= 1);
    let whole = bytes as nat / den;
    let frac = bytes as nat % den;
    vstd::arithmetic::div_mod::lemma_fundamental_div_mod(bytes as int, den as int);
    let p = frac * 100;
    let q0 = p / den;
    let r0 = p % den;
    vstd::arithmetic::div_mod::lemma_fundamental_div_mod(p as int, den as int);
    let q = spec_centi_round(frac, den);
    // the rounded hundredths stay within half a denominator of the true ratio
    assert(2 * (q * den) <= 2 * p + den && 2 * p <= 2 * (q * den) + den) by (nonlinear_arith)
        requires
            p == q0 * den + r0,
            0 <= r0 < den,
            q == (if 2 * r0 > den {
                q0 + 1
            } else if 2 * r0 == den && q0 % 2 == 1 {
                q0 + 1
            } else {
                q0
            }),
    ;
    let (w, c) = spec_size_parts(bytes);
    assert(100 * w + c == 100 * whole + q);
    assert((100 * whole + q) * den == 100 * (whole * den) + q * den) by (nonlinear_arith);
    assert(100 * (whole * den) + 100 * frac == 100 * bytes) by (nonlinear_arith)
        requires
            whole * den + frac == bytes,
    ;
    if spec_scale_of(bytes) == 0 {
        assert(den == 1);
        assert(frac == 0);
        assert(q0 == 0 && r0 == 0);
    }
}

} // verus!
