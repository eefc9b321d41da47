//! Decimal digit strings: parsing a string of ASCII digits into a `u64` and
//! rendering a `u64` back as its canonical decimal text.

use vstd::prelude::*;

verus! {

/// `c` is one of the ten ASCII decimal digits.
pub open spec fn is_dec_digit(c: char) -> bool {
    48 <= c as int <= 57
}

/// Numeric value of one decimal digit character.
pub open spec fn digit_val(c: char) -> nat {
    (c as int - 48) as nat
}

/// Every character of `s` is a decimal digit.
pub open spec fn all_digits(s: Seq<char>) -> bool {
    forall|i: int| 0 <= i < s.len() ==> is_dec_digit(#[trigger] s[i])
}

/// Value of a digit string read most-significant-first.
pub open spec fn digits_val(s: Seq<char>) -> nat
    decreases s.len(),
{
    if s.len() == 0 {
        0
    } else {
        digits_val(s.drop_last()) * 10 + digit_val(s.last())
    }
}

/// What parsing a decimal field yields: the value, if `s` is a nonempty
/// all-digit string whose value fits in a `u64`; nothing otherwise.
pub open spec fn spec_parse_u64(s: Seq<char>) -> Option<u64> {
    if s.len() > 0 && all_digits(s) && digits_val(s) <= u64::MAX {
        Some(digits_val(s) as u64)
    } else {
        None
    }
}

/// The digit character for a value below ten.
pub open spec fn dec_digit_char(d: nat) -> char {
    if d == 0 {
        '0'
    } else if d == 1 {
        '1'
    } else if d == 2 {
        '2'
    } else if d == 3 {
        '3'
    } else if d == 4 {
        '4'
    } else if d == 5 {
        '5'
    } else if d == 6 {
        '6'
    } else if d == 7 {
        '7'
    } else if d == 8 {
        '8'
    } else {
        '9'
    }
}

/// Canonical decimal rendering of `n`: no leading zero except for `n == 0`.
pub open spec fn dec_of(n: nat) -> Seq<char>
    decreases n,
{
    if n < 10 {
        seq![dec_digit_char(n)]
    } else {
        dec_of(n / 10) + seq![dec_digit_char(n % 10)]
    }
}

/// Along a digit string, the value of a longer prefix is never smaller.
proof fn lemma_digits_val_prefix_mono(s: Seq<char>, i: int, j: int)
    requires
        0 <= i <= j <= s.len(),
    ensures
        digits_val(s.take(i)) <= digits_val(s.take(j)),
    decreases j - i,
{
    if i < j {
        lemma_digits_val_prefix_mono(s, i, j - 1);
        assert(s.take(j).drop_last() =~= s.take(j - 1));
        assert(digits_val(s.take(j)) == digits_val(s.take(j - 1)) * 10 + digit_val(s.take(j).last()));
        assert(digits_val(s.take(j - 1)) * 10 >= digits_val(s.take(j - 1))) by (nonlinear_arith);
    }
}

/// Parse a nonempty all-digit string as a `u64`; `None` on any other input,
/// including values too large for a `u64`.
pub fn parse_u64(s: &str) -> (r: Option<u64>)
    ensures
        r == spec_parse_u64(s@),
{
    let len = s.unicode_len();
    if len == 0 {
        return None;
    }
    let mut acc: u64 = 0;
    let mut i: usize = 0;
    while i < len
        invariant
            0 <= i <= len,
            len == s@.len(),
            all_digits(s@.take(i as int)),
            acc == digits_val(s@.take(i as int)),
        decreases len - i,
    {
        let c = s.get_char(i);
        let u = c as u32;
        if u < 48 || u > 57 {
            assert(!is_dec_digit(s@[i as int]));
            return None;
        }
        let d = (u - 48) as u64;
        if acc > (u64::MAX - d) / 10 {
            proof {
                let t = s@.take(i as int + 1);
                assert(t.drop_last() =~= s@.take(i as int));
                assert(t.last() == s@[i as int]);
                let q = (u64::MAX - d) as int / 10;
                assert(acc * 10 >= (q + 1) * 10) by (nonlinear_arith)
                    requires
                        acc >= q + 1,
                ;
                assert((q + 1) * 10 > u64::MAX - d) by (nonlinear_arith)
                    requires
                        q == (u64::MAX - d) as int / 10,
                        0 <= d <= 9,
                ;
                assert(digits_val(t) > u64::MAX);
                lemma_digits_val_prefix_mono(s@, i as int + 1, s@.len() as int);
                assert(s@.take(s@.len() as int) =~= s@);
            }
            return None;
        }
        proof {
            let t = s@.take(i as int + 1);
            assert(t.drop_last() =~= s@.take(i as int));
            assert(t.last() == s@[i as int]);
            assert(acc * 10 + d <= u64::MAX) by (nonlinear_arith)
                requires
                    acc <= (u64::MAX - d) as int / 10,
                    0 <= d <= 9,
            ;
        }
        acc = acc * 10 + d;
        i = i + 1;
    }
    proof {
        assert(s@.take(len as int) =~= s@);
    }
    Some(acc)
}

/// The single-character string for a digit value.
pub(crate) fn digit_str(d: u64) -> (r: &'static str)
    requires
        d < 10,
    ensures
        r@ == seq![dec_digit_char(d as nat)],
{
    proof {
        reveal_strlit("0");
        reveal_strlit("1");
        reveal_strlit("2");
        reveal_strlit("3");
        reveal_strlit("4");
        reveal_strlit("5");
        reveal_strlit("6");
        reveal_strlit("7");
        reveal_strlit("8");
        reveal_strlit("9");
    }
    let r = if d == 0 {
        "0"
    } else if d == 1 {
        "1"
    } else if d == 2 {
        "2"
    } else if d == 3 {
        "3"
    } else if d == 4 {
        "4"
    } else if d == 5 {
        "5"
    } else if d == 6 {
        "6"
    } else if d == 7 {
        "7"
    } else if d == 8 {
        "8"
    } else {
        "9"
    };
    proof {
        assert(r@ =~= seq![dec_digit_char(d as nat)]);
    }
    r
}

/// Render `n` as canonical decimal text.
pub fn u64_to_string(n: u64) -> (r: String)
    ensures
        r@ == dec_of(n as nat),
    decreases n,
{
    if n < 10 {
        let r = String::from_str(digit_str(n));
        proof {
            assert(r@ =~= dec_of(n as nat));
        }
        r
    } else {
        let mut r = u64_to_string(n / 10);
        r.append(digit_str(n % 10));
        proof {
            assert(r@ =~= dec_of(n as nat));
        }
        r
    }
}

/// Rendering a value and reading the digits back is the identity: the
/// canonical decimal text of `n` is nonempty, all digits, and reparses to `n`.
pub proof fn lemma_dec_of_round_trip(n: nat)
    ensures
        dec_of(n).len() >= 1,
        all_digits(dec_of(n)),
        digits_val(dec_of(n)) == n,
    decreases n,
{
    if n < 10 {
        assert(digits_val(dec_of(n)) == digits_val(dec_of(n).drop_last()) * 10 + digit_val(dec_of(n).last()));
        assert(dec_of(n).drop_last() =~= Seq::<char>::empty());
    } else {
        lemma_dec_of_round_trip(n / 10);
        let s = dec_of(n);
        assert(s.drop_last() =~= dec_of(n / 10));
        assert(s.last() == dec_digit_char(n % 10));
        assert(digit_val(dec_digit_char(n % 10)) == n % 10);
        assert((n / 10) * 10 + n % 10 == n) by (nonlinear_arith);
        assert(forall|i: int| 0 <= i < s.len() ==> is_dec_digit(#[trigger] s[i]));
    }
}

} // verus!
