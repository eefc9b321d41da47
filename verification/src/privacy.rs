//! The privacy level of a paste or an account: Public, Unlisted or Private.
//!
//! The wire accepts a numeric code or a word on decode and always uses the
//! numeric code when a value is sent back.

use vstd::prelude::*;

use crate::digits::is_dec_digit;
use crate::error::ValueError;

verus! {

/// Visibility tier of a paste or an account.
#[derive(Clone, Copy, Debug, PartialEq, Eq, Structural)]
pub enum Privacy {
    Public,
    Unlisted,
    Private,
}

/// What decoding a privacy field yields: each level is named by its numeric
/// code or its lower-case word; every other string is rejected.
pub open spec fn spec_privacy_decode(s: Seq<char>) -> Option<Privacy> {
    if s == "0"@ || s == "public"@ {
        Some(Privacy::Public)
    } else if s == "1"@ || s == "unlisted"@ {
        Some(Privacy::Unlisted)
    } else if s == "2"@ || s == "private"@ {
        Some(Privacy::Private)
    } else {
        None
    }
}

/// Canonical numeric wire code of a privacy level.
pub open spec fn spec_form_ready(p: Privacy) -> Seq<char> {
    match p {
        Privacy::Public => "0"@,
        Privacy::Unlisted => "1"@,
        Privacy::Private => "2"@,
    }
}

/// Human-readable name of a privacy level.
pub open spec fn spec_privacy_name(p: Privacy) -> Seq<char> {
    match p {
        Privacy::Public => "Public"@,
        Privacy::Unlisted => "Unlisted"@,
        Privacy::Private => "Private"@,
    }
}

impl Privacy {
    /// Decode a privacy level from its wire or command-line spelling.
    pub fn decode(s: &str) -> (r: Result<Privacy, ValueError>)
        ensures
            match spec_privacy_decode(s@) {
                Some(p) => r == Ok::<Privacy, ValueError>(p),
                None => r == Err::<Privacy, ValueError>(ValueError::PrivacyCode),
            },
    {
        if crate::text::str_eq(s, "0") || crate::text::str_eq(s, "public") {
            Ok(Privacy::Public)
        } else if crate::text::str_eq(s, "1") || crate::text::str_eq(s, "unlisted") {
            Ok(Privacy::Unlisted)
        } else if crate::text::str_eq(s, "2") || crate::text::str_eq(s, "private") {
            Ok(Privacy::Private)
        } else {
            Err(ValueError::PrivacyCode)
        }
    }

    /// The canonical numeric code sent to the provider when submitting a
    /// paste's privacy.
    pub fn form_ready(&self) -> (r: String)
        ensures
            r@ == spec_form_ready(*self),
    {
        match self {
            Privacy::Public => String::from_str("0"),
            Privacy::Unlisted => String::from_str("1"),
            Privacy::Private => String::from_str("2"),
        }
    }

    /// The level's name as shown in reports.
    pub fn display_name(&self) -> (r: String)
        ensures
            r@ == spec_privacy_name(*self),
    {
        match self {
            Privacy::Public => String::from_str("Public"),
            Privacy::Unlisted => String::from_str("Unlisted"),
            Privacy::Private => String::from_str("Private"),
        }
    }
}

/// Law: every accepted privacy spelling decodes to the level it names, the
/// canonical re-encoding of that level is its one-digit numeric code, and the
/// code decodes back to the same level; every other string fails to decode.
pub proof fn lemma_privacy_round_trip(s: Seq<char>)
    ensures
        spec_privacy_decode(s) == Some(Privacy::Public) <==> (s == "0"@ || s == "public"@),
        spec_privacy_decode(s) == Some(Privacy::Unlisted) <==> (s == "1"@ || s == "unlisted"@),
        spec_privacy_decode(s) == Some(Privacy::Private) <==> (s == "2"@ || s == "private"@),
        spec_privacy_decode(s) matches Some(p) ==> spec_form_ready(p).len() == 1
            && is_dec_digit(spec_form_ready(p)[0])
            && spec_privacy_decode(spec_form_ready(p)) == Some(p),
{
    reveal_strlit("0");
    reveal_strlit("1");
    reveal_strlit("2");
    reveal_strlit("public");
    reveal_strlit("unlisted");
    reveal_strlit("private");
    assert("0"@[0] == '0' && "1"@[0] == '1' && "2"@[0] == '2');
    assert("0"@ != "1"@ && "0"@ != "2"@ && "1"@ != "2"@);
    assert("public"@.len() == 6 && "unlisted"@.len() == 8 && "private"@.len() == 7);
}

} // verus!
