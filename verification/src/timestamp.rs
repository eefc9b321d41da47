//! An absolute instant, decoded from a wire string of decimal digits counting
//! whole seconds since the Unix epoch (UTC), and rendered through chrono as
//! `YYYY-MM-DD HH:MM:SS UTC`.
//!
//! The renderer covers every instant chrono can represent, through the end of
//! year 262142; the decoder rejects a count of seconds past that as out of
//! range rather than producing a record it could not render.

use vstd::prelude::*;

use crate::digits::parse_u64;
use crate::digits::spec_parse_u64;
use crate::error::ValueError;

verus! {

/// Seconds of the last representable instant, 262142-12-31T23:59:59Z.
pub const MAX_EPOCH_SECS: u64 = 8210266876799;

/// The text chrono renders for an instant: a function of the seconds alone.
pub uninterp spec fn utc_string_of(secs: u64) -> Seq<char>;

/// Relies on chrono's `DateTime::<Utc>::from_timestamp`, which is `Some` for
/// every second count through the last second of its last representable day,
/// 262142-12-31, and on the `Display` of `DateTime<Utc>`: both depend on the
/// seconds alone.
#[verifier::external_body]
fn chrono_utc_render(secs: u64) -> (r: String)
    requires
        secs <= MAX_EPOCH_SECS,
    ensures
        r@ == utc_string_of(secs),
{
    chrono::DateTime::<chrono::Utc>::from_timestamp(secs as i64, 0).unwrap().to_string()
}

/// A point in time, as whole seconds since the Unix epoch.
#[derive(Clone, Copy, Debug, PartialEq, Eq, Structural)]
pub struct Timestamp {
    pub secs: u64,
}

/// What decoding a timestamp field yields: the instant, if the text is a
/// nonempty string of decimal digits whose value is in the supported range;
/// a timestamp value error otherwise.
pub open spec fn spec_timestamp_decode(s: Seq<char>) -> Result<Timestamp, ValueError> {
    match spec_parse_u64(s) {
        Some(v) => if v <= MAX_EPOCH_SECS {
            Ok(Timestamp { secs: v })
        } else {
            Err(ValueError::Timestamp)
        },
        None => Err(ValueError::Timestamp),
    }
}

impl Timestamp {
    /// The instant is within the renderer's range.
    pub open spec fn wf(&self) -> bool {
        self.secs <= MAX_EPOCH_SECS
    }

    /// Decode an epoch-seconds string.
    pub fn decode(s: &str) -> (r: Result<Timestamp, ValueError>)
        ensures
            r == spec_timestamp_decode(s@),
            r matches Ok(t) ==> t.wf(),
    {
        match parse_u64(s) {
            Some(v) => if v <= MAX_EPOCH_SECS {
                Ok(Timestamp { secs: v })
            } else {
                Err(ValueError::Timestamp)
            },
            None => Err(ValueError::Timestamp),
        }
    }

    /// Render this instant as UTC date-and-time text.
    pub fn render(&self) -> (r: String)
        requires
            self.wf(),
        ensures
            r@ == utc_string_of(self.secs),
    {
        chrono_utc_render(self.secs)
    }
}

} // verus!
