//! Core of a pastebin client: decoding of the provider's XML responses into
//! typed records, the field-level value types they are built from, and the
//! plain-text report rendering of those records.
//!
//! Everything here is pure data transformation: bytes of a response body go
//! in, typed records or typed decode errors come out, and records render to
//! deterministic labelled reports. Transport, argument handling and terminal
//! styling live outside this crate.

pub mod digits;
pub mod error;
pub mod privacy;
pub mod records;
pub mod report;
pub mod size;
pub mod text;
pub mod tier;
pub mod timestamp;
pub mod website;
pub mod xml;

pub use digits::parse_u64;
pub use digits::u64_to_string;
pub use error::DecodeError;
pub use error::ValueError;
pub use privacy::Privacy;
pub use records::AccountInfo;
pub use records::PasteSummary;
pub use records::decode_account_info;
pub use records::decode_paste_list;
pub use records::decode_raw_text;
pub use records::is_permission_denied;
pub use report::Emphasis;
pub use report::Segment;
pub use report::paste_list_report;
pub use size::ByteSize;
pub use size::Suffix;
pub use tier::Tier;
pub use timestamp::Timestamp;
pub use website::Website;
