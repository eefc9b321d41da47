//! Tests of the field-level value types: privacy codes, byte sizes,
//! timestamps, websites and decimal digits.

use pastebin::ByteSize;
use pastebin::Privacy;
use pastebin::Suffix;
use pastebin::Tier;
use pastebin::Timestamp;
use pastebin::ValueError;
use pastebin::Website;
use pastebin::parse_u64;
use pastebin::u64_to_string;
use pastebin::website::parse_absolute_url;

#[test]
fn privacy_decodes_every_accepted_spelling() {
    assert!(matches!(Privacy::decode("0"), Ok(Privacy::Public)));
    assert!(matches!(Privacy::decode("public"), Ok(Privacy::Public)));
    assert!(matches!(Privacy::decode("1"), Ok(Privacy::Unlisted)));
    assert!(matches!(Privacy::decode("unlisted"), Ok(Privacy::Unlisted)));
    assert!(matches!(Privacy::decode("2"), Ok(Privacy::Private)));
    assert!(matches!(Privacy::decode("private"), Ok(Privacy::Private)));
}

#[test]
fn privacy_rejects_everything_else() {
    assert!(matches!(Privacy::decode(""), Err(ValueError::PrivacyCode)));
    assert!(matches!(Privacy::decode("3"), Err(ValueError::PrivacyCode)));
    assert!(matches!(Privacy::decode("Public"), Err(ValueError::PrivacyCode)));
    assert!(matches!(Privacy::decode("01"), Err(ValueError::PrivacyCode)));
}

#[test]
fn privacy_round_trips_to_canonical_code() {
    for code in ["0", "public", "1", "unlisted", "2", "private"] {
        let p = Privacy::decode(code).unwrap();
        let wire = p.form_ready();
        assert_eq!(Privacy::decode(&wire).unwrap(), p);
    }
    assert_eq!(Privacy::Public.form_ready(), "0");
    assert_eq!(Privacy::Unlisted.form_ready(), "1");
    assert_eq!(Privacy::Private.form_ready(), "2");
}

#[test]
fn privacy_display_names() {
    assert_eq!(Privacy::Public.display_name(), "Public");
    assert_eq!(Privacy::Unlisted.display_name(), "Unlisted");
    assert_eq!(Privacy::Private.display_name(), "Private");
}

#[test]
fn size_renders_spec_examples() {
    assert_eq!(ByteSize::new(0).render(), "0B");
    assert_eq!(ByteSize::new(1023).render(), "1023B");
    assert_eq!(ByteSize::new(1024).render(), "1.00KB");
    assert_eq!(ByteSize::new(1048576).render(), "1.00MB");
}

#[test]
fn size_renders_two_decimals_above_base() {
    assert_eq!(ByteSize::new(1536).render(), "1.50KB");
    assert_eq!(ByteSize::new(1029).render(), "1.00KB");
    assert_eq!(ByteSize::new(10240).render(), "10.00KB");
    assert_eq!(ByteSize::new(1073741824).render(), "1.00GB");
    assert_eq!(ByteSize::new(1099511627776).render(), "1.00TB");
}

#[test]
fn size_rounds_to_nearest_hundredth() {
    // 1048575 / 1024 = 1023.999..., which rounds up past 1024
    assert_eq!(ByteSize::new(1048575).render(), "1024.00KB");
    // 5 TB stays under the TB unit's cap
    assert_eq!(ByteSize::new(5 * 1099511627776).render(), "5.00TB");
    // a petabyte keeps the TB unit: the ladder ends there
    assert_eq!(ByteSize::new(1024 * 1099511627776).render(), "1024.00TB");
}

#[test]
fn size_suffix_ladder() {
    assert_eq!(ByteSize::new(0).suffix(), Suffix::Base);
    assert_eq!(ByteSize::new(1024).suffix(), Suffix::Kilo);
    assert_eq!(ByteSize::new(1048576).suffix(), Suffix::Mega);
    assert_eq!(ByteSize::new(1073741824).suffix(), Suffix::Giga);
    assert_eq!(ByteSize::new(1099511627776).suffix(), Suffix::Tera);
    assert_eq!(Suffix::Base.up(), Suffix::Kilo);
    assert_eq!(Suffix::Kilo.up(), Suffix::Mega);
    assert_eq!(Suffix::Mega.up(), Suffix::Giga);
    assert_eq!(Suffix::Giga.up(), Suffix::Tera);
    assert_eq!(Suffix::Tera.label(), "TB");
}

#[test]
fn timestamp_zero_is_the_epoch() {
    let t = Timestamp::decode("0").unwrap();
    assert_eq!(t.secs, 0);
    assert_eq!(t.render(), "1970-01-01 00:00:00 UTC");
}

#[test]
fn timestamp_renders_a_known_instant() {
    let t = Timestamp::decode("1431648000").unwrap();
    assert_eq!(t.render(), "2015-05-15 00:00:00 UTC");
}

#[test]
fn timestamp_rejects_bad_text() {
    assert!(matches!(Timestamp::decode(""), Err(ValueError::Timestamp)));
    assert!(matches!(Timestamp::decode("12a"), Err(ValueError::Timestamp)));
    assert!(matches!(Timestamp::decode("-1"), Err(ValueError::Timestamp)));
    // past the last instant chrono represents: out of the renderer's range
    assert!(matches!(Timestamp::decode("8210266876800"), Err(ValueError::Timestamp)));
    assert!(Timestamp::decode("8210266876799").is_ok());
}

#[test]
fn timestamp_covers_far_future_years() {
    let t = Timestamp::decode("253402300799").unwrap();
    assert_eq!(t.render(), "9999-12-31 23:59:59 UTC");
    assert!(Timestamp::decode("253402300800").is_ok());
}

#[test]
fn tier_decodes_any_integer_code() {
    assert!(matches!(Tier::decode("0"), Ok(Tier::Normal)));
    assert!(matches!(Tier::decode("00"), Ok(Tier::Normal)));
    assert!(matches!(Tier::decode("-0"), Ok(Tier::Normal)));
    assert!(matches!(Tier::decode("1"), Ok(Tier::Pro)));
    assert!(matches!(Tier::decode("01"), Ok(Tier::Pro)));
    assert!(matches!(Tier::decode("2"), Ok(Tier::Unknown)));
    assert!(matches!(Tier::decode("-1"), Ok(Tier::Unknown)));
    assert!(matches!(Tier::decode("300"), Ok(Tier::Unknown)));
    assert!(matches!(Tier::decode("99999999999999999999999"), Ok(Tier::Unknown)));
    assert!(matches!(Tier::decode(""), Err(ValueError::Integer)));
    assert!(matches!(Tier::decode("-"), Err(ValueError::Integer)));
    assert!(matches!(Tier::decode("platinum"), Err(ValueError::Integer)));
    assert!(matches!(Tier::decode("1.5"), Err(ValueError::Integer)));
}

#[test]
fn website_empty_is_absent() {
    let w = Website::decode("").unwrap();
    assert!(matches!(w, Website::Absent));
    assert_eq!(w.render(), "<No website>");
}

#[test]
fn website_url_round_trips() {
    let w = Website::decode("https://example.com/page").unwrap();
    assert_eq!(w.render(), "https://example.com/page");
}

#[test]
fn website_rejects_bad_urls() {
    assert!(matches!(Website::decode("not a url"), Err(ValueError::Url)));
    assert!(matches!(Website::decode("/relative/only"), Err(ValueError::Url)));
}

#[test]
fn url_parsing_normalizes() {
    // the parser must hand back the URL's serialization, not its input
    assert_eq!(parse_absolute_url("HTTPS://Example.COM").unwrap(), "https://example.com/");
    assert_eq!(parse_absolute_url("https://example.com/a/../b").unwrap(), "https://example.com/b");
}

#[test]
fn digits_parse_and_render() {
    assert_eq!(parse_u64("0"), Some(0));
    assert_eq!(parse_u64("18446744073709551615"), Some(u64::MAX));
    assert_eq!(parse_u64("18446744073709551616"), None);
    assert_eq!(parse_u64(""), None);
    assert_eq!(parse_u64("+3"), None);
    assert_eq!(u64_to_string(0), "0");
    assert_eq!(u64_to_string(90210), "90210");
    assert_eq!(u64_to_string(u64::MAX), "18446744073709551615");
}
