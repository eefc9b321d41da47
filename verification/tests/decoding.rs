//! Tests of the response decoder: account info, paste lists, raw text, and
//! the reports rendered from the decoded records.

use pastebin::DecodeError;
use pastebin::Emphasis;
use pastebin::Privacy;
use pastebin::Tier;
use pastebin::ValueError;
use pastebin::Website;
use pastebin::decode_account_info;
use pastebin::decode_paste_list;
use pastebin::decode_raw_text;
use pastebin::is_permission_denied;
use pastebin::paste_list_report;

fn info_xml(tier: &str, private: &str, location: &str, website: &str) -> String {
    format!(
        "<user>\
         <user_name>alice</user_name>\
         <user_private>{private}</user_private>\
         <user_website>{website}</user_website>\
         <user_email>alice@example.com</user_email>\
         <user_location>{location}</user_location>\
         <user_account_type>{tier}</user_account_type>\
         </user>"
    )
}

fn paste_xml(key: &str, date: &str, title: &str, size: &str) -> String {
    format!(
        "<paste>\
         <paste_key>{key}</paste_key>\
         <paste_date>{date}</paste_date>\
         <paste_title>{title}</paste_title>\
         <paste_size>{size}</paste_size>\
         <paste_expire_date>1609459200</paste_expire_date>\
         <paste_private>0</paste_private>\
         <paste_format_long>Rust</paste_format_long>\
         <paste_url>https://example.com/{key}</paste_url>\
         <paste_hits>42</paste_hits>\
         </paste>"
    )
}

#[test]
fn account_info_decodes() {
    let xml = info_xml("1", "2", "Zurich", "https://alice.example.com/");
    let a = decode_account_info(&xml).unwrap();
    assert_eq!(a.name, "alice");
    assert_eq!(a.privacy, Privacy::Private);
    assert!(matches!(&a.website, Website::Present { url } if url == "https://alice.example.com/"));
    assert_eq!(a.email, "alice@example.com");
    assert_eq!(a.location, "Zurich");
    assert_eq!(a.tier, Tier::Pro);
}

#[test]
fn account_info_ignores_unknown_fields() {
    let xml = "<user><user_extra>x</user_extra>\
               <user_name>bob</user_name>\
               <user_private>0</user_private>\
               <user_website></user_website>\
               <user_email>b@example.com</user_email>\
               <user_location></user_location>\
               <user_account_type>0</user_account_type></user>";
    let a = decode_account_info(xml).unwrap();
    assert_eq!(a.name, "bob");
}

#[test]
fn account_info_missing_field_is_named() {
    let xml = "<user><user_name>bob</user_name></user>";
    let e = decode_account_info(xml).unwrap_err();
    match &e {
        DecodeError::MissingField { field } => assert_eq!(field, "user_private"),
        other => panic!("unexpected error {other:?}"),
    }
    assert_eq!(e.message(), "missing field `user_private`");
}

#[test]
fn account_info_bad_privacy_is_reported() {
    let xml = info_xml("0", "9", "", "");
    let e = decode_account_info(&xml).unwrap_err();
    match &e {
        DecodeError::BadValue { entry, field, value, why } => {
            assert_eq!(*entry, 1);
            assert_eq!(field, "user_private");
            assert_eq!(value, "9");
            assert_eq!(*why, ValueError::PrivacyCode);
        }
        other => panic!("unexpected error {other:?}"),
    }
}

#[test]
fn account_info_malformed_xml() {
    assert!(matches!(decode_account_info("<user><user_name>x</user>"), Err(DecodeError::Malformed)));
    assert!(matches!(decode_account_info("not xml at all"), Err(DecodeError::Malformed)));
    assert!(matches!(decode_account_info("<user></user> trailing"), Err(DecodeError::Malformed)));
}

#[test]
fn unknown_tier_renders_placeholder_not_error() {
    let xml = info_xml("2", "0", "", "");
    let a = decode_account_info(&xml).unwrap();
    assert_eq!(a.tier, Tier::Unknown);
    let report = a.report();
    assert!(report.contains("account type: <No account type>\n"));
    // any integer outside the recognized codes decodes, sign and size included
    for code in ["-1", "300", "18446744073709551616"] {
        let a = decode_account_info(&info_xml(code, "0", "", "")).unwrap();
        assert_eq!(a.tier, Tier::Unknown);
    }
}

#[test]
fn end_to_end_info_report_field_order() {
    let xml = info_xml("0", "1", "", "");
    let a = decode_account_info(&xml).unwrap();
    let report = a.report();
    assert_eq!(
        report,
        "username:     alice\n\
         privacy:      Unlisted\n\
         website link: <No website>\n\
         email:        alice@example.com\n\
         location:     <No location>\n\
         account type: normal\n"
    );
}

#[test]
fn info_segments_carry_emphasis_categories() {
    let xml = info_xml("5", "0", "", "");
    let a = decode_account_info(&xml).unwrap();
    let segs = a.report_segments();
    let text: String = segs.iter().map(|s| s.text.as_str()).collect::<Vec<_>>().join("");
    assert_eq!(text, a.report());
    assert!(segs.iter().any(|s| s.text == "alice" && s.emphasis == Emphasis::Strong));
    assert!(segs.iter().any(|s| s.text == "<No account type>" && s.emphasis == Emphasis::Missing));
    assert!(segs.iter().any(|s| s.text == "<No website>" && s.emphasis == Emphasis::Missing));
    assert!(segs.iter().any(|s| s.text == "Public" && s.emphasis == Emphasis::Privacy));
}

#[test]
fn empty_list_decodes_to_empty_sequence() {
    assert_eq!(decode_paste_list("").unwrap().len(), 0);
    assert_eq!(decode_paste_list("  \n\t ").unwrap().len(), 0);
}

#[test]
fn paste_list_decodes_in_order() {
    let xml = format!(
        "{}\n{}",
        paste_xml("k1", "0", "first", "10"),
        paste_xml("k2", "1431648000", "second", "2048")
    );
    let ps = decode_paste_list(&xml).unwrap();
    assert_eq!(ps.len(), 2);
    assert_eq!(ps[0].key, "k1");
    assert_eq!(ps[0].title, "first");
    assert_eq!(ps[0].hits, 42);
    assert_eq!(ps[1].key, "k2");
    assert_eq!(ps[1].size.bytes, 2048);
    assert_eq!(ps[1].date.secs, 1431648000);
    assert_eq!(ps[1].url, "https://example.com/k2");
}

#[test]
fn bad_timestamp_in_entry_three_fails_whole_decode() {
    let xml = format!(
        "{}{}{}{}{}",
        paste_xml("k1", "0", "a", "1"),
        paste_xml("k2", "0", "b", "2"),
        paste_xml("k3", "not-a-number", "c", "3"),
        paste_xml("k4", "0", "d", "4"),
        paste_xml("k5", "0", "e", "5")
    );
    let e = decode_paste_list(&xml).unwrap_err();
    match &e {
        DecodeError::BadValue { entry, field, value, why } => {
            assert_eq!(*entry, 3);
            assert_eq!(field, "paste_date");
            assert_eq!(value, "not-a-number");
            assert_eq!(*why, ValueError::Timestamp);
        }
        other => panic!("unexpected error {other:?}"),
    }
    assert_eq!(
        e.message(),
        "entry 3: field `paste_date` has value `not-a-number`: not an epoch timestamp"
    );
}

#[test]
fn empty_title_renders_placeholder() {
    let xml = paste_xml("k1", "0", "", "10");
    let ps = decode_paste_list(&xml).unwrap();
    let report = ps[0].report();
    assert!(report.contains("title:       <No title>\n"));
    let xml2 = paste_xml("k1", "0", "My snippet", "10");
    let ps2 = decode_paste_list(&xml2).unwrap();
    assert!(ps2[0].report().contains("title:       My snippet\n"));
}

#[test]
fn paste_report_full_layout() {
    let xml = paste_xml("abc123", "0", "notes", "1536");
    let ps = decode_paste_list(&xml).unwrap();
    assert_eq!(
        ps[0].report(),
        "key:         abc123\n\
         date:        1970-01-01 00:00:00 UTC\n\
         title:       notes\n\
         size:        1.50KB\n\
         expire date: 2021-01-01 00:00:00 UTC\n\
         privacy:     Public\n\
         format:      Rust\n\
         url:         https://example.com/abc123\n\
         hits:        42\n"
    );
}

#[test]
fn list_report_joins_with_blank_line() {
    let xml = format!("{}{}", paste_xml("k1", "0", "a", "1"), paste_xml("k2", "0", "b", "2"));
    let ps = decode_paste_list(&xml).unwrap();
    let joined = paste_list_report(&ps);
    let first = ps[0].report();
    let second = ps[1].report();
    assert_eq!(joined, format!("{first}\n{second}"));
    assert_eq!(paste_list_report(&Vec::new()), "");
}

#[test]
fn entities_decode_in_field_text() {
    let xml = paste_xml("k1", "0", "a &amp; b &lt;tag&gt; &quot;q&quot; &apos;s&apos;", "10");
    let ps = decode_paste_list(&xml).unwrap();
    assert_eq!(ps[0].title, "a & b <tag> \"q\" 's'");
}

#[test]
fn bare_ampersand_is_malformed() {
    let xml = paste_xml("k1", "0", "a & b", "10");
    assert!(matches!(decode_paste_list(&xml), Err(DecodeError::Malformed)));
}

#[test]
fn bad_size_is_a_number_error() {
    let xml = paste_xml("k1", "0", "t", "12kb");
    let e = decode_paste_list(&xml).unwrap_err();
    match &e {
        DecodeError::BadValue { entry, field, why, .. } => {
            assert_eq!(*entry, 1);
            assert_eq!(field, "paste_size");
            assert_eq!(*why, ValueError::Number);
        }
        other => panic!("unexpected error {other:?}"),
    }
}

#[test]
fn bad_url_is_a_url_error() {
    let xml = paste_xml("k1", "0", "t", "10").replace(
        "<paste_url>https://example.com/k1</paste_url>",
        "<paste_url>no scheme here</paste_url>",
    );
    let e = decode_paste_list(&xml).unwrap_err();
    match &e {
        DecodeError::BadValue { field, why, .. } => {
            assert_eq!(field, "paste_url");
            assert_eq!(*why, ValueError::Url);
        }
        other => panic!("unexpected error {other:?}"),
    }
}

#[test]
fn non_integer_tier_is_an_integer_error() {
    let xml = info_xml("platinum", "0", "", "");
    let e = decode_account_info(&xml).unwrap_err();
    match &e {
        DecodeError::BadValue { field, why, .. } => {
            assert_eq!(field, "user_account_type");
            assert_eq!(*why, ValueError::Integer);
        }
        other => panic!("unexpected error {other:?}"),
    }
}

#[test]
fn whitespace_between_fields_is_fine() {
    let xml = "<user>\n  <user_name>carol</user_name>\n\
               \t<user_private>1</user_private>\n\
               <user_website></user_website>\n\
               <user_email>c@example.com</user_email>\n\
               <user_location>here</user_location>\n\
               <user_account_type>0</user_account_type>\n</user>\n";
    let a = decode_account_info(xml).unwrap();
    assert_eq!(a.name, "carol");
    assert_eq!(a.privacy, Privacy::Unlisted);
    assert_eq!(a.location, "here");
}

#[test]
fn nested_elements_are_malformed() {
    let xml = "<user><user_name><b>x</b></user_name></user>";
    assert!(matches!(decode_account_info(xml), Err(DecodeError::Malformed)));
}

#[test]
fn mismatched_close_tag_is_malformed() {
    let xml = "<user><user_name>x</user_email></user>";
    assert!(matches!(decode_account_info(xml), Err(DecodeError::Malformed)));
}

#[test]
fn unknown_entity_is_malformed() {
    let xml = paste_xml("k1", "0", "a &copy; b", "10");
    assert!(matches!(decode_paste_list(&xml), Err(DecodeError::Malformed)));
}

#[test]
fn first_field_occurrence_wins() {
    let xml = "<user><user_name>first</user_name><user_name>second</user_name>\
               <user_private>0</user_private>\
               <user_website></user_website>\
               <user_email>e@example.com</user_email>\
               <user_location></user_location>\
               <user_account_type>0</user_account_type></user>";
    let a = decode_account_info(xml).unwrap();
    assert_eq!(a.name, "first");
}

#[test]
fn raw_text_passes_through() {
    let body = String::from("fn main() {}\n");
    assert_eq!(decode_raw_text(body.clone()), body);
}

#[test]
fn permission_denied_matches_exactly() {
    assert!(is_permission_denied(
        "Bad API request, invalid permission to view this paste or invalid api_paste_key"
    ));
    assert!(!is_permission_denied("Bad API request, invalid api_option"));
    assert!(!is_permission_denied(""));
}
