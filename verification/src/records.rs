//! The typed records decoded from the provider's responses: one account
//! snapshot, a list of paste summaries, and the raw pass-through text, each
//! with its exact decode specification.

use vstd::prelude::*;

use crate::digits::spec_parse_u64;
use crate::error::DecodeError;
use crate::error::ErrorModel;
use crate::error::ValueError;
use crate::privacy::Privacy;
use crate::privacy::spec_privacy_decode;
use crate::size::ByteSize;
use crate::tier::Tier;
use crate::tier::spec_tier_decode;
use crate::timestamp::Timestamp;
use crate::timestamp::spec_timestamp_decode;
use crate::website::Website;
use crate::website::spec_website_decode;
use crate::website::parse_absolute_url;
use crate::website::url_parse_of;
use crate::xml::Field;
use crate::xml::doc_record;
use crate::xml::fields_view;
use crate::xml::lookup;
use crate::xml::parse_records;
use crate::xml::records_view;
use crate::xml::spec_doc_record;
use crate::xml::spec_lookup;
use crate::xml::spec_parse_records;

verus! {

/// Mathematical model of an account snapshot.
pub struct AccountModel {
    pub name: Seq<char>,
    pub privacy: Privacy,
    pub website: Option<Seq<char>>,
    pub email: Seq<char>,
    pub location: Seq<char>,
    pub tier: Tier,
}

/// One user's account snapshot.
#[derive(Debug)]
pub struct AccountInfo {
    pub name: String,
    pub privacy: Privacy,
    pub website: Website,
    pub email: String,
    pub location: String,
    pub tier: Tier,
}

impl View for AccountInfo {
    type V = AccountModel;

    open spec fn view(&self) -> AccountModel {
        AccountModel {
            name: self.name@,
            privacy: self.privacy,
            website: self.website@,
            email: self.email@,
            location: self.location@,
            tier: self.tier,
        }
    }
}

/// Mathematical model of one paste summary.
pub struct PasteModel {
    pub key: Seq<char>,
    pub date: Timestamp,
    pub title: Seq<char>,
    pub size: ByteSize,
    pub expire: Timestamp,
    pub privacy: Privacy,
    pub format: Seq<char>,
    pub url: Seq<char>,
    pub hits: u64,
}

/// One entry of a user's paste list.
#[derive(Debug)]
pub struct PasteSummary {
    pub key: String,
    pub date: Timestamp,
    pub title: String,
    pub size: ByteSize,
    pub expire: Timestamp,
    pub privacy: Privacy,
    pub format: String,
    pub url: String,
    pub hits: u64,
}

impl View for PasteSummary {
    type V = PasteModel;

    open spec fn view(&self) -> PasteModel {
        PasteModel {
            key: self.key@,
            date: self.date,
            title: self.title@,
            size: self.size,
            expire: self.expire,
            privacy: self.privacy,
            format: self.format@,
            url: self.url@,
            hits: self.hits,
        }
    }
}

impl PasteSummary {
    /// Both instants are within the renderer's range, as decoding ensures.
    pub open spec fn wf(&self) -> bool {
        self.date.wf() && self.expire.wf()
    }
}

/// The models of a list of paste summaries.
pub open spec fn pastes_view(ps: Seq<PasteSummary>) -> Seq<PasteModel> {
    ps.map_values(|p: PasteSummary| p@)
}

/// Decode an account record from its fields. Fields are taken in the record's
/// declared order: name, privacy, website, email, location, tier; a missing
/// required field or a rejected value fails the whole decode.
pub open spec fn spec_account_from_fields(fs: Seq<(Seq<char>, Seq<char>)>) -> Result<
    AccountModel,
    ErrorModel,
> {
    match spec_lookup(fs, "user_name"@) {
        None => Err(ErrorModel::MissingField { field: "user_name"@ }),
        Some(name) => match spec_lookup(fs, "user_private"@) {
            None => Err(ErrorModel::MissingField { field: "user_private"@ }),
            Some(pv) => match spec_privacy_decode(pv) {
                None => Err(
                    ErrorModel::BadValue {
                        entry: 1,
                        field: "user_private"@,
                        value: pv,
                        why: ValueError::PrivacyCode,
                    },
                ),
                Some(privacy) => match spec_lookup(fs, "user_website"@) {
                    None => Err(ErrorModel::MissingField { field: "user_website"@ }),
                    Some(wv) => match spec_website_decode(wv) {
                        Err(we) => Err(
                            ErrorModel::BadValue {
                                entry: 1,
                                field: "user_website"@,
                                value: wv,
                                why: we,
                            },
                        ),
                        Ok(website) => match spec_lookup(fs, "user_email"@) {
                            None => Err(ErrorModel::MissingField { field: "user_email"@ }),
                            Some(email) => match spec_lookup(fs, "user_location"@) {
                                None => Err(ErrorModel::MissingField { field: "user_location"@ }),
                                Some(location) => match spec_lookup(fs, "user_account_type"@) {
                                    None => Err(
                                        ErrorModel::MissingField { field: "user_account_type"@ },
                                    ),
                                    Some(tv) => match spec_tier_decode(tv) {
                                        None => Err(
                                            ErrorModel::BadValue {
                                                entry: 1,
                                                field: "user_account_type"@,
                                                value: tv,
                                                why: ValueError::Integer,
                                            },
                                        ),
                                        Some(tier) => Ok(
                                            AccountModel {
                                                name,
                                                privacy,
                                                website,
                                                email,
                                                location,
                                                tier,
                                            },
                                        ),
                                    },
                                },
                            },
                        },
                    },
                },
            },
        },
    }
}

/// What decoding an account-info response yields: the account record of a
/// well-formed one-record `user` document, or the error naming what failed.
pub open spec fn spec_decode_account_info(s: Seq<char>) -> Result<AccountModel, ErrorModel> {
    match spec_doc_record(s, "user"@) {
        None => Err(ErrorModel::Malformed),
        Some(fs) => spec_account_from_fields(fs),
    }
}

/// Decode one paste record from its fields, as entry number `entry` of the
/// list. Fields are taken in the record's declared order: key, date, title,
/// size, expiry, privacy, format, URL, hits.
pub open spec fn spec_paste_from_fields(fs: Seq<(Seq<char>, Seq<char>)>, entry: nat) -> Result<
    PasteModel,
    ErrorModel,
> {
    match spec_lookup(fs, "paste_key"@) {
        None => Err(ErrorModel::MissingField { field: "paste_key"@ }),
        Some(key) => match spec_lookup(fs, "paste_date"@) {
            None => Err(ErrorModel::MissingField { field: "paste_date"@ }),
            Some(dv) => match spec_timestamp_decode(dv) {
                Err(de) => Err(
                    ErrorModel::BadValue { entry, field: "paste_date"@, value: dv, why: de },
                ),
                Ok(date) => match spec_lookup(fs, "paste_title"@) {
                    None => Err(ErrorModel::MissingField { field: "paste_title"@ }),
                    Some(title) => match spec_lookup(fs, "paste_size"@) {
                        None => Err(ErrorModel::MissingField { field: "paste_size"@ }),
                        Some(sv) => match spec_parse_u64(sv) {
                            None => Err(
                                ErrorModel::BadValue {
                                    entry,
                                    field: "paste_size"@,
                                    value: sv,
                                    why: ValueError::Number,
                                },
                            ),
                            Some(size) => match spec_lookup(fs, "paste_expire_date"@) {
                                None => Err(
                                    ErrorModel::MissingField { field: "paste_expire_date"@ },
                                ),
                                Some(ev) => match spec_timestamp_decode(ev) {
                                    Err(ee) => Err(
                                        ErrorModel::BadValue {
                                            entry,
                                            field: "paste_expire_date"@,
                                            value: ev,
                                            why: ee,
                                        },
                                    ),
                                    Ok(expire) => match spec_lookup(fs, "paste_private"@) {
                                        None => Err(
                                            ErrorModel::MissingField { field: "paste_private"@ },
                                        ),
                                        Some(pv) => match spec_privacy_decode(pv) {
                                            None => Err(
                                                ErrorModel::BadValue {
                                                    entry,
                                                    field: "paste_private"@,
                                                    value: pv,
                                                    why: ValueError::PrivacyCode,
                                                },
                                            ),
                                            Some(privacy) => match spec_lookup(
                                                fs,
                                                "paste_format_long"@,
                                            ) {
                                                None => Err(
                                                    ErrorModel::MissingField {
                                                        field: "paste_format_long"@,
                                                    },
                                                ),
                                                Some(format) => match spec_lookup(
                                                    fs,
                                                    "paste_url"@,
                                                ) {
                                                    None => Err(
                                                        ErrorModel::MissingField {
                                                            field: "paste_url"@,
                                                        },
                                                    ),
                                                    Some(uv) => match url_parse_of(uv) {
                                                        None => Err(
                                                            ErrorModel::BadValue {
                                                                entry,
                                                                field: "paste_url"@,
                                                                value: uv,
                                                                why: ValueError::Url,
                                                            },
                                                        ),
                                                        Some(url) => match spec_lookup(
                                                            fs,
                                                            "paste_hits"@,
                                                        ) {
                                                            None => Err(
                                                                ErrorModel::MissingField {
                                                                    field: "paste_hits"@,
                                                                },
                                                            ),
                                                            Some(hv) => match spec_parse_u64(hv) {
                                                                None => Err(
                                                                    ErrorModel::BadValue {
                                                                        entry,
                                                                        field: "paste_hits"@,
                                                                        value: hv,
                                                                        why: ValueError::Number,
                                                                    },
                                                                ),
                                                                Some(hits) => Ok(
                                                                    PasteModel {
                                                                        key,
                                                                        date,
                                                                        title,
                                                                        size: ByteSize {
                                                                            bytes: size,
                                                                        },
                                                                        expire,
                                                                        privacy,
                                                                        format,
                                                                        url,
                                                                        hits,
                                                                    },
                                                                ),
                                                            },
                                                        },
                                                    },
                                                },
                                            },
                                        },
                                    },
                                },
                            },
                        },
                    },
                },
            },
        },
    }
}

/// Decode the records of a paste list in order, counting entries from
/// `entry`; the first failing entry fails the whole decode with its error.
pub open spec fn spec_pastes_from_records(
    rs: Seq<Seq<(Seq<char>, Seq<char>)>>,
    entry: nat,
) -> Result<Seq<PasteModel>, ErrorModel>
    decreases rs.len(),
{
    if rs.len() == 0 {
        Ok(Seq::empty())
    } else {
        match spec_paste_from_fields(rs[0], entry) {
            Err(e) => Err(e),
            Ok(p) => match spec_pastes_from_records(rs.drop_first(), entry + 1) {
                Err(e) => Err(e),
                Ok(rest) => Ok(seq![p] + rest),
            },
        }
    }
}

/// What decoding a paste-list response yields: the summaries in response
/// order — an empty document is an empty list, not an error — or the error
/// naming the first failing entry and field.
pub open spec fn spec_decode_paste_list(s: Seq<char>) -> Result<Seq<PasteModel>, ErrorModel> {
    match spec_parse_records(s, 0, "paste"@) {
        None => Err(ErrorModel::Malformed),
        Some(rs) => spec_pastes_from_records(rs, 1),
    }
}

/// Decode the account-info response body.
pub fn decode_account_info(s: &str) -> (r: Result<AccountInfo, DecodeError>)
    ensures
        match r {
            Ok(a) => spec_decode_account_info(s@) == Ok::<AccountModel, ErrorModel>(a@),
            Err(e) => spec_decode_account_info(s@) == Err::<AccountModel, ErrorModel>(e@),
        },
{
    let fs = match doc_record(s, "user") {
        Some(fs) => fs,
        None => {
            return Err(DecodeError::Malformed);
        },
    };
    let name = match lookup(&fs, "user_name") {
        Some(v) => v,
        None => {
            return Err(DecodeError::MissingField { field: String::from_str("user_name") });
        },
    };
    let pv = match lookup(&fs, "user_private") {
        Some(v) => v,
        None => {
            return Err(DecodeError::MissingField { field: String::from_str("user_private") });
        },
    };
    let privacy = match Privacy::decode(pv.as_str()) {
        Ok(p) => p,
        Err(why) => {
            return Err(
                DecodeError::BadValue {
                    entry: 1,
                    field: String::from_str("user_private"),
                    value: pv,
                    why,
                },
            );
        },
    };
    let wv = match lookup(&fs, "user_website") {
        Some(v) => v,
        None => {
            return Err(DecodeError::MissingField { field: String::from_str("user_website") });
        },
    };
    let website = match Website::decode(wv.as_str()) {
        Ok(w) => w,
        Err(why) => {
            return Err(
                DecodeError::BadValue {
                    entry: 1,
                    field: String::from_str("user_website"),
                    value: wv,
                    why,
                },
            );
        },
    };
    let email = match lookup(&fs, "user_email") {
        Some(v) => v,
        None => {
            return Err(DecodeError::MissingField { field: String::from_str("user_email") });
        },
    };
    let location = match lookup(&fs, "user_location") {
        Some(v) => v,
        None => {
            return Err(DecodeError::MissingField { field: String::from_str("user_location") });
        },
    };
    let tv = match lookup(&fs, "user_account_type") {
        Some(v) => v,
        None => {
            return Err(DecodeError::MissingField { field: String::from_str("user_account_type") });
        },
    };
    let tier = match Tier::decode(tv.as_str()) {
        Ok(t) => t,
        Err(why) => {
            return Err(
                DecodeError::BadValue {
                    entry: 1,
                    field: String::from_str("user_account_type"),
                    value: tv,
                    why,
                },
            );
        },
    };
    Ok(AccountInfo { name, privacy, website, email, location, tier })
}

/// Decode one paste record as entry number `entry`.
fn decode_paste_entry(fs: &Vec<Field>, entry: u64) -> (r: Result<PasteSummary, DecodeError>)
    ensures
        match r {
            Ok(p) => spec_paste_from_fields(fields_view(fs@), entry as nat) == Ok::<
                PasteModel,
                ErrorModel,
            >(p@) && p.wf(),
            Err(e) => spec_paste_from_fields(fields_view(fs@), entry as nat) == Err::<
                PasteModel,
                ErrorModel,
            >(e@),
        },
{
    let key = match lookup(fs, "paste_key") {
        Some(v) => v,
        None => {
            return Err(DecodeError::MissingField { field: String::from_str("paste_key") });
        },
    };
    let dv = match lookup(fs, "paste_date") {
        Some(v) => v,
        None => {
            return Err(DecodeError::MissingField { field: String::from_str("paste_date") });
        },
    };
    let date = match Timestamp::decode(dv.as_str()) {
        Ok(t) => t,
        Err(why) => {
            return Err(
                DecodeError::BadValue {
                    entry,
                    field: String::from_str("paste_date"),
                    value: dv,
                    why,
                },
            );
        },
    };
    let title = match lookup(fs, "paste_title") {
        Some(v) => v,
        None => {
            return Err(DecodeError::MissingField { field: String::from_str("paste_title") });
        },
    };
    let sv = match lookup(fs, "paste_size") {
        Some(v) => v,
        None => {
            return Err(DecodeError::MissingField { field: String::from_str("paste_size") });
        },
    };
    let size = match crate::digits::parse_u64(sv.as_str()) {
        Some(b) => ByteSize::new(b),
        None => {
            return Err(
                DecodeError::BadValue {
                    entry,
                    field: String::from_str("paste_size"),
                    value: sv,
                    why: ValueError::Number,
                },
            );
        },
    };
    let ev = match lookup(fs, "paste_expire_date") {
        Some(v) => v,
        None => {
            return Err(DecodeError::MissingField { field: String::from_str("paste_expire_date") });
        },
    };
    let expire = match Timestamp::decode(ev.as_str()) {
        Ok(t) => t,
        Err(why) => {
            return Err(
                DecodeError::BadValue {
                    entry,
                    field: String::from_str("paste_expire_date"),
                    value: ev,
                    why,
                },
            );
        },
    };
    let pv = match lookup(fs, "paste_private") {
        Some(v) => v,
        None => {
            return Err(DecodeError::MissingField { field: String::from_str("paste_private") });
        },
    };
    let privacy = match Privacy::decode(pv.as_str()) {
        Ok(p) => p,
        Err(why) => {
            return Err(
                DecodeError::BadValue {
                    entry,
                    field: String::from_str("paste_private"),
                    value: pv,
                    why,
                },
            );
        },
    };
    let format = match lookup(fs, "paste_format_long") {
        Some(v) => v,
        None => {
            return Err(DecodeError::MissingField { field: String::from_str("paste_format_long") });
        },
    };
    let uv = match lookup(fs, "paste_url") {
        Some(v) => v,
        None => {
            return Err(DecodeError::MissingField { field: String::from_str("paste_url") });
        },
    };
    let url = match parse_absolute_url(uv.as_str()) {
        Ok(u) => u,
        Err(why) => {
            return Err(
                DecodeError::BadValue {
                    entry,
                    field: String::from_str("paste_url"),
                    value: uv,
                    why,
                },
            );
        },
    };
    let hv = match lookup(fs, "paste_hits") {
        Some(v) => v,
        None => {
            return Err(DecodeError::MissingField { field: String::from_str("paste_hits") });
        },
    };
    let hits = match crate::digits::parse_u64(hv.as_str()) {
        Some(h) => h,
        None => {
            return Err(
                DecodeError::BadValue {
                    entry,
                    field: String::from_str("paste_hits"),
                    value: hv,
                    why: ValueError::Number,
                },
            );
        },
    };
    Ok(PasteSummary { key, date, title, size, expire, privacy, format, url, hits })
}

/// Decode the paste-list response body. The list keeps the response order,
/// and every decoded entry is within the renderer's range.
pub fn decode_paste_list(s: &str) -> (r: Result<Vec<PasteSummary>, DecodeError>)
    ensures
        match r {
            Ok(ps) => spec_decode_paste_list(s@) == Ok::<Seq<PasteModel>, ErrorModel>(
                pastes_view(ps@),
            ) && (forall|k: int| 0 <= k < ps@.len() ==> (#[trigger] ps@[k]).wf()),
            Err(e) => spec_decode_paste_list(s@) == Err::<Seq<PasteModel>, ErrorModel>(e@),
        },
{
    let rs = match parse_records(s, "paste") {
        Some(rs) => rs,
        None => {
            return Err(DecodeError::Malformed);
        },
    };
    let n = rs.len();
    let mut out: Vec<PasteSummary> = Vec::new();
    let mut k: usize = 0;
    proof {
        assert(records_view(rs@).skip(0) =~= records_view(rs@));
        assert(pastes_view(out@) =~= Seq::<PasteModel>::empty());
    }
    while k < n
        invariant
            0 <= k <= n,
            n == rs@.len(),
            spec_decode_paste_list(s@) == spec_pastes_from_records(records_view(rs@), 1),
            forall|h: int| 0 <= h < out@.len() ==> (#[trigger] out@[h]).wf(),
            match spec_pastes_from_records(records_view(rs@).skip(k as int), k as nat + 1) {
                Ok(rest) => spec_pastes_from_records(records_view(rs@), 1) == Ok::<
                    Seq<PasteModel>,
                    ErrorModel,
                >(pastes_view(out@) + rest),
                Err(e) => spec_pastes_from_records(records_view(rs@), 1) == Err::<
                    Seq<PasteModel>,
                    ErrorModel,
                >(e),
            },
        decreases n - k,
    {
        let ghost rv = records_view(rs@);
        proof {
            assert(rv.skip(k as int)[0] == rv[k as int]);
            assert(rv[k as int] == fields_view(rs@[k as int]@));
        }
        match decode_paste_entry(&rs[k], (k as u64) + 1) {
            Err(e) => {
                return Err(e);
            },
            Ok(p) => {
                let ghost pre = out@;
                let ghost pm = p@;
                out.push(p);
                proof {
                    assert(rv.skip(k as int).drop_first() =~= rv.skip(k as int + 1));
                    assert(pastes_view(out@) =~= pastes_view(pre) + seq![pm]);
                    match spec_pastes_from_records(rv.skip(k as int + 1), k as nat + 2) {
                        Ok(rest) => {
                            assert(pastes_view(pre) + (seq![pm] + rest) =~= pastes_view(out@)
                                + rest);
                        },
                        Err(e) => {},
                    }
                }
                k = k + 1;
            },
        }
    }
    proof {
        assert(records_view(rs@).skip(n as int) =~= Seq::<Seq<(Seq<char>, Seq<char>)>>::empty());
        assert(pastes_view(out@) + Seq::<PasteModel>::empty() =~= pastes_view(out@));
    }
    Ok(out)
}

/// Law: a paste-list document holding nothing but whitespace — the empty
/// body included — decodes to the empty list, not to an error.
pub proof fn lemma_empty_list_decodes(s: Seq<char>)
    requires
        forall|i: int| 0 <= i < s.len() ==> crate::xml::is_ws_char(#[trigger] s[i]),
    ensures
        spec_decode_paste_list(s) == Ok::<Seq<PasteModel>, ErrorModel>(Seq::<PasteModel>::empty()),
{
    crate::xml::lemma_skip_ws(s, 0);
    assert(crate::xml::spec_skip_ws(s, 0) == s.len());
    assert(spec_parse_records(s, 0, "paste"@) == Some(Seq::<Seq<(Seq<char>, Seq<char>)>>::empty()));
}

/// The paste-body and mutation responses carry plain text, passed through
/// verbatim.
pub fn decode_raw_text(s: String) -> (r: String)
    ensures
        r@ == s@,
{
    s
}

/// The provider's exact permission-denied body for a private paste fetched
/// through the authenticated endpoint; on this text, and only on this text,
/// a caller is expected to retry against the public endpoint.
pub fn is_permission_denied(s: &str) -> (r: bool)
    ensures
        r == (s@
            == "Bad API request, invalid permission to view this paste or invalid api_paste_key"@),
{
    crate::text::str_eq(
        s,
        "Bad API request, invalid permission to view this paste or invalid api_paste_key",
    )
}

} // verus!
