//! Plain-text reports of decoded records: one labelled line per field, in the
//! record's declared order, labels padded to a fixed column.
//!
//! A report is produced as a list of segments, each tagged with an emphasis
//! category; a styling layer outside this crate may map categories to colors,
//! and concatenating the segment texts yields the complete plain report.

use vstd::prelude::*;

use crate::digits::dec_of;
use crate::digits::u64_to_string;
use crate::privacy::spec_privacy_name;
use crate::records::AccountInfo;
use crate::records::AccountModel;
use crate::records::PasteModel;
use crate::records::PasteSummary;
use crate::records::pastes_view;
use crate::size::spec_size_render;
use crate::tier::Tier;
use crate::timestamp::utc_string_of;
use crate::website::Website;
use crate::website::spec_website_render;

verus! {

/// How a styling layer may decorate one piece of a report.
#[derive(Clone, Copy, Debug, PartialEq, Eq, Structural)]
pub enum Emphasis {
    /// No decoration.
    Plain,
    /// A leading name, set strongly.
    Strong,
    /// An address, underlined.
    Underline,
    /// A recognized value.
    Good,
    /// A missing-value placeholder.
    Missing,
    /// An opaque identifier.
    Key,
    /// A date.
    Date,
    /// A privacy level.
    Privacy,
}

/// One piece of a report: its text and its emphasis category.
#[derive(Debug)]
pub struct Segment {
    pub text: String,
    pub emphasis: Emphasis,
}

impl View for Segment {
    type V = (Seq<char>, Emphasis);

    open spec fn view(&self) -> (Seq<char>, Emphasis) {
        (self.text@, self.emphasis)
    }
}

/// The models of a list of segments.
pub open spec fn segments_view(v: Seq<Segment>) -> Seq<(Seq<char>, Emphasis)> {
    v.map_values(|s: Segment| s@)
}

/// The plain text of a report: its segment texts concatenated.
pub open spec fn segs_text(segs: Seq<(Seq<char>, Emphasis)>) -> Seq<char>
    decreases segs.len(),
{
    if segs.len() == 0 {
        Seq::empty()
    } else {
        segs[0].0 + segs_text(segs.drop_first())
    }
}

/// A paste title, with the placeholder for an empty one.
pub open spec fn spec_title_text(t: Seq<char>) -> Seq<char> {
    if t.len() == 0 {
        "<No title>"@
    } else {
        t
    }
}

/// An account location, with the placeholder for an empty one.
pub open spec fn spec_location_text(l: Seq<char>) -> Seq<char> {
    if l.len() == 0 {
        "<No location>"@
    } else {
        l
    }
}

/// An account tier's name: the recognized tiers by name, an unrecognized one
/// as the unknown-tier placeholder — never a decode failure.
pub open spec fn spec_tier_text(t: Tier) -> Seq<char> {
    match t {
        Tier::Normal => "normal"@,
        Tier::Pro => "pro"@,
        Tier::Unknown => "<No account type>"@,
    }
}

/// Recognized tiers read as good values; the unknown one as missing.
pub open spec fn spec_tier_emphasis(t: Tier) -> Emphasis {
    match t {
        Tier::Normal => Emphasis::Good,
        Tier::Pro => Emphasis::Good,
        Tier::Unknown => Emphasis::Missing,
    }
}

/// The segments of an account report, one labelled line per field in the
/// record's field order: name, privacy, website, email, location, tier.
pub open spec fn spec_account_segments(a: AccountModel) -> Seq<(Seq<char>, Emphasis)> {
    seq![
        ("username:     "@, Emphasis::Plain),
        (a.name, Emphasis::Strong),
        ("\n"@, Emphasis::Plain),
        ("privacy:      "@, Emphasis::Plain),
        (spec_privacy_name(a.privacy), Emphasis::Privacy),
        ("\n"@, Emphasis::Plain),
        ("website link: "@, Emphasis::Plain),
        (
            spec_website_render(a.website),
            if a.website is Some {
                Emphasis::Plain
            } else {
                Emphasis::Missing
            },
        ),
        ("\n"@, Emphasis::Plain),
        ("email:        "@, Emphasis::Plain),
        (a.email, Emphasis::Underline),
        ("\n"@, Emphasis::Plain),
        ("location:     "@, Emphasis::Plain),
        (
            spec_location_text(a.location),
            if a.location.len() == 0 {
                Emphasis::Missing
            } else {
                Emphasis::Plain
            },
        ),
        ("\n"@, Emphasis::Plain),
        ("account type: "@, Emphasis::Plain),
        (spec_tier_text(a.tier), spec_tier_emphasis(a.tier)),
        ("\n"@, Emphasis::Plain),
    ]
}

/// The plain text of an account report.
pub open spec fn spec_account_report(a: AccountModel) -> Seq<char> {
    segs_text(spec_account_segments(a))
}

/// The segments of one paste's report, one labelled line per field in the
/// record's field order: key, date, title, size, expiry, privacy, format,
/// URL, hits.
pub open spec fn spec_paste_segments(p: PasteModel) -> Seq<(Seq<char>, Emphasis)> {
    seq![
        ("key:         "@, Emphasis::Plain),
        (p.key, Emphasis::Key),
        ("\n"@, Emphasis::Plain),
        ("date:        "@, Emphasis::Plain),
        (utc_string_of(p.date.secs), Emphasis::Date),
        ("\n"@, Emphasis::Plain),
        ("title:       "@, Emphasis::Plain),
        (
            spec_title_text(p.title),
            if p.title.len() == 0 {
                Emphasis::Missing
            } else {
                Emphasis::Plain
            },
        ),
        ("\n"@, Emphasis::Plain),
        ("size:        "@, Emphasis::Plain),
        (spec_size_render(p.size.bytes), Emphasis::Plain),
        ("\n"@, Emphasis::Plain),
        ("expire date: "@, Emphasis::Plain),
        (utc_string_of(p.expire.secs), Emphasis::Date),
        ("\n"@, Emphasis::Plain),
        ("privacy:     "@, Emphasis::Plain),
        (spec_privacy_name(p.privacy), Emphasis::Privacy),
        ("\n"@, Emphasis::Plain),
        ("format:      "@, Emphasis::Plain),
        (p.format, Emphasis::Plain),
        ("\n"@, Emphasis::Plain),
        ("url:         "@, Emphasis::Plain),
        (p.url, Emphasis::Plain),
        ("\n"@, Emphasis::Plain),
        ("hits:        "@, Emphasis::Plain),
        (dec_of(p.hits as nat), Emphasis::Plain),
        ("\n"@, Emphasis::Plain),
    ]
}

/// The plain text of one paste's report.
pub open spec fn spec_paste_report(p: PasteModel) -> Seq<char> {
    segs_text(spec_paste_segments(p))
}

/// The reports of the tail of a list, each preceded by a blank joining line.
pub open spec fn spec_reports_joined(ps: Seq<PasteModel>) -> Seq<char>
    decreases ps.len(),
{
    if ps.len() == 0 {
        Seq::empty()
    } else {
        "\n"@ + spec_paste_report(ps[0]) + spec_reports_joined(ps.drop_first())
    }
}

/// The plain text of a whole paste list: the entries' reports in list order,
/// joined by a blank line; an empty list renders as empty text.
pub open spec fn spec_paste_list_report(ps: Seq<PasteModel>) -> Seq<char> {
    if ps.len() == 0 {
        Seq::empty()
    } else {
        spec_paste_report(ps[0]) + spec_reports_joined(ps.drop_first())
    }
}

/// Concatenate the texts of a report's segments.
pub fn render_segments(segs: &Vec<Segment>) -> (r: String)
    ensures
        r@ == segs_text(segments_view(segs@)),
{
    let n = segs.len();
    let mut out = String::new();
    let mut k: usize = 0;
    proof {
        assert(segments_view(segs@).skip(0) =~= segments_view(segs@));
    }
    while k < n
        invariant
            0 <= k <= n,
            n == segs@.len(),
            segs_text(segments_view(segs@)) == out@ + segs_text(segments_view(segs@).skip(k as int)),
        decreases n - k,
    {
        let ghost sv = segments_view(segs@);
        proof {
            assert(sv.skip(k as int)[0] == sv[k as int]);
            assert(sv[k as int] == segs@[k as int]@);
            assert(sv.skip(k as int).drop_first() =~= sv.skip(k as int + 1));
        }
        let ghost pre = out@;
        out.append(segs[k].text.as_str());
        proof {
            assert(pre + (sv[k as int].0 + segs_text(sv.skip(k as int + 1))) =~= out@ + segs_text(
                sv.skip(k as int + 1),
            ));
        }
        k = k + 1;
    }
    proof {
        assert(segments_view(segs@).skip(n as int) =~= Seq::<(Seq<char>, Emphasis)>::empty());
        assert(out@ + Seq::<char>::empty() =~= out@);
    }
    out
}

fn plain(s: &'static str) -> (r: Segment)
    ensures
        r@ == (s@, Emphasis::Plain),
{
    Segment { text: String::from_str(s), emphasis: Emphasis::Plain }
}

fn tier_segment(tier: Tier) -> (r: Segment)
    ensures
        r@ == (spec_tier_text(tier), spec_tier_emphasis(tier)),
{
    match tier {
        Tier::Normal => Segment { text: String::from_str("normal"), emphasis: Emphasis::Good },
        Tier::Pro => Segment { text: String::from_str("pro"), emphasis: Emphasis::Good },
        Tier::Unknown => Segment {
            text: String::from_str("<No account type>"),
            emphasis: Emphasis::Missing,
        },
    }
}

impl AccountInfo {
    /// The report of this account, as emphasis-tagged segments.
    pub fn report_segments(&self) -> (r: Vec<Segment>)
        ensures
            segments_view(r@) == spec_account_segments(self@),
    {
        let mut v: Vec<Segment> = Vec::new();
        v.push(plain("username:     "));
        v.push(Segment { text: self.name.clone(), emphasis: Emphasis::Strong });
        v.push(plain("\n"));
        v.push(plain("privacy:      "));
        v.push(Segment { text: self.privacy.display_name(), emphasis: Emphasis::Privacy });
        v.push(plain("\n"));
        v.push(plain("website link: "));
        let wseg = match &self.website {
            Website::Present { url } => Segment { text: url.clone(), emphasis: Emphasis::Plain },
            Website::Absent => Segment {
                text: String::from_str("<No website>"),
                emphasis: Emphasis::Missing,
            },
        };
        v.push(wseg);
        v.push(plain("\n"));
        v.push(plain("email:        "));
        v.push(Segment { text: self.email.clone(), emphasis: Emphasis::Underline });
        v.push(plain("\n"));
        v.push(plain("location:     "));
        let lseg = if self.location.as_str().is_empty() {
            Segment { text: String::from_str("<No location>"), emphasis: Emphasis::Missing }
        } else {
            Segment { text: self.location.clone(), emphasis: Emphasis::Plain }
        };
        v.push(lseg);
        v.push(plain("\n"));
        v.push(plain("account type: "));
        v.push(tier_segment(self.tier));
        v.push(plain("\n"));
        proof {
            assert(segments_view(v@) =~= spec_account_segments(self@));
        }
        v
    }

    /// The plain-text report of this account.
    pub fn report(&self) -> (r: String)
        ensures
            r@ == spec_account_report(self@),
    {
        let segs = self.report_segments();
        render_segments(&segs)
    }
}

impl PasteSummary {
    /// The report of this paste, as emphasis-tagged segments.
    pub fn report_segments(&self) -> (r: Vec<Segment>)
        requires
            self.wf(),
        ensures
            segments_view(r@) == spec_paste_segments(self@),
    {
        let mut v: Vec<Segment> = Vec::new();
        v.push(plain("key:         "));
        v.push(Segment { text: self.key.clone(), emphasis: Emphasis::Key });
        v.push(plain("\n"));
        v.push(plain("date:        "));
        v.push(Segment { text: self.date.render(), emphasis: Emphasis::Date });
        v.push(plain("\n"));
        v.push(plain("title:       "));
        let tseg = if self.title.as_str().is_empty() {
            Segment { text: String::from_str("<No title>"), emphasis: Emphasis::Missing }
        } else {
            Segment { text: self.title.clone(), emphasis: Emphasis::Plain }
        };
        v.push(tseg);
        v.push(plain("\n"));
        v.push(plain("size:        "));
        v.push(Segment { text: self.size.render(), emphasis: Emphasis::Plain });
        v.push(plain("\n"));
        v.push(plain("expire date: "));
        v.push(Segment { text: self.expire.render(), emphasis: Emphasis::Date });
        v.push(plain("\n"));
        v.push(plain("privacy:     "));
        v.push(Segment { text: self.privacy.display_name(), emphasis: Emphasis::Privacy });
        v.push(plain("\n"));
        v.push(plain("format:      "));
        v.push(Segment { text: self.format.clone(), emphasis: Emphasis::Plain });
        v.push(plain("\n"));
        v.push(plain("url:         "));
        v.push(Segment { text: self.url.clone(), emphasis: Emphasis::Plain });
        v.push(plain("\n"));
        v.push(plain("hits:        "));
        v.push(Segment { text: u64_to_string(self.hits), emphasis: Emphasis::Plain });
        v.push(plain("\n"));
        proof {
            assert(segments_view(v@) =~= spec_paste_segments(self@));
        }
        v
    }

    /// The plain-text report of this paste.
    pub fn report(&self) -> (r: String)
        requires
            self.wf(),
        ensures
            r@ == spec_paste_report(self@),
    {
        let segs = self.report_segments();
        render_segments(&segs)
    }
}

/// The plain-text report of a whole paste list, in list order.
pub fn paste_list_report(ps: &Vec<PasteSummary>) -> (r: String)
    requires
        forall|k: int| 0 <= k < ps@.len() ==> (#[trigger] ps@[k]).wf(),
    ensures
        r@ == spec_paste_list_report(pastes_view(ps@)),
{
    let n = ps.len();
    if n == 0 {
        proof {
            assert(pastes_view(ps@).len() == 0);
        }
        return String::new();
    }
    proof {
        assert(pastes_view(ps@)[0] == ps@[0]@);
    }
    let mut out = ps[0].report();
    let mut k: usize = 1;
    proof {
        assert(pastes_view(ps@).drop_first() =~= pastes_view(ps@).skip(1));
    }
    while k < n
        invariant
            1 <= k <= n,
            n == ps@.len(),
            forall|h: int| 0 <= h < ps@.len() ==> (#[trigger] ps@[h]).wf(),
            spec_paste_list_report(pastes_view(ps@)) == out@ + spec_reports_joined(
                pastes_view(ps@).skip(k as int),
            ),
        decreases n - k,
    {
        let ghost pv = pastes_view(ps@);
        proof {
            assert(pv.skip(k as int)[0] == pv[k as int]);
            assert(pv[k as int] == ps@[k as int]@);
            assert(pv.skip(k as int).drop_first() =~= pv.skip(k as int + 1));
        }
        let ghost pre = out@;
        out.append("\n");
        let rep = ps[k].report();
        out.append(rep.as_str());
        proof {
            assert(pre + ("\n"@ + spec_paste_report(pv[k as int]) + spec_reports_joined(
                pv.skip(k as int + 1),
            )) =~= out@ + spec_reports_joined(pv.skip(k as int + 1)));
        }
        k = k + 1;
    }
    proof {
        assert(pastes_view(ps@).skip(n as int) =~= Seq::<PasteModel>::empty());
        assert(out@ + Seq::<char>::empty() =~= out@);
    }
    out
}

} // verus!
