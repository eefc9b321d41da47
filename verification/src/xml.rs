//! The provider's XML response shape, parsed by this crate itself.
//!
//! The payloads this client reads are flat: a document is a sequence of
//! records, a record is an element whose children are field elements, and a
//! field holds only text. Text may carry the five standard XML character
//! entities, which decode to their characters. Nothing else of XML — no
//! attributes, no declarations, no nesting — appears in these payloads, and
//! input using anything else is malformed here.
//!
//! A record is decoded to its list of (name, value) fields in document order;
//! a caller looks fields up by name, so unknown fields are ignored and field
//! order is free.

use vstd::prelude::*;

use crate::text::match_at;
use crate::text::push_char;
use crate::text::str_eq;

verus! {

/// One decoded field of a record.
#[derive(Debug)]
pub struct Field {
    pub name: String,
    pub value: String,
}

impl View for Field {
    type V = (Seq<char>, Seq<char>);

    open spec fn view(&self) -> (Seq<char>, Seq<char>) {
        (self.name@, self.value@)
    }
}

/// XML whitespace.
pub open spec fn is_ws_char(c: char) -> bool {
    c == ' ' || c == '\t' || c == '\n' || c == '\r'
}

/// A character of an element name: ASCII letters, digits and underscore,
/// which covers every name the provider uses.
pub open spec fn is_name_char(c: char) -> bool {
    (97 <= c as int <= 122) || (65 <= c as int <= 90) || (48 <= c as int <= 57) || c == '_'
}

/// First index at or after `i` that does not hold whitespace.
pub open spec fn spec_skip_ws(s: Seq<char>, i: int) -> int
    decreases s.len() - i when 0 <= i <= s.len()
{
    if i == s.len() || !is_ws_char(s[i]) {
        i
    } else {
        spec_skip_ws(s, i + 1)
    }
}

/// First index at or after `i` that does not hold a name character.
pub open spec fn spec_scan_name(s: Seq<char>, i: int) -> int
    decreases s.len() - i when 0 <= i <= s.len()
{
    if i == s.len() || !is_name_char(s[i]) {
        i
    } else {
        spec_scan_name(s, i + 1)
    }
}

/// First index at or after `i` that holds `<`.
pub open spec fn spec_scan_text(s: Seq<char>, i: int) -> int
    decreases s.len() - i when 0 <= i <= s.len()
{
    if i == s.len() || s[i] == '<' {
        i
    } else {
        spec_scan_text(s, i + 1)
    }
}

/// Raw field text with the five standard entities decoded; `None` on a bare
/// or unknown `&` sequence.
pub open spec fn spec_decode_entities(raw: Seq<char>) -> Option<Seq<char>>
    decreases raw.len(),
{
    if raw.len() == 0 {
        Some(Seq::empty())
    } else if raw[0] == '&' {
        if raw.len() >= 5 && raw.subrange(0, 5) == "&amp;"@ {
            match spec_decode_entities(raw.skip(5)) {
                Some(t) => Some(seq!['&'] + t),
                None => None,
            }
        } else if raw.len() >= 4 && raw.subrange(0, 4) == "&lt;"@ {
            match spec_decode_entities(raw.skip(4)) {
                Some(t) => Some(seq!['<'] + t),
                None => None,
            }
        } else if raw.len() >= 4 && raw.subrange(0, 4) == "&gt;"@ {
            match spec_decode_entities(raw.skip(4)) {
                Some(t) => Some(seq!['>'] + t),
                None => None,
            }
        } else if raw.len() >= 6 && raw.subrange(0, 6) == "&quot;"@ {
            match spec_decode_entities(raw.skip(6)) {
                Some(t) => Some(seq!['"'] + t),
                None => None,
            }
        } else if raw.len() >= 6 && raw.subrange(0, 6) == "&apos;"@ {
            match spec_decode_entities(raw.skip(6)) {
                Some(t) => Some(seq!['\''] + t),
                None => None,
            }
        } else {
            None
        }
    } else {
        match spec_decode_entities(raw.skip(1)) {
            Some(t) => Some(seq![raw[0]] + t),
            None => None,
        }
    }
}

/// One field element `<name>text</name>` starting at `i`: its name, its
/// decoded text, and the index just past it.
pub open spec fn spec_parse_elem(s: Seq<char>, i: int) -> Option<(Seq<char>, Seq<char>, int)> {
    if !(0 <= i && i + 1 < s.len() && s[i] == '<') {
        None
    } else {
        let ne = spec_scan_name(s, i + 1);
        if !(i + 1 < ne && ne < s.len() && s[ne] == '>') {
            None
        } else {
            let name = s.subrange(i + 1, ne);
            let te = spec_scan_text(s, ne + 1);
            if !(te < s.len()) {
                None
            } else {
                match spec_decode_entities(s.subrange(ne + 1, te)) {
                    None => None,
                    Some(text) => {
                        let ce = te + 2 + name.len();
                        if ce < s.len() && s[te + 1] == '/' && s.subrange(te + 2, ce) == name && s[
                            ce
                        ] == '>' {
                            Some((name, text, ce + 1))
                        } else {
                            None
                        }
                    },
                }
            }
        }
    }
}

/// `spec_skip_ws` lands between `i` and the end, on the first non-whitespace
/// character, and everything it passed over is whitespace.
pub proof fn lemma_skip_ws(s: Seq<char>, i: int)
    requires
        0 <= i <= s.len(),
    ensures
        i <= spec_skip_ws(s, i) <= s.len(),
        spec_skip_ws(s, i) < s.len() ==> !is_ws_char(s[spec_skip_ws(s, i)]),
        forall|k: int| i <= k < spec_skip_ws(s, i) ==> is_ws_char(#[trigger] s[k]),
    decreases s.len() - i,
{
    if !(i == s.len() || !is_ws_char(s[i])) {
        lemma_skip_ws(s, i + 1);
    }
}

/// `spec_scan_name` lands between `i` and the end, on the first non-name
/// character, and everything it passed over is a name character.
pub proof fn lemma_scan_name(s: Seq<char>, i: int)
    requires
        0 <= i <= s.len(),
    ensures
        i <= spec_scan_name(s, i) <= s.len(),
        spec_scan_name(s, i) < s.len() ==> !is_name_char(s[spec_scan_name(s, i)]),
        forall|k: int| i <= k < spec_scan_name(s, i) ==> is_name_char(#[trigger] s[k]),
    decreases s.len() - i,
{
    if !(i == s.len() || !is_name_char(s[i])) {
        lemma_scan_name(s, i + 1);
    }
}

/// `spec_scan_text` lands between `i` and the end, on the first `<`, and
/// everything it passed over is not `<`.
pub proof fn lemma_scan_text(s: Seq<char>, i: int)
    requires
        0 <= i <= s.len(),
    ensures
        i <= spec_scan_text(s, i) <= s.len(),
        spec_scan_text(s, i) < s.len() ==> s[spec_scan_text(s, i)] == '<',
        forall|k: int| i <= k < spec_scan_text(s, i) ==> #[trigger] s[k] != '<',
    decreases s.len() - i,
{
    if !(i == s.len() || s[i] == '<') {
        lemma_scan_text(s, i + 1);
    }
}

/// A parsed field element ends strictly past where it began, within the text.
pub proof fn lemma_parse_elem_advances(s: Seq<char>, i: int)
    requires
        0 <= i <= s.len(),
    ensures
        spec_parse_elem(s, i) matches Some((name, text, j)) ==> i < j <= s.len(),
{
    if spec_parse_elem(s, i) is Some {
        lemma_scan_name(s, i + 1);
        let ne = spec_scan_name(s, i + 1);
        lemma_scan_text(s, ne + 1);
    }
}

/// The fields of a record body starting at `i`, up to and past the closing
/// tag `</close>`: the (name, value) pairs in document order and the index
/// just past the closing tag.
pub open spec fn spec_parse_fields(s: Seq<char>, i: int, close: Seq<char>) -> Option<
    (Seq<(Seq<char>, Seq<char>)>, int),
>
    decreases s.len() - i when 0 <= i <= s.len()
{
    let j = spec_skip_ws(s, i);
    if j + 1 < s.len() && s[j] == '<' && s[j + 1] == '/' {
        let ce = j + 2 + close.len();
        if ce < s.len() && s.subrange(j + 2, ce) == close && s[ce] == '>' {
            Some((Seq::empty(), ce + 1))
        } else {
            None
        }
    } else {
        match spec_parse_elem(s, j) {
            None => None,
            Some((name, text, j2)) => {
                proof {
                    lemma_skip_ws(s, i);
                    lemma_parse_elem_advances(s, j);
                }
                match spec_parse_fields(s, j2, close) {
                    None => None,
                    Some((rest, j3)) => Some((seq![(name, text)] + rest, j3)),
                }
            },
        }
    }
}

/// Parsed fields end strictly past where they began, within the text.
pub proof fn lemma_parse_fields_advances(s: Seq<char>, i: int, close: Seq<char>)
    requires
        0 <= i <= s.len(),
    ensures
        spec_parse_fields(s, i, close) matches Some((fs, j)) ==> i < j <= s.len(),
    decreases s.len() - i,
{
    lemma_skip_ws(s, i);
    let j = spec_skip_ws(s, i);
    if j + 1 < s.len() && s[j] == '<' && s[j + 1] == '/' {
    } else {
        match spec_parse_elem(s, j) {
            Some((name, text, j2)) => {
                lemma_parse_elem_advances(s, j);
                lemma_parse_fields_advances(s, j2, close);
            },
            None => {},
        }
    }
}

/// One record `<tag> fields </tag>` starting at `i` (after whitespace): its
/// fields and the index just past its closing tag.
pub open spec fn spec_parse_record(s: Seq<char>, i: int, tag: Seq<char>) -> Option<
    (Seq<(Seq<char>, Seq<char>)>, int),
> {
    let j = spec_skip_ws(s, i);
    let oe = j + 1 + tag.len();
    if 0 <= i <= s.len() && oe < s.len() && s[j] == '<' && s.subrange(j + 1, oe) == tag && s[oe]
        == '>' {
        spec_parse_fields(s, oe + 1, tag)
    } else {
        None
    }
}

/// A parsed record ends strictly past where it began, within the text.
pub proof fn lemma_parse_record_advances(s: Seq<char>, i: int, tag: Seq<char>)
    requires
        0 <= i <= s.len(),
    ensures
        spec_parse_record(s, i, tag) matches Some((fs, j)) ==> i < j <= s.len(),
{
    lemma_skip_ws(s, i);
    let j = spec_skip_ws(s, i);
    let oe = j + 1 + tag.len();
    if spec_parse_record(s, i, tag) is Some {
        lemma_parse_fields_advances(s, oe + 1, tag);
    }
}

/// All records `<tag>...</tag>` from `i` to the end of the document,
/// whitespace between them; the index returned equals the text's length.
pub open spec fn spec_parse_records(s: Seq<char>, i: int, tag: Seq<char>) -> Option<
    Seq<Seq<(Seq<char>, Seq<char>)>>,
>
    decreases s.len() - i when 0 <= i <= s.len()
{
    let j = spec_skip_ws(s, i);
    if j == s.len() {
        Some(Seq::empty())
    } else {
        match spec_parse_record(s, j, tag) {
            None => None,
            Some((fs, j2)) => {
                proof {
                    lemma_skip_ws(s, i);
                    lemma_parse_record_advances(s, j, tag);
                }
                match spec_parse_records(s, j2, tag) {
                    None => None,
                    Some(rest) => Some(seq![fs] + rest),
                }
            },
        }
    }
}

/// A whole one-record document: the record's fields, with nothing but
/// whitespace after the record.
pub open spec fn spec_doc_record(s: Seq<char>, tag: Seq<char>) -> Option<
    Seq<(Seq<char>, Seq<char>)>,
> {
    match spec_parse_record(s, 0, tag) {
        None => None,
        Some((fs, j)) => if spec_skip_ws(s, j) == s.len() {
            Some(fs)
        } else {
            None
        },
    }
}

/// First value in `fs` under `name`, if any.
pub open spec fn spec_lookup(fs: Seq<(Seq<char>, Seq<char>)>, name: Seq<char>) -> Option<Seq<char>>
    decreases fs.len(),
{
    if fs.len() == 0 {
        None
    } else if fs[0].0 == name {
        Some(fs[0].1)
    } else {
        spec_lookup(fs.drop_first(), name)
    }
}

/// The models of a list of decoded fields.
pub open spec fn fields_view(fs: Seq<Field>) -> Seq<(Seq<char>, Seq<char>)> {
    fs.map_values(|f: Field| f@)
}

/// The models of a list of decoded records.
pub open spec fn records_view(rs: Seq<Vec<Field>>) -> Seq<Seq<(Seq<char>, Seq<char>)>> {
    rs.map_values(|r: Vec<Field>| fields_view(r@))
}

fn is_ws(c: char) -> (r: bool)
    ensures
        r == is_ws_char(c),
{
    c == ' ' || c == '\t' || c == '\n' || c == '\r'
}

fn is_name(c: char) -> (r: bool)
    ensures
        r == is_name_char(c),
{
    let u = c as u32;
    (97 <= u && u <= 122) || (65 <= u && u <= 90) || (48 <= u && u <= 57) || c == '_'
}

/// Index of the first non-whitespace character at or after `i`.
pub fn skip_ws(s: &str, i: usize) -> (j: usize)
    requires
        i <= s@.len(),
    ensures
        j == spec_skip_ws(s@, i as int),
        i <= j <= s@.len(),
{
    let n = s.unicode_len();
    let mut j = i;
    while j < n && is_ws(s.get_char(j))
        invariant
            i <= j <= n,
            n == s@.len(),
            spec_skip_ws(s@, i as int) == spec_skip_ws(s@, j as int),
        decreases n - j,
    {
        j = j + 1;
    }
    j
}

fn scan_name(s: &str, i: usize) -> (j: usize)
    requires
        i <= s@.len(),
    ensures
        j == spec_scan_name(s@, i as int),
        i <= j <= s@.len(),
{
    let n = s.unicode_len();
    let mut j = i;
    while j < n && is_name(s.get_char(j))
        invariant
            i <= j <= n,
            n == s@.len(),
            spec_scan_name(s@, i as int) == spec_scan_name(s@, j as int),
        decreases n - j,
    {
        j = j + 1;
    }
    j
}

fn scan_text(s: &str, i: usize) -> (j: usize)
    requires
        i <= s@.len(),
    ensures
        j == spec_scan_text(s@, i as int),
        i <= j <= s@.len(),
{
    let n = s.unicode_len();
    let mut j = i;
    while j < n && s.get_char(j) != '<'
        invariant
            i <= j <= n,
            n == s@.len(),
            spec_scan_text(s@, i as int) == spec_scan_text(s@, j as int),
        decreases n - j,
    {
        j = j + 1;
    }
    j
}

/// Decode the five standard entities in raw field text.
fn decode_entities(raw: &str) -> (r: Option<String>)
    ensures
        match r {
            Some(t) => spec_decode_entities(raw@) == Some(t@),
            None => spec_decode_entities(raw@) is None,
        },
{
    let n = raw.unicode_len();
    let mut out = String::new();
    let mut i: usize = 0;
    proof {
        assert(raw@.skip(0) =~= raw@);
        assert(out@ + raw@ =~= raw@);
    }
    while i < n
        invariant
            0 <= i <= n,
            n == raw@.len(),
            match spec_decode_entities(raw@.skip(i as int)) {
                Some(t) => spec_decode_entities(raw@) == Some(out@ + t),
                None => spec_decode_entities(raw@) is None,
            },
        decreases n - i,
    {
        let ghost pre = out@;
        let ghost suf = raw@.skip(i as int);
        let c = raw.get_char(i);
        proof {
            assert(suf[0] == raw@[i as int]);
        }
        if c == '&' {
            if match_at(raw, i, "&amp;") {
                push_char(&mut out, '&');
                proof {
                    reveal_strlit("&amp;");
                    assert(suf.subrange(0, 5) =~= raw@.subrange(i as int, i as int + 5));
                    assert(suf.skip(5) =~= raw@.skip(i as int + 5));
                    lemma_step_entity(raw@, i as int, pre, out@, suf, 5, '&');
                }
                i = i + 5;
            } else if match_at(raw, i, "&lt;") {
                push_char(&mut out, '<');
                proof {
                    reveal_strlit("&amp;");
                    reveal_strlit("&lt;");
                    assert(suf.subrange(0, 4) =~= raw@.subrange(i as int, i as int + 4));
                    assert(suf.skip(4) =~= raw@.skip(i as int + 4));
                    if suf.len() >= 5 && suf.subrange(0, 5) == "&amp;"@ {
                        assert(suf.subrange(0, 5)[1] == suf[1]);
                        assert(suf.subrange(0, 4)[1] == suf[1]);
                    }
                    lemma_step_entity(raw@, i as int, pre, out@, suf, 4, '<');
                }
                i = i + 4;
            } else if match_at(raw, i, "&gt;") {
                push_char(&mut out, '>');
                proof {
                    reveal_strlit("&amp;");
                    reveal_strlit("&lt;");
                    reveal_strlit("&gt;");
                    assert(suf.subrange(0, 4) =~= raw@.subrange(i as int, i as int + 4));
                    assert(suf.skip(4) =~= raw@.skip(i as int + 4));
                    if suf.len() >= 5 && suf.subrange(0, 5) == "&amp;"@ {
                        assert(suf.subrange(0, 5)[1] == suf[1]);
                        assert(suf.subrange(0, 4)[1] == suf[1]);
                    }
                    lemma_step_entity(raw@, i as int, pre, out@, suf, 4, '>');
                }
                i = i + 4;
            } else if match_at(raw, i, "&quot;") {
                push_char(&mut out, '"');
                proof {
                    reveal_strlit("&amp;");
                    reveal_strlit("&lt;");
                    reveal_strlit("&gt;");
                    reveal_strlit("&quot;");
                    assert(suf.subrange(0, 6) =~= raw@.subrange(i as int, i as int + 6));
                    assert(suf.skip(6) =~= raw@.skip(i as int + 6));
                    if suf.len() >= 5 && suf.subrange(0, 5) == "&amp;"@ {
                        assert(suf.subrange(0, 5)[1] == suf[1]);
                        assert(suf.subrange(0, 6)[1] == suf[1]);
                    }
                    if suf.len() >= 4 && suf.subrange(0, 4) == "&lt;"@ {
                        assert(suf.subrange(0, 4)[1] == suf[1]);
                        assert(suf.subrange(0, 6)[1] == suf[1]);
                    }
                    if suf.len() >= 4 && suf.subrange(0, 4) == "&gt;"@ {
                        assert(suf.subrange(0, 4)[1] == suf[1]);
                        assert(suf.subrange(0, 6)[1] == suf[1]);
                    }
                    lemma_step_entity(raw@, i as int, pre, out@, suf, 6, '"');
                }
                i = i + 6;
            } else if match_at(raw, i, "&apos;") {
                push_char(&mut out, '\'');
                proof {
                    reveal_strlit("&amp;");
                    reveal_strlit("&lt;");
                    reveal_strlit("&gt;");
                    reveal_strlit("&quot;");
                    reveal_strlit("&apos;");
                    assert(suf.subrange(0, 6) =~= raw@.subrange(i as int, i as int + 6));
                    assert(suf.skip(6) =~= raw@.skip(i as int + 6));
                    if suf.len() >= 5 && suf.subrange(0, 5) == "&amp;"@ {
                        assert(suf.subrange(0, 5)[2] == suf[2]);
                        assert(suf.subrange(0, 6)[2] == suf[2]);
                    }
                    if suf.len() >= 4 && suf.subrange(0, 4) == "&lt;"@ {
                        assert(suf.subrange(0, 4)[1] == suf[1]);
                        assert(suf.subrange(0, 6)[1] == suf[1]);
                    }
                    if suf.len() >= 4 && suf.subrange(0, 4) == "&gt;"@ {
                        assert(suf.subrange(0, 4)[1] == suf[1]);
                        assert(suf.subrange(0, 6)[1] == suf[1]);
                    }
                    if suf.len() >= 6 && suf.subrange(0, 6) == "&quot;"@ {
                        assert(suf.subrange(0, 6)[1] == suf[1]);
                    }
                    lemma_step_entity(raw@, i as int, pre, out@, suf, 6, '\'');
                }
                i = i + 6;
            } else {
                proof {
                    reveal_strlit("&amp;");
                    reveal_strlit("&lt;");
                    reveal_strlit("&gt;");
                    reveal_strlit("&quot;");
                    reveal_strlit("&apos;");
                    assert(spec_decode_entities(suf) is None) by {
                        if suf.len() >= 5 && suf.subrange(0, 5) == "&amp;"@ {
                            assert(raw@.subrange(i as int, i as int + 5) =~= suf.subrange(0, 5));
                        }
                        if suf.len() >= 4 && suf.subrange(0, 4) == "&lt;"@ {
                            assert(raw@.subrange(i as int, i as int + 4) =~= suf.subrange(0, 4));
                        }
                        if suf.len() >= 4 && suf.subrange(0, 4) == "&gt;"@ {
                            assert(raw@.subrange(i as int, i as int + 4) =~= suf.subrange(0, 4));
                        }
                        if suf.len() >= 6 && suf.subrange(0, 6) == "&quot;"@ {
                            assert(raw@.subrange(i as int, i as int + 6) =~= suf.subrange(0, 6));
                        }
                        if suf.len() >= 6 && suf.subrange(0, 6) == "&apos;"@ {
                            assert(raw@.subrange(i as int, i as int + 6) =~= suf.subrange(0, 6));
                        }
                    };
                }
                return None;
            }
        } else {
            push_char(&mut out, c);
            proof {
                assert(suf.skip(1) =~= raw@.skip(i as int + 1));
                match spec_decode_entities(suf.skip(1)) {
                    Some(t) => {
                        assert(spec_decode_entities(suf) == Some(seq![suf[0]] + t));
                        assert(out@ + t =~= pre + (seq![suf[0]] + t));
                    },
                    None => {},
                }
            }
            i = i + 1;
        }
    }
    proof {
        assert(raw@.skip(n as int) =~= Seq::<char>::empty());
        assert(out@ + Seq::<char>::empty() =~= out@);
    }
    Some(out)
}

/// Parse one field element `<name>text</name>` at `i`: the name, the decoded
/// text, and the index just past the element.
pub fn parse_elem(s: &str, i: usize) -> (r: Option<(String, String, usize)>)
    requires
        i <= s@.len(),
    ensures
        match r {
            Some(p) => spec_parse_elem(s@, i as int) == Some((p.0@, p.1@, p.2 as int)) && i < p.2
                <= s@.len(),
            None => spec_parse_elem(s@, i as int) is None,
        },
{
    let n = s.unicode_len();
    if i >= n {
        return None;
    }
    if i + 1 >= n {
        return None;
    }
    if s.get_char(i) != '<' {
        return None;
    }
    let ne = scan_name(s, i + 1);
    if ne <= i + 1 {
        return None;
    }
    if ne >= n {
        return None;
    }
    if s.get_char(ne) != '>' {
        return None;
    }
    let name_s = s.substring_char(i + 1, ne);
    let te = scan_text(s, ne + 1);
    if te >= n {
        return None;
    }
    let raw = s.substring_char(ne + 1, te);
    let text = match decode_entities(raw) {
        Some(t) => t,
        None => {
            return None;
        },
    };
    let nlen = ne - (i + 1);
    let rem = n - te;
    if rem < 3 || nlen > rem - 3 {
        return None;
    }
    let ce = te + 2 + nlen;
    if s.get_char(te + 1) != '/' {
        return None;
    }
    if !str_eq(s.substring_char(te + 2, ce), name_s) {
        return None;
    }
    if s.get_char(ce) != '>' {
        return None;
    }
    let name = String::from_str(name_s);
    Some((name, text, ce + 1))
}

/// Parse the fields of a record body from `i` up to and past `</close>`.
pub fn parse_fields(s: &str, i: usize, close: &str) -> (r: Option<(Vec<Field>, usize)>)
    requires
        i <= s@.len(),
    ensures
        match r {
            Some(p) => spec_parse_fields(s@, i as int, close@) == Some(
                (fields_view(p.0@), p.1 as int),
            ) && i < p.1 <= s@.len(),
            None => spec_parse_fields(s@, i as int, close@) is None,
        },
{
    let n = s.unicode_len();
    let mut out: Vec<Field> = Vec::new();
    let mut j = i;
    proof {
        assert(fields_view(out@) =~= Seq::<(Seq<char>, Seq<char>)>::empty());
    }
    while j <= n
        invariant
            i <= j <= n,
            n == s@.len(),
            match spec_parse_fields(s@, j as int, close@) {
                Some(p) => spec_parse_fields(s@, i as int, close@) == Some(
                    (fields_view(out@) + p.0, p.1),
                ),
                None => spec_parse_fields(s@, i as int, close@) is None,
            },
        decreases n - j,
    {
        let j1 = skip_ws(s, j);
        proof {
            lemma_skip_ws(s@, j as int);
        }
        if j1 < n && j1 + 1 < n && s.get_char(j1) == '<' && s.get_char(j1 + 1) == '/' {
            let clen = close.unicode_len();
            let rem = n - j1;
            if rem < 3 || clen > rem - 3 {
                return None;
            }
            let ce = j1 + 2 + clen;
            if !str_eq(s.substring_char(j1 + 2, ce), close) {
                return None;
            }
            if s.get_char(ce) != '>' {
                return None;
            }
            proof {
                assert(fields_view(out@) + Seq::<(Seq<char>, Seq<char>)>::empty() =~= fields_view(
                    out@,
                ));
            }
            return Some((out, ce + 1));
        } else {
            match parse_elem(s, j1) {
                None => {
                    return None;
                },
                Some((name, value, j2)) => {
                    let ghost pre = out@;
                    let ghost nm = name@;
                    let ghost vl = value@;
                    out.push(Field { name, value });
                    proof {
                        assert(fields_view(out@) =~= fields_view(pre) + seq![(nm, vl)]);
                        match spec_parse_fields(s@, j2 as int, close@) {
                            Some(p) => {
                                assert(fields_view(pre) + (seq![(nm, vl)] + p.0) =~= fields_view(
                                    out@,
                                ) + p.0);
                            },
                            None => {},
                        }
                    }
                    j = j2;
                },
            }
        }
    }
    proof {
        assert(false);
    }
    None
}

/// Parse one record `<tag>fields</tag>` at or after `i`.
pub fn parse_record(s: &str, i: usize, tag: &str) -> (r: Option<(Vec<Field>, usize)>)
    requires
        i <= s@.len(),
    ensures
        match r {
            Some(p) => spec_parse_record(s@, i as int, tag@) == Some(
                (fields_view(p.0@), p.1 as int),
            ) && i < p.1 <= s@.len(),
            None => spec_parse_record(s@, i as int, tag@) is None,
        },
{
    let n = s.unicode_len();
    let j = skip_ws(s, i);
    let tlen = tag.unicode_len();
    if j >= n {
        return None;
    }
    let rem = n - j;
    if tlen > rem || rem - tlen < 2 {
        return None;
    }
    let oe = j + 1 + tlen;
    if s.get_char(j) != '<' {
        return None;
    }
    if !str_eq(s.substring_char(j + 1, oe), tag) {
        return None;
    }
    if s.get_char(oe) != '>' {
        return None;
    }
    parse_fields(s, oe + 1, tag)
}

/// Parse a whole document of zero or more records `<tag>...</tag>`.
pub fn parse_records(s: &str, tag: &str) -> (r: Option<Vec<Vec<Field>>>)
    ensures
        match r {
            Some(rs) => spec_parse_records(s@, 0, tag@) == Some(records_view(rs@)),
            None => spec_parse_records(s@, 0, tag@) is None,
        },
{
    let n = s.unicode_len();
    let mut out: Vec<Vec<Field>> = Vec::new();
    let mut j: usize = 0;
    proof {
        assert(records_view(out@) =~= Seq::<Seq<(Seq<char>, Seq<char>)>>::empty());
    }
    while j <= n
        invariant
            0 <= j <= n,
            n == s@.len(),
            match spec_parse_records(s@, j as int, tag@) {
                Some(rest) => spec_parse_records(s@, 0, tag@) == Some(records_view(out@) + rest),
                None => spec_parse_records(s@, 0, tag@) is None,
            },
        decreases n - j,
    {
        let j1 = skip_ws(s, j);
        if j1 >= n {
            proof {
                assert(records_view(out@) + Seq::<Seq<(Seq<char>, Seq<char>)>>::empty()
                    =~= records_view(out@));
            }
            return Some(out);
        }
        match parse_record(s, j1, tag) {
            None => {
                return None;
            },
            Some((fs, j2)) => {
                let ghost pre = out@;
                let ghost fv = fields_view(fs@);
                out.push(fs);
                proof {
                    assert(records_view(out@) =~= records_view(pre) + seq![fv]);
                    match spec_parse_records(s@, j2 as int, tag@) {
                        Some(rest) => {
                            assert(records_view(pre) + (seq![fv] + rest) =~= records_view(out@)
                                + rest);
                        },
                        None => {},
                    }
                }
                j = j2;
            },
        }
    }
    proof {
        assert(false);
    }
    None
}

/// Parse a whole one-record document `<tag>...</tag>`.
pub fn doc_record(s: &str, tag: &str) -> (r: Option<Vec<Field>>)
    ensures
        match r {
            Some(fs) => spec_doc_record(s@, tag@) == Some(fields_view(fs@)),
            None => spec_doc_record(s@, tag@) is None,
        },
{
    match parse_record(s, 0, tag) {
        None => None,
        Some((fs, j)) => {
            let e = skip_ws(s, j);
            if e == s.unicode_len() {
                Some(fs)
            } else {
                None
            }
        },
    }
}

/// First value under `name` among the fields, if any.
pub fn lookup(fs: &Vec<Field>, name: &str) -> (r: Option<String>)
    ensures
        match r {
            Some(v) => spec_lookup(fields_view(fs@), name@) == Some(v@),
            None => spec_lookup(fields_view(fs@), name@) is None,
        },
{
    let n = fs.len();
    let mut k: usize = 0;
    proof {
        assert(fields_view(fs@).skip(0) =~= fields_view(fs@));
    }
    while k < n
        invariant
            0 <= k <= n,
            n == fs@.len(),
            spec_lookup(fields_view(fs@), name@) == spec_lookup(
                fields_view(fs@).skip(k as int),
                name@,
            ),
        decreases n - k,
    {
        proof {
            assert(fields_view(fs@)[k as int] == fs@[k as int]@);
            assert(fields_view(fs@).skip(k as int)[0] == fields_view(fs@)[k as int]);
        }
        if str_eq(fs[k].name.as_str(), name) {
            return Some(fs[k].value.clone());
        }
        proof {
            assert(fields_view(fs@).skip(k as int).drop_first() =~= fields_view(fs@).skip(
                k as int + 1,
            ));
        }
        k = k + 1;
    }
    proof {
        assert(fields_view(fs@).skip(n as int) =~= Seq::<(Seq<char>, Seq<char>)>::empty());
    }
    None
}

/// Invariant step for one decoded entity of `width` wire characters.
proof fn lemma_step_entity(
    raw: Seq<char>,
    i: int,
    pre: Seq<char>,
    cur: Seq<char>,
    suf: Seq<char>,
    width: int,
    c: char,
)
    requires
        0 <= i && i + width <= raw.len(),
        suf == raw.skip(i),
        cur == pre.push(c),
        spec_decode_entities(suf) == match spec_decode_entities(raw.skip(i + width)) {
            Some(t) => Some(seq![c] + t),
            None => None::<Seq<char>>,
        },
        match spec_decode_entities(suf) {
            Some(t) => spec_decode_entities(raw) == Some(pre + t),
            None => spec_decode_entities(raw) is None,
        },
    ensures
        match spec_decode_entities(raw.skip(i + width)) {
            Some(t) => spec_decode_entities(raw) == Some(cur + t),
            None => spec_decode_entities(raw) is None,
        },
{
    match spec_decode_entities(raw.skip(i + width)) {
        Some(t) => {
            assert(spec_decode_entities(suf) == Some(seq![c] + t));
            assert(spec_decode_entities(raw) == Some(pre + (seq![c] + t)));
            assert(pre + (seq![c] + t) =~= cur + t);
        },
        None => {},
    }
}

} // verus!
