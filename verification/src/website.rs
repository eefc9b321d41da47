//! An account's personal website: an absolute URL, or absent. The wire sends
//! an empty string for "absent"; a present URL is parsed and normalized by
//! the `url` crate and rendered verbatim afterwards.

use vstd::prelude::*;

use crate::error::ValueError;

verus! {

/// What `url::Url::parse` yields on a given text: the serialization of the
/// parsed URL, or nothing where the text is not a well-formed absolute URL.
/// A function of the text alone.
pub uninterp spec fn url_parse_of(s: Seq<char>) -> Option<Seq<char>>;

/// Relies on `url::Url::parse`, whose outcome depends on the input text
/// alone, and on `url::Url::as_str`, which returns the parsed URL's
/// serialization.
#[verifier::external_body]
fn url_parse_text(s: &str) -> (r: Option<String>)
    ensures
        r matches Some(t) ==> url_parse_of(s@) == Some(t@),
        r is None ==> url_parse_of(s@) is None,
{
    match url::Url::parse(s) {
        Ok(u) => Some(u.as_str().to_string()),
        Err(_) => None,
    }
}

/// Parse a required URL field; the result is the URL's normalized text.
pub fn parse_absolute_url(s: &str) -> (r: Result<String, ValueError>)
    ensures
        match r {
            Ok(u) => url_parse_of(s@) == Some(u@),
            Err(e) => url_parse_of(s@) is None && e == ValueError::Url,
        },
{
    match url_parse_text(s) {
        Some(u) => Ok(u),
        None => Err(ValueError::Url),
    }
}

/// An absolute URL, or absent.
#[derive(Debug)]
pub enum Website {
    Absent,
    Present { url: String },
}

impl View for Website {
    type V = Option<Seq<char>>;

    open spec fn view(&self) -> Option<Seq<char>> {
        match self {
            Website::Absent => None,
            Website::Present { url } => Some(url@),
        }
    }
}

/// What decoding a website field yields: absent on the empty string, the
/// normalized URL text on a well-formed absolute URL, a URL value error
/// otherwise.
pub open spec fn spec_website_decode(s: Seq<char>) -> Result<Option<Seq<char>>, ValueError> {
    if s.len() == 0 {
        Ok(None)
    } else {
        match url_parse_of(s) {
            Some(t) => Ok(Some(t)),
            None => Err(ValueError::Url),
        }
    }
}

/// The report text of a website: the URL verbatim, or the absence placeholder.
pub open spec fn spec_website_render(w: Option<Seq<char>>) -> Seq<char> {
    match w {
        Some(u) => u,
        None => "<No website>"@,
    }
}

impl Website {
    /// Decode a website field.
    pub fn decode(s: &str) -> (r: Result<Website, ValueError>)
        ensures
            match r {
                Ok(w) => spec_website_decode(s@) == Ok::<Option<Seq<char>>, ValueError>(w@),
                Err(e) => spec_website_decode(s@) == Err::<Option<Seq<char>>, ValueError>(e),
            },
    {
        if s.unicode_len() == 0 {
            Ok(Website::Absent)
        } else {
            match parse_absolute_url(s) {
                Ok(u) => Ok(Website::Present { url: u }),
                Err(e) => Err(e),
            }
        }
    }

    /// Render this website for a report.
    pub fn render(&self) -> (r: String)
        ensures
            r@ == spec_website_render(self@),
    {
        match self {
            Website::Absent => String::from_str("<No website>"),
            Website::Present { url } => url.clone(),
        }
    }
}

} // verus!
