//! The parts of a URL that resource detection reads.

use vstd::prelude::*;
use crate::text::{opt_view, views};

verus! {

/// A parsed URL, held as plain text.
#[derive(Debug, Clone, PartialEq, Eq)]
pub struct UrlParts {
    /// The host, where the URL has one.
    pub host: Option<String>,
    /// The path, as the URL writes it.
    pub path: String,
    /// The path cut at each `/` after the first; `None` where the path does
    /// not begin with `/`.
    pub segments: Option<Vec<String>>,
    /// What follows `#`, where the URL has a fragment.
    pub fragment: Option<String>,
    /// The whole URL written out again, without `#` and the fragment.
    pub without_fragment: String,
}

/// `UrlParts` with its texts as sequences of characters.
pub struct UrlPartsView {
    pub host: Option<Seq<char>>,
    pub path: Seq<char>,
    pub segments: Option<Seq<Seq<char>>>,
    pub fragment: Option<Seq<char>>,
    pub without_fragment: Seq<char>,
}

impl View for UrlParts {
    type V = UrlPartsView;

    open spec fn view(&self) -> UrlPartsView {
        UrlPartsView {
            host: opt_view(self.host),
            path: self.path@,
            segments: match self.segments {
                Some(segments) => Some(views(segments@)),
                None => None,
            },
            fragment: opt_view(self.fragment),
            without_fragment: self.without_fragment@,
        }
    }
}

/// The view of parts that may be missing.
pub open spec fn parts_view(parts: Option<UrlParts>) -> Option<UrlPartsView> {
    match parts {
        Some(p) => Some(p@),
        None => None,
    }
}

/// What `url::Url::parse` makes of `input`: `None` where it refuses the text,
/// else the parts of the URL it returns.
pub uninterp spec fn url_parts(input: Seq<char>) -> Option<UrlPartsView>;

/// Parses `input` with `url::Url::parse` and reads the result through
/// `host_str`, `path`, `path_segments` and `fragment`; the last part is the
/// URL's text after `set_fragment(None)`. Nothing is claimed of the parts but
/// that they are those of `url_parts` for this input.
#[verifier::external_body]
pub(crate) fn parse_url(input: &str) -> (parts: Option<UrlParts>)
    ensures
        parts_view(parts) == url_parts(input@),
{
    let mut url = url::Url::parse(input).ok()?;
    let host = url.host_str().map(|h| h.to_string());
    let path = url.path().to_string();
    let segments = url.path_segments().map(|s| s.map(|p| p.to_string()).collect());
    let fragment = url.fragment().map(|f| f.to_string());
    url.set_fragment(None);
    Some(UrlParts { host, path, segments, fragment, without_fragment: url.into() })
}

/// The last segment of the path: the name of the file that the URL points at.
pub open spec fn filename(parts: Option<UrlPartsView>) -> Option<Seq<char>> {
    match parts {
        Some(p) => match p.segments {
            Some(segments) => if segments.len() > 0 {
                Some(segments.last())
            } else {
                None
            },
            None => None,
        },
        None => None,
    }
}

impl UrlParts {
    /// The last segment of the path, where there is one.
    pub fn filename(&self) -> (name: Option<&String>)
        ensures
            match name {
                Some(n) => filename(Some(self@)) == Some(n@),
                None => filename(Some(self@)).is_none(),
            },
    {
        match &self.segments {
            Some(segments) => {
                if segments.len() > 0 {
                    Some(&segments[segments.len() - 1])
                } else {
                    None
                }
            },
            None => None,
        }
    }
}

} // verus!
