use vstd::prelude::*;
use crate::args::opt_view;
use crate::config::{pattern_view, SearchConfig};
use crate::pattern::regex_finds;
use crate::text::{contains_bytes, contains_str, lemma_empty_is_contained, utf8_of};

verus! {

/// The configured regex is found in the entry name.
pub open spec fn regex_match(c: SearchConfig, name: Seq<char>) -> bool {
    match pattern_view(c.pattern) {
        Some(p) => regex_finds(p, name),
        None => false,
    }
}

/// The configured substring occurs in the entry name, byte for byte.
pub open spec fn substring_match(c: SearchConfig, name: Seq<char>) -> bool {
    match opt_view(c.name) {
        Some(t) => contains_bytes(utf8_of(name), utf8_of(t)),
        None => false,
    }
}

/// The MIME filter occurs in the entry's MIME type.
pub open spec fn mime_match(c: SearchConfig, mime: Seq<char>) -> bool {
    contains_bytes(utf8_of(mime), utf8_of(c.mime@))
}

/// Neither a name nor a regex is configured: the MIME filter decides alone.
pub open spec fn mime_only(c: SearchConfig) -> bool {
    c.name is None && c.pattern is None
}

/// An entry is reported when a name criterion holds (or none is configured)
/// and the MIME filter holds.
pub open spec fn reported(c: SearchConfig, name: Seq<char>, mime: Seq<char>) -> bool {
    (regex_match(c, name) || substring_match(c, name) || mime_only(c)) && mime_match(c, mime)
}

/// The outcome of each criterion for one entry.
#[derive(Clone, Copy, PartialEq, Eq, Structural, Debug)]
pub struct Criteria {
    pub regex_match: bool,
    pub substring_match: bool,
    pub mime_match: bool,
    pub mime_only: bool,
}

impl Criteria {
    pub open spec fn holds(&self) -> bool {
        (self.regex_match || self.substring_match || self.mime_only) && self.mime_match
    }

    /// Whether the entry is reported.
    pub fn is_match(&self) -> (r: bool)
        ensures
            r == self.holds(),
    {
        (self.regex_match || self.substring_match || self.mime_only) && self.mime_match
    }
}

/// Evaluates every criterion of `c` on an entry's name and MIME type.
pub fn evaluate(c: &SearchConfig, name: &str, mime: &str) -> (r: Criteria)
    ensures
        r.regex_match == regex_match(*c, name@),
        r.substring_match == substring_match(*c, name@),
        r.mime_match == mime_match(*c, mime@),
        r.mime_only == mime_only(*c),
        r.holds() == reported(*c, name@, mime@),
{
    let regex_match = match &c.pattern {
        Some(p) => p.finds(name),
        None => false,
    };
    let substring_match = match &c.name {
        Some(t) => contains_str(name, t.as_str()),
        None => false,
    };
    let mime_match = contains_str(mime, c.mime.as_str());
    let mime_only = c.name.is_none() && c.pattern.is_none();
    Criteria { regex_match, substring_match, mime_match, mime_only }
}

/// Whether an entry with this name and MIME type is reported under `c`.
pub fn entry_matches(c: &SearchConfig, name: &str, mime: &str) -> (r: bool)
    ensures
        r == reported(*c, name@, mime@),
{
    evaluate(c, name, mime).is_match()
}

/// With neither a name nor a regex configured, an entry is reported exactly
/// when its MIME type passes the MIME filter.
pub proof fn law_mime_alone_decides(c: SearchConfig, name: Seq<char>, mime: Seq<char>)
    requires
        c.name is None,
        c.pattern is None,
    ensures
        mime_only(c),
        !regex_match(c, name),
        !substring_match(c, name),
        reported(c, name, mime) == mime_match(c, mime),
{
}

/// An empty MIME filter passes every MIME type.
pub proof fn law_empty_mime_filter_passes(c: SearchConfig, mime: Seq<char>)
    requires
        c.mime@.len() == 0,
    ensures
        mime_match(c, mime),
{
    assert(utf8_of(c.mime@) == Seq::<u8>::empty());
    lemma_empty_is_contained(utf8_of(mime));
}

} // verus!
