use vstd::prelude::*;
use crate::args::{opt_view, Options};
use crate::pattern::{regex_compiles, NamePattern};

verus! {

/// The active filters of one search. Built once and read by every visit.
pub struct SearchConfig {
    /// Substring looked for in entry names.
    pub name: Option<String>,
    /// Regular expression tried on entry names.
    pub pattern: Option<NamePattern>,
    /// Substring looked for in the guessed MIME type; empty when not given.
    pub mime: String,
}

/// Why options do not make a search.
#[derive(Debug)]
pub enum ConfigError {
    /// None of name, regex and MIME type was given.
    NoCriterion,
    /// The regex did not compile.
    InvalidRegex(regex::Error),
}

/// The source text of an optional pattern.
pub open spec fn pattern_view(p: Option<NamePattern>) -> Option<Seq<char>> {
    match p {
        Some(q) => Some(q.text()),
        None => None,
    }
}

/// The options name no search criterion.
pub open spec fn lacks_criterion(o: Options) -> bool {
    o.name is None && o.regex is None && o.mime is None
}

/// The options give a regex that does not compile.
pub open spec fn has_bad_regex(o: Options) -> bool {
    match o.regex {
        Some(p) => !regex_compiles(p@),
        None => false,
    }
}

impl SearchConfig {
    /// Builds the search from resolved options. A search needs at least one
    /// of name, regex and MIME type, and a regex that compiles; a missing
    /// MIME type filters nothing.
    pub fn from_options(o: &Options) -> (r: Result<SearchConfig, ConfigError>)
        ensures
            r matches Err(ConfigError::NoCriterion) <==> lacks_criterion(*o),
            r matches Err(ConfigError::InvalidRegex(_)) <==> !lacks_criterion(*o)
                && has_bad_regex(*o),
            r is Ok <==> !lacks_criterion(*o) && !has_bad_regex(*o),
            r matches Ok(c) ==> {
                &&& opt_view(c.name) == opt_view(o.name)
                &&& pattern_view(c.pattern) == opt_view(o.regex)
                &&& c.mime@ == match o.mime {
                    Some(m) => m@,
                    None => Seq::<char>::empty(),
                }
            },
    {
        if o.name.is_none() && o.regex.is_none() && o.mime.is_none() {
            return Err(ConfigError::NoCriterion);
        }
        let pattern = match &o.regex {
            Some(p) => match NamePattern::compile(p.as_str()) {
                Ok(q) => Some(q),
                Err(e) => {
                    return Err(ConfigError::InvalidRegex(e));
                },
            },
            None => None,
        };
        let name = match &o.name {
            Some(n) => Some(n.clone()),
            None => None,
        };
        let mime = match &o.mime {
            Some(m) => m.clone(),
            None => String::new(),
        };
        Ok(SearchConfig { name, pattern, mime })
    }
}

} // verus!
