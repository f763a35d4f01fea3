//! The content model: a bookmark and its classified content, with the short
//! display form and the long form that restores the captured text.

use vstd::prelude::*;
use vstd::string::StrSliceExecFns;

use crate::interpreter::lemma_url_split_is_scheme_end;
use crate::interpreter::scheme_end;
use crate::interpreter::url_match;
use crate::interpreter::url_matches;
use crate::interpreter::url_split_at;
use crate::interpreter::path_match;
use crate::interpreter::Interpreter;

verus! {

/// The typed, classified representation of a captured raw string. Every
/// variant keeps the original string it was classified from.
#[derive(Debug, Clone, PartialEq, Eq)]
pub enum Content {
    Url { raw: String },
    Path { raw: String },
    Text { raw: String },
}

/// Where the remainder of a URL begins: just past the `://` separator.
pub open spec fn url_body_start(s: Seq<char>) -> int {
    (choose|i: int| url_split_at(s, i)) + 3
}

impl Content {
    /// The raw string this content was classified from.
    pub open spec fn raw_spec(&self) -> Seq<char> {
        match self {
            Content::Url { raw } => raw@,
            Content::Path { raw } => raw@,
            Content::Text { raw } => raw@,
        }
    }

    /// The kind of interpreter that produces this content variant.
    pub open spec fn kind(&self) -> Interpreter {
        match self {
            Content::Url { .. } => Interpreter::Url,
            Content::Path { .. } => Interpreter::Path,
            Content::Text { .. } => Interpreter::Text,
        }
    }

    /// Well-formed content carries a raw string that its own variant's
    /// recognition predicate accepts; the plain-text variant accepts all.
    pub open spec fn wf(&self) -> bool {
        match self {
            Content::Url { raw } => url_match(raw@),
            Content::Path { raw } => path_match(raw@),
            Content::Text { raw } => true,
        }
    }

    /// The long form: the exact string to restore on selection, always the
    /// raw string itself.
    pub open spec fn long_spec(&self) -> Seq<char> {
        self.raw_spec()
    }

    /// The short display form: a URL is shown without its scheme, the other
    /// kinds verbatim.
    pub open spec fn short_spec(&self) -> Seq<char> {
        match self {
            Content::Url { raw } => if url_match(raw@) {
                raw@.subrange(url_body_start(raw@), raw@.len() as int)
            } else {
                raw@
            },
            Content::Path { raw } => raw@,
            Content::Text { raw } => raw@,
        }
    }

    /// The exact string to write back to the clipboard when this content is
    /// selected.
    pub fn long(&self) -> (r: String)
        ensures
            r@ == self.long_spec(),
    {
        match self {
            Content::Url { raw } => raw.clone(),
            Content::Path { raw } => raw.clone(),
            Content::Text { raw } => raw.clone(),
        }
    }

    /// The form shown in listings.
    pub fn short(&self) -> (r: String)
        ensures
            r@ == self.short_spec(),
    {
        match self {
            Content::Url { raw } => {
                if url_matches(raw.as_str()) {
                    let k = scheme_end(raw.as_str());
                    let n = raw.as_str().unicode_len();
                    proof {
                        let i = choose|i: int| url_split_at(raw@, i);
                        lemma_url_split_is_scheme_end(raw@, i, k as int);
                    }
                    let body = raw.as_str().substring_char(k + 3, n);
                    body.to_owned()
                } else {
                    raw.clone()
                }
            },
            Content::Path { raw } => raw.clone(),
            Content::Text { raw } => raw.clone(),
        }
    }
}

/// A stored, classified piece of captured text. Its identity is its position
/// in the store, so the bookmark itself carries only its content.
#[derive(Debug, Clone, PartialEq, Eq)]
pub struct Bookmark {
    pub content: Content,
}

} // verus!
