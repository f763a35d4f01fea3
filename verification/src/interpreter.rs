//! The interpreter registry and the resolution engine: recognition predicates
//! for each content shape, and first-match-wins selection in a fixed priority
//! order.

use vstd::prelude::*;
use vstd::string::StrSliceExecFns;

use crate::bookmark::Bookmark;
use crate::bookmark::Content;

verus! {

/// A character that may appear in a URL scheme: an ASCII letter, a digit,
/// `+`, `-` or `.`.
pub open spec fn is_scheme_char(c: char) -> bool {
    ||| ('a' <= c && c <= 'z')
    ||| ('A' <= c && c <= 'Z')
    ||| ('0' <= c && c <= '9')
    ||| c == '+'
    ||| c == '-'
    ||| c == '.'
}

/// An ASCII letter, required as the first character of a URL scheme.
pub open spec fn is_alpha(c: char) -> bool {
    ||| ('a' <= c && c <= 'z')
    ||| ('A' <= c && c <= 'Z')
}

/// The string splits as a URL at position `i`: a nonempty scheme of scheme
/// characters starting with a letter, then `://`, then a nonempty remainder
/// that does not itself begin with `/`.
pub open spec fn url_split_at(s: Seq<char>, i: int) -> bool {
    &&& 1 <= i
    &&& i + 3 < s.len()
    &&& is_alpha(s[0])
    &&& (forall|j: int| 0 <= j < i ==> is_scheme_char(#[trigger] s[j]))
    &&& s[i] == ':'
    &&& s[i + 1] == '/'
    &&& s[i + 2] == '/'
    &&& s[i + 3] != '/'
}

/// The URL recognition predicate: the string has the scheme-and-host shape.
pub open spec fn url_match(s: Seq<char>) -> bool {
    exists|i: int| url_split_at(s, i)
}

/// The filesystem-path recognition predicate: absolute, or relative to `.`,
/// `..` or `~`.
pub open spec fn path_match(s: Seq<char>) -> bool {
    ||| (s.len() >= 1 && s[0] == '/')
    ||| (s.len() >= 2 && s[0] == '.' && s[1] == '/')
    ||| (s.len() >= 2 && s[0] == '~' && s[1] == '/')
    ||| (s.len() >= 3 && s[0] == '.' && s[1] == '.' && s[2] == '/')
}

/// A position where the scheme characters stop is the only position where a
/// URL can split.
pub proof fn lemma_url_split_is_scheme_end(s: Seq<char>, i: int, k: int)
    requires
        url_split_at(s, i),
        0 <= k <= s.len(),
        forall|j: int| 0 <= j < k ==> is_scheme_char(#[trigger] s[j]),
        k < s.len() ==> !is_scheme_char(s[k]),
    ensures
        i == k,
{
    if i < k {
        assert(is_scheme_char(s[i]));
    }
    if k < i {
        assert(is_scheme_char(s[k]));
    }
}

fn is_scheme_char_exec(c: char) -> (b: bool)
    ensures
        b == is_scheme_char(c),
{
    ('a' <= c && c <= 'z') || ('A' <= c && c <= 'Z') || ('0' <= c && c <= '9') || c == '+'
        || c == '-' || c == '.'
}

fn is_alpha_exec(c: char) -> (b: bool)
    ensures
        b == is_alpha(c),
{
    ('a' <= c && c <= 'z') || ('A' <= c && c <= 'Z')
}

/// The index of the first character of `raw` that cannot belong to a URL
/// scheme, or the length when every character can.
pub fn scheme_end(raw: &str) -> (i: usize)
    ensures
        i <= raw@.len(),
        forall|j: int| 0 <= j < i ==> is_scheme_char(#[trigger] raw@[j]),
        i < raw@.len() ==> !is_scheme_char(raw@[i as int]),
{
    let n = raw.unicode_len();
    let mut i: usize = 0;
    loop
        invariant
            i <= n,
            n == raw@.len(),
            forall|j: int| 0 <= j < i ==> is_scheme_char(#[trigger] raw@[j]),
        ensures
            i <= n,
            forall|j: int| 0 <= j < i ==> is_scheme_char(#[trigger] raw@[j]),
            i < n ==> !is_scheme_char(raw@[i as int]),
        decreases n - i,
    {
        if i >= n {
            break ;
        }
        if !is_scheme_char_exec(raw.get_char(i)) {
            break ;
        }
        i = i + 1;
    }
    i
}

/// Decides the URL recognition predicate by scanning for the end of the
/// scheme and checking the separator and the remainder.
pub fn url_matches(raw: &str) -> (b: bool)
    ensures
        b == url_match(raw@),
{
    let n = raw.unicode_len();
    let k = scheme_end(raw);
    let sound = k >= 1 && n - k >= 4 && is_alpha_exec(raw.get_char(0)) && raw.get_char(k) == ':'
        && raw.get_char(k + 1) == '/' && raw.get_char(k + 2) == '/' && raw.get_char(k + 3) != '/';
    if sound {
        proof {
            assert(url_split_at(raw@, k as int));
        }
        true
    } else {
        proof {
            assert forall|i: int| !url_split_at(raw@, i) by {
                if url_split_at(raw@, i) {
                    lemma_url_split_is_scheme_end(raw@, i, k as int);
                }
            }
        }
        false
    }
}

/// Decides the filesystem-path recognition predicate from the first
/// characters of the string.
pub fn path_matches(raw: &str) -> (b: bool)
    ensures
        b == path_match(raw@),
{
    let n = raw.unicode_len();
    if n == 0 {
        return false;
    }
    let c0 = raw.get_char(0);
    if c0 == '/' {
        return true;
    }
    if n >= 2 {
        let c1 = raw.get_char(1);
        if c0 == '.' && c1 == '/' {
            return true;
        }
        if c0 == '~' && c1 == '/' {
            return true;
        }
        if n >= 3 && c0 == '.' && c1 == '.' && raw.get_char(2) == '/' {
            return true;
        }
    }
    false
}

/// A classifier able to recognize one content shape and convert matching raw
/// text into that shape's content.
#[derive(Debug, Clone, Copy, PartialEq, Eq, Structural)]
pub enum Interpreter {
    Url,
    Path,
    Text,
}

impl Interpreter {
    /// The recognition predicate of this interpreter. The plain-text
    /// fallback recognizes every string.
    pub open spec fn matches_spec(&self, s: Seq<char>) -> bool {
        match self {
            Interpreter::Url => url_match(s),
            Interpreter::Path => path_match(s),
            Interpreter::Text => true,
        }
    }

    /// Decides whether this interpreter recognizes `raw`.
    pub fn matches(&self, raw: &str) -> (b: bool)
        ensures
            b == self.matches_spec(raw@),
    {
        match self {
            Interpreter::Url => url_matches(raw),
            Interpreter::Path => path_matches(raw),
            Interpreter::Text => true,
        }
    }

    /// Converts a string this interpreter has recognized into a bookmark.
    /// Conversion never loses the input: the long form of the produced
    /// content is the raw string itself.
    pub fn interpret(&self, raw: &str) -> (b: Bookmark)
        requires
            self.matches_spec(raw@),
        ensures
            b.content.wf(),
            b.content.raw_spec() == raw@,
            b.content.long_spec() == raw@,
            b.content.kind() == *self,
    {
        let content = match self {
            Interpreter::Url => Content::Url { raw: raw.to_owned() },
            Interpreter::Path => Content::Path { raw: raw.to_owned() },
            Interpreter::Text => Content::Text { raw: raw.to_owned() },
        };
        Bookmark { content }
    }
}

/// The canonical registry: the narrow classifiers first, the plain-text
/// fallback last. The order encodes priority.
pub open spec fn registry() -> Seq<Interpreter> {
    seq![Interpreter::Url, Interpreter::Path, Interpreter::Text]
}

/// The ordered interpreter registry, rebuilt on every call.
pub fn all_interpreters() -> (r: Vec<Interpreter>)
    ensures
        r@ == registry(),
{
    let mut v: Vec<Interpreter> = Vec::new();
    v.push(Interpreter::Url);
    v.push(Interpreter::Path);
    v.push(Interpreter::Text);
    proof {
        assert(v@ =~= registry());
    }
    v
}

/// The interpreter the resolution engine must select: the first in registry
/// order whose predicate holds on `s`.
pub open spec fn resolve_spec(s: Seq<char>) -> Interpreter {
    if url_match(s) {
        Interpreter::Url
    } else if path_match(s) {
        Interpreter::Path
    } else {
        Interpreter::Text
    }
}

/// The position in the registry of the interpreter the engine must select.
pub open spec fn resolve_index(s: Seq<char>) -> int {
    if url_match(s) {
        0
    } else if path_match(s) {
        1
    } else {
        2
    }
}

/// Selects the first interpreter in registry order that recognizes `raw`.
/// The plain-text fallback makes selection total, so the result is never
/// `None`; the contract still carries the optional shape the callers handle.
pub fn match_interpreter(raw: &str) -> (r: Option<Interpreter>)
    ensures
        r == Some(resolve_spec(raw@)),
        resolve_spec(raw@).matches_spec(raw@),
{
    let interpreters = all_interpreters();
    let n = interpreters.len();
    let mut idx: usize = 0;
    loop
        invariant
            idx <= n,
            n == registry().len(),
            interpreters@ == registry(),
            forall|j: int| 0 <= j < idx ==> !(#[trigger] registry()[j]).matches_spec(raw@),
        ensures
            idx < n,
            interpreters@[idx as int].matches_spec(raw@),
            forall|j: int| 0 <= j < idx ==> !(#[trigger] registry()[j]).matches_spec(raw@),
        decreases n - idx,
    {
        if idx >= n {
            proof {
                assert(registry()[2] == Interpreter::Text);
                assert(registry()[2].matches_spec(raw@));
                assert(false);
            }
        }
        if interpreters[idx].matches(raw) {
            break ;
        }
        idx = idx + 1;
    }
    let selected = interpreters[idx];
    proof {
        assert(registry()[0] == Interpreter::Url);
        assert(registry()[1] == Interpreter::Path);
        assert(registry()[2] == Interpreter::Text);
        assert(selected == resolve_spec(raw@));
    }
    Some(selected)
}

/// Determinism of resolution: the selected interpreter stands in the
/// registry, its predicate holds on the input, and no interpreter earlier in
/// registry order matches — selection is exactly first-match-wins.
pub proof fn lemma_resolve_first_match(s: Seq<char>)
    ensures
        0 <= resolve_index(s) < registry().len(),
        registry()[resolve_index(s)] == resolve_spec(s),
        resolve_spec(s).matches_spec(s),
        forall|j: int| 0 <= j < resolve_index(s) ==> !(#[trigger] registry()[j]).matches_spec(s),
{
    assert(registry()[0] == Interpreter::Url);
    assert(registry()[1] == Interpreter::Path);
    assert(registry()[2] == Interpreter::Text);
}

/// Totality of the fallback: the plain-text interpreter, the last entry of
/// the registry, recognizes every string that no earlier interpreter
/// recognizes — indeed it recognizes every string.
pub proof fn lemma_fallback_total(s: Seq<char>)
    ensures
        registry().last() == Interpreter::Text,
        (forall|j: int| 0 <= j < registry().len() - 1 ==> !(#[trigger] registry()[j]).matches_spec(
            s,
        )) ==> registry().last().matches_spec(s),
        registry().last().matches_spec(s),
{
    assert(registry().last() == Interpreter::Text);
}

/// Round-trip identity for URLs: content classified by the URL interpreter
/// restores, in its long form, exactly the raw string it was classified from.
pub proof fn lemma_url_round_trip(c: Content, s: Seq<char>)
    requires
        c.kind() == Interpreter::Url,
        c.raw_spec() == s,
    ensures
        c.long_spec() == s,
{
}

} // verus!
