//! Regular expressions in the configuration (alert patterns, icon rules,
//! block lists), compiled and matched by the `regex` crate.

use crate::text::str_eq;
use vstd::prelude::*;

verus! {

#[verifier::external_type_specification]
#[verifier::external_body]
pub struct ExRegex(regex::Regex);

#[verifier::external_type_specification]
#[verifier::external_body]
pub struct ExRegexError(regex::Error);

/// Whether `regex` accepts `pattern` (valid syntax, within the default size
/// limit).
pub uninterp spec fn regex_compiles(pattern: Seq<char>) -> bool;

/// Whether the regex compiled from `pattern` has a match anywhere in
/// `haystack`.
pub uninterp spec fn regex_finds(pattern: Seq<char>, haystack: Seq<char>) -> bool;

/// An ASCII letter or digit; none of them is a regex meta character.
pub open spec fn is_ascii_alnum(c: char) -> bool {
    ('0' <= c <= '9') || ('a' <= c <= 'z') || ('A' <= c <= 'Z')
}

/// A short pattern made only of ASCII letters and digits: a regex that
/// stands for itself, literally.
pub open spec fn is_plain_literal(p: Seq<char>) -> bool {
    &&& 0 < p.len() <= 64
    &&& forall|i: int| 0 <= i < p.len() ==> #[trigger] is_ascii_alnum(p[i])
}

/// `needle` occurs in `haystack` starting at position `i`.
pub open spec fn occurs_at(haystack: Seq<char>, needle: Seq<char>, i: int) -> bool {
    0 <= i && i + needle.len() <= haystack.len() && haystack.subrange(i, i + needle.len())
        == needle
}

/// `needle` occurs somewhere in `haystack`.
pub open spec fn occurs_in(haystack: Seq<char>, needle: Seq<char>) -> bool {
    exists|i: int| occurs_at(haystack, needle, i)
}

/// Why a pattern was refused: the pattern and `regex`'s own diagnosis.
#[derive(Debug)]
pub struct InvalidPattern {
    pub pattern: String,
    pub cause: regex::Error,
}

/// Compiles `pattern` with `regex::Regex::new`. The contract claims that
/// compilation succeeds exactly for the patterns `regex` accepts (a property
/// of the pattern alone), and that a short plain ASCII-alphanumeric pattern is
/// always accepted: it holds no meta character (`regex::escape` leaves it
/// unchanged) and compiles far below the default size limit.
#[verifier::external_body]
fn compile_pattern(pattern: &str) -> (res: Result<regex::Regex, regex::Error>)
    ensures
        res is Ok <==> regex_compiles(pattern@),
        is_plain_literal(pattern@) ==> res is Ok,
{
    regex::Regex::new(pattern)
}

/// A compiled regular expression together with its source text. Equality
/// and hashing go by the source text.
#[derive(Debug)]
pub struct RegexCfg {
    pattern: String,
    compiled: regex::Regex,
}

/// Runs `regex::Regex::is_match` of the regex held by `cfg` on `haystack`.
/// Claims that the answer is whether the regex compiled from the held source
/// text matches anywhere in `haystack` (the two fields are only ever filled
/// together, by `RegexCfg::new`), and that for a plain literal source that
/// means the literal occurs in `haystack`, as the crate documents for literal
/// characters.
#[verifier::external_body]
fn compiled_is_match(cfg: &RegexCfg, haystack: &str) -> (b: bool)
    ensures
        b == regex_finds(cfg.source(), haystack@),
        is_plain_literal(cfg.source()) ==> (b == occurs_in(haystack@, cfg.source())),
{
    cfg.compiled.is_match(haystack)
}

impl RegexCfg {
    /// The source text the regex was compiled from.
    pub closed spec fn source(&self) -> Seq<char> {
        self.pattern@
    }

    /// Compiles `pattern`; refused exactly when `regex` refuses it.
    pub fn new(pattern: &str) -> (res: Result<RegexCfg, InvalidPattern>)
        ensures
            res is Ok <==> regex_compiles(pattern@),
            is_plain_literal(pattern@) ==> res is Ok,
            match res {
                Ok(cfg) => cfg.source() == pattern@,
                Err(e) => e.pattern@ == pattern@,
            },
    {
        match compile_pattern(pattern) {
            Ok(compiled) => Ok(RegexCfg { pattern: String::from_str(pattern), compiled }),
            Err(cause) => Err(InvalidPattern { pattern: String::from_str(pattern), cause }),
        }
    }

    /// The source text, as `Regex::as_str` gives it.
    pub fn as_str(&self) -> (s: &str)
        ensures
            s@ == self.source(),
    {
        self.pattern.as_str()
    }

    /// Whether the regex matches anywhere in `haystack`.
    pub fn is_match(&self, haystack: &str) -> (b: bool)
        ensures
            b == regex_finds(self.source(), haystack@),
            is_plain_literal(self.source()) ==> (b == occurs_in(haystack@, self.source())),
    {
        compiled_is_match(self, haystack)
    }

    /// Two patterns are the same when their source texts are.
    pub fn same_pattern(&self, other: &RegexCfg) -> (b: bool)
        ensures
            b == (self.source() == other.source()),
    {
        str_eq(self.pattern.as_str(), other.pattern.as_str())
    }
}

/// Copies the regex held by `cfg` with `regex::Regex::clone`; nothing is
/// claimed of the copy beyond its type.
#[verifier::external_body]
fn clone_compiled(cfg: &RegexCfg) -> regex::Regex {
    cfg.compiled.clone()
}

impl Clone for RegexCfg {
    fn clone(&self) -> (res: Self)
        ensures
            res.source() == self.source(),
    {
        RegexCfg { pattern: self.pattern.clone(), compiled: clone_compiled(self) }
    }
}

impl PartialEq for RegexCfg {
    fn eq(&self, other: &Self) -> (b: bool) {
        self.same_pattern(other)
    }
}

impl vstd::std_specs::cmp::PartialEqSpecImpl for RegexCfg {
    open spec fn obeys_eq_spec() -> bool {
        true
    }

    open spec fn eq_spec(&self, other: &Self) -> bool {
        self.source() == other.source()
    }
}

impl Eq for RegexCfg {

}

} // verus!
