//! Compiled exclude patterns.
//!
//! A [`Pattern`] pairs a regular-expression source string with its compiled
//! form. Compilation and matching are done by the `regex` crate; everything
//! stated about them goes through the two uninterpreted names below, so that
//! contracts elsewhere can say exactly which paths a pattern set lets
//! through without restating the regex language.

use vstd::prelude::*;

verus! {

/// Whether `pattern` is a regular expression that `regex::Regex::new`
/// accepts. Compilation is a function of the pattern string alone.
pub uninterp spec fn regex_valid(pattern: Seq<char>) -> bool;

/// Whether the regular expression `pattern` matches anywhere inside `text`
/// (search, not anchored full match). A function of the two strings alone.
pub uninterp spec fn regex_match(pattern: Seq<char>, text: Seq<char>) -> bool;

#[verifier::external_type_specification]
#[verifier::external_body]
pub struct ExRegex(regex::Regex);

#[verifier::external_type_specification]
#[verifier::external_body]
pub struct ExRegexError(regex::Error);

/// One compiled exclude pattern. The compiled form always stems from the
/// stored source, so its behaviour is `regex_match` of that source.
pub struct Pattern {
    source: String,
    compiled: regex::Regex,
}

impl View for Pattern {
    type V = Seq<char>;

    /// A pattern is modelled by its source string.
    closed spec fn view(&self) -> Seq<char> {
        self.source@
    }
}

impl Pattern {
    /// Relies on `regex::Regex::new`: it returns `Ok` exactly on the pattern
    /// strings it accepts, deciding by the pattern string alone.
    #[verifier::external_body]
    pub(crate) fn new(source: String) -> (r: Result<Pattern, regex::Error>)
        ensures
            r is Ok <==> regex_valid(source@),
            r matches Ok(p) ==> p@ == source@,
    {
        match regex::Regex::new(&source) {
            Ok(compiled) => Ok(Pattern { source, compiled }),
            Err(e) => Err(e),
        }
    }

    /// Relies on `regex::Regex::is_match`: true iff the expression matches
    /// anywhere in `text`, a function of the pattern and the text alone.
    #[verifier::external_body]
    pub(crate) fn matches(&self, text: &str) -> (r: bool)
        ensures
            r == regex_match(self@, text@),
    {
        self.compiled.is_match(text)
    }

    /// The pattern's source string, for diagnostics.
    pub fn source(&self) -> (r: &str)
        ensures
            r@ == self@,
    {
        self.source.as_str()
    }
}

/// Whether some pattern in `patterns` matches `text`.
pub open spec fn spec_excluded(patterns: Seq<Pattern>, text: Seq<char>) -> bool {
    exists|i: int| 0 <= i < patterns.len() && regex_match(patterns[i]@, text)
}

/// The first pattern in `patterns` that matches `text`, if any.
///
/// `None` means no pattern matches, so the path survives the exclude filter.
pub fn first_match(patterns: &Vec<Pattern>, text: &str) -> (r: Option<usize>)
    ensures
        match r {
            Some(i) => {
                &&& i < patterns@.len()
                &&& regex_match(patterns@[i as int]@, text@)
                &&& forall|j: int| 0 <= j < i ==> !regex_match(patterns@[j]@, text@)
            },
            None => !spec_excluded(patterns@, text@),
        },
{
    let mut i: usize = 0;
    while i < patterns.len()
        invariant
            i <= patterns@.len(),
            forall|j: int| 0 <= j < i ==> !regex_match(patterns@[j]@, text@),
        decreases patterns@.len() - i,
    {
        if patterns[i].matches(text) {
            return Some(i);
        }
        i += 1;
    }
    None
}

/// The first pattern in `patterns` that matches either of the two texts, if
/// any: the filter for a rename, which is excluded when either its old or
/// its new path matches.
pub fn first_match_pair(patterns: &Vec<Pattern>, a: &str, b: &str) -> (r: Option<usize>)
    ensures
        match r {
            Some(i) => {
                &&& i < patterns@.len()
                &&& (regex_match(patterns@[i as int]@, a@)
                    || regex_match(patterns@[i as int]@, b@))
                &&& forall|j: int| 0 <= j < i
                    ==> !regex_match(patterns@[j]@, a@) && !regex_match(patterns@[j]@, b@)
            },
            None => !spec_excluded(patterns@, a@) && !spec_excluded(patterns@, b@),
        },
{
    let mut i: usize = 0;
    while i < patterns.len()
        invariant
            i <= patterns@.len(),
            forall|j: int| 0 <= j < i
                ==> !regex_match(patterns@[j]@, a@) && !regex_match(patterns@[j]@, b@),
        decreases patterns@.len() - i,
    {
        if patterns[i].matches(a) || patterns[i].matches(b) {
            return Some(i);
        }
        i += 1;
    }
    None
}

} // verus!
