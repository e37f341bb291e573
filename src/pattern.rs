//! Compiled search patterns and the substitution they perform.
use vstd::prelude::*;

verus! {

#[verifier::external_type_specification]
#[verifier::external_body]
pub struct ExRegex(regex::Regex);

/// Whether the regex crate accepts `p` as a pattern.
pub uninterp spec fn regex_accepts(p: Seq<char>) -> bool;

/// The diagnostic the regex crate gives when it rejects the pattern `p`.
pub uninterp spec fn regex_diagnostic(p: Seq<char>) -> Seq<char>;

/// The text obtained from `text` by replacing every non-overlapping match of
/// the pattern `p` (leftmost-first) by `template`, in which `$n` and `${name}`
/// stand for the matched capture group; a group that does not exist or did not
/// take part in the match expands to the empty string.
pub uninterp spec fn regex_replace_all(p: Seq<char>, text: Seq<char>, template: Seq<char>) -> Seq<char>;

/// A search pattern that compiled, together with the text it was compiled from.
/// Values are only made by `Pattern::new`, so the compiled form always belongs
/// to `source`.
pub struct Pattern {
    source: String,
    regex: regex::Regex,
}

impl View for Pattern {
    type V = Seq<char>;

    /// The text the pattern was compiled from.
    closed spec fn view(&self) -> Seq<char> {
        self.source@
    }
}

/// Relies on regex::Regex::new: it accepts or rejects a pattern by its text
/// alone, never panics, accepts the empty pattern, and describes a rejection
/// through the error's `Display`.
#[verifier::external_body]
fn compile(p: &str) -> (r: Result<Pattern, String>)
    ensures
        r is Ok <==> regex_accepts(p@),
        r matches Ok(pat) ==> pat@ == p@,
        r matches Err(m) ==> m@ == regex_diagnostic(p@),
        p@.len() == 0 ==> r is Ok,
{
    match regex::Regex::new(p) {
        Ok(regex) => Ok(Pattern { source: p.to_string(), regex }),
        Err(e) => Err(e.to_string()),
    }
}

/// Relies on regex::Regex::replace_all with a `&str` replacement: every match
/// is replaced, capture references in the template are expanded; with the
/// empty pattern and the empty template each (empty) match gives way to
/// nothing, so the text comes back as it was.
#[verifier::external_body]
fn replace_all(pat: &Pattern, text: &str, template: &str) -> (r: String)
    ensures
        r@ == regex_replace_all(pat@, text@, template@),
        pat@.len() == 0 && template@.len() == 0 ==> r@ == text@,
{
    pat.regex.replace_all(text, template).to_string()
}

impl Pattern {
    /// Compiles `p`; on rejection, returns the compiler's diagnostic.
    pub fn new(p: &str) -> (r: Result<Pattern, String>)
        ensures
            r is Ok <==> regex_accepts(p@),
            r matches Ok(pat) ==> pat@ == p@,
            r matches Err(m) ==> m@ == regex_diagnostic(p@),
            p@.len() == 0 ==> r is Ok,
    {
        compile(p)
    }

    /// The text the pattern was compiled from.
    pub fn as_str(&self) -> (r: &str)
        ensures
            r@ == self@,
    {
        self.source.as_str()
    }

    /// Replaces every match of this pattern in `text` by `template`.
    pub fn replace_all(&self, text: &str, template: &str) -> (r: String)
        ensures
            r@ == regex_replace_all(self@, text@, template@),
            self@.len() == 0 && template@.len() == 0 ==> r@ == text@,
    {
        replace_all(self, text, template)
    }
}

} // verus!
