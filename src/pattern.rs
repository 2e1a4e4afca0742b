//! Regular expressions, compiled once and then used through trusted calls into
//! the regex crate.
use vstd::prelude::*;

verus! {

#[verifier::external_type_specification]
#[verifier::external_body]
pub struct ExRegex(regex::Regex);

/// Whether `regex::RegexBuilder::build` accepts the pattern.
pub uninterp spec fn regex_compiles(pattern: Seq<char>, case_insensitive: bool) -> bool;

/// What `regex::Regex::is_match` returns: the pattern matches somewhere in the text.
pub uninterp spec fn regex_matches(pattern: Seq<char>, case_insensitive: bool, text: Seq<char>) -> bool;

/// What `regex::Regex::replace_all` returns: every match in the text replaced
/// by the template, with `$name` and `$n` expanded from the match's groups.
pub uninterp spec fn regex_replaced(
    pattern: Seq<char>,
    case_insensitive: bool,
    text: Seq<char>,
    template: Seq<char>,
) -> Seq<char>;

/// What `regex::Captures::expand` writes for the first match in the text: the
/// template with `$name` and `$n` replaced by that match's groups.
pub uninterp spec fn regex_expanded(
    pattern: Seq<char>,
    case_insensitive: bool,
    text: Seq<char>,
    template: Seq<char>,
) -> Seq<char>;

/// Relies on `regex::RegexBuilder::build`, with case folding set as asked:
/// it yields a regex exactly when the pattern is accepted.
#[verifier::external_body]
fn build_regex(pattern: &str, case_insensitive: bool) -> (r: Option<regex::Regex>)
    ensures
        r is Some == regex_compiles(pattern@, case_insensitive),
{
    regex::RegexBuilder::new(pattern).case_insensitive(case_insensitive).build().ok()
}

/// A compiled regular expression, with the text and flag it was compiled from.
pub struct Pattern {
    re: regex::Regex,
    source: String,
    case_insensitive: bool,
}

impl View for Pattern {
    /// The pattern's text, and whether it ignores case.
    type V = (Seq<char>, bool);

    closed spec fn view(&self) -> (Seq<char>, bool) {
        (self.source@, self.case_insensitive)
    }
}

impl Pattern {
    /// Compiles `pattern`; `None` where the regex crate refuses it.
    pub fn new(pattern: &str, case_insensitive: bool) -> (r: Option<Pattern>)
        ensures
            r is Some == regex_compiles(pattern@, case_insensitive),
            r is Some ==> r->Some_0@ == (pattern@, case_insensitive),
    {
        match build_regex(pattern, case_insensitive) {
            Some(re) => Some(Pattern { re, source: String::from_str(pattern), case_insensitive }),
            None => None,
        }
    }

    /// Relies on `regex::Regex::is_match`, on the regex that `new` built from
    /// this pattern's text and flag.
    #[verifier::external_body]
    pub(crate) fn is_match(&self, text: &str) -> (r: bool)
        ensures
            r == regex_matches(self@.0, self@.1, text@),
    {
        self.re.is_match(text)
    }

    /// Relies on `regex::Regex::replace_all`, on the regex that `new` built
    /// from this pattern's text and flag.
    #[verifier::external_body]
    pub(crate) fn replace_all(&self, text: &str, template: &str) -> (r: String)
        ensures
            r@ == regex_replaced(self@.0, self@.1, text@, template@),
    {
        self.re.replace_all(text, template).into_owned()
    }

    /// Relies on `regex::Regex::captures`, which finds the first match and is
    /// `None` exactly when there is none, and on `regex::Captures::expand`,
    /// which fills the template from that match's groups.
    #[verifier::external_body]
    pub(crate) fn expand(&self, text: &str, template: &str) -> (r: Option<String>)
        ensures
            r is Some == regex_matches(self@.0, self@.1, text@),
            r is Some ==> r->Some_0@ == regex_expanded(self@.0, self@.1, text@, template@),
    {
        match self.re.captures(text) {
            Some(caps) => {
                let mut out = String::new();
                caps.expand(template, &mut out);
                Some(out)
            },
            None => None,
        }
    }
}

} // verus!
