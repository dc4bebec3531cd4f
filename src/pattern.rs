//! Regular expressions with named capture groups, and the fields they yield.

use vstd::prelude::*;

verus! {

#[verifier::external_type_specification]
#[verifier::external_body]
pub struct ExRegex(regex::Regex);

#[verifier::external_type_specification]
#[verifier::external_body]
pub struct ExRegexError(regex::Error);

/// Whether `regex::Regex::new` accepts a pattern (its syntax is valid and the
/// compiled program stays under the default size limit).
pub uninterp spec fn regex_compiles(pattern: Seq<char>) -> bool;

/// The names of a compiled pattern's capture groups, in the order of their
/// opening parentheses; `None` for an unnamed group, and group 0 first.
pub uninterp spec fn capture_names_of(pattern: Seq<char>) -> Seq<Option<Seq<char>>>;

/// The groups of the leftmost-first match of a pattern in a text: for each
/// group, in group order, the text it matched, or `None` where it did not take
/// part. `None` as a whole where the pattern does not match.
pub uninterp spec fn captures_of(pattern: Seq<char>, text: Seq<char>) -> Option<
    Seq<Option<Seq<char>>>,
>;

/// Relies on `regex::Regex::new`: it succeeds exactly on the patterns it
/// accepts.
#[verifier::external_body]
fn compile(pattern: &str) -> (r: Result<regex::Regex, regex::Error>)
    ensures
        r.is_ok() == regex_compiles(pattern@),
{
    regex::Regex::new(pattern)
}

/// Relies on the `Display` impl of `regex::Error` for a readable message.
#[verifier::external_body]
fn error_message(e: &regex::Error) -> (r: String) {
    e.to_string()
}

/// A compiled regular expression together with the pattern it was built from.
///
/// The two fields are private and set together by `new` alone, so the compiled
/// expression is always the one that `pattern` denotes.
pub struct FieldPattern {
    pattern: String,
    regex: regex::Regex,
}

/// Why a pattern could not be compiled.
#[derive(Clone, Debug, PartialEq, Eq)]
pub struct PatternError {
    pub pattern: String,
    pub message: String,
}

impl View for FieldPattern {
    type V = Seq<char>;

    closed spec fn view(&self) -> Seq<char> {
        self.pattern@
    }
}

/// Relies on `regex::Regex::captures`, read through `Captures::iter` and
/// `Match::as_str`: the groups of the first match, or `None`.
#[verifier::external_body]
fn captures_in(p: &FieldPattern, text: &str) -> (r: Option<Vec<Option<String>>>)
    ensures
        r.deep_view() == captures_of(p@, text@),
{
    p.regex.captures(text).map(|c| c.iter().map(|m| m.map(|m| m.as_str().to_string())).collect())
}

/// Relies on `regex::Regex::capture_names`: the name of each group in order.
#[verifier::external_body]
fn names_of(p: &FieldPattern) -> (r: Vec<Option<String>>)
    ensures
        r.deep_view() == capture_names_of(p@),
{
    p.regex.capture_names().map(|n| n.map(|s| s.to_string())).collect()
}

impl FieldPattern {
    /// Compiles `pattern`; fails exactly when the regex engine refuses it.
    pub fn new(pattern: &str) -> (r: Result<FieldPattern, PatternError>)
        ensures
            r.is_ok() == regex_compiles(pattern@),
            r matches Ok(p) ==> p@ == pattern@,
            r matches Err(e) ==> e.pattern@ == pattern@,
    {
        match compile(pattern) {
            Ok(regex) => Ok(FieldPattern { pattern: String::from_str(pattern), regex }),
            Err(e) => Err(PatternError { pattern: String::from_str(pattern), message: error_message(&e) }),
        }
    }

    /// The pattern this expression was compiled from.
    pub fn as_str(&self) -> (r: &str)
        ensures
            r@ == self@,
    {
        self.pattern.as_str()
    }

    /// The groups of the first match in `text`, or `None` where it does not match.
    pub fn groups(&self, text: &str) -> (r: Option<Vec<Option<String>>>)
        ensures
            r.deep_view() == captures_of(self@, text@),
    {
        captures_in(self, text)
    }

    /// The name of each capture group, in group order.
    pub fn group_names(&self) -> (r: Vec<Option<String>>)
        ensures
            r.deep_view() == capture_names_of(self@),
    {
        names_of(self)
    }
}

/// The text of group `i`: empty where the group did not take part in the match.
pub open spec fn group_text(groups: Seq<Option<Seq<char>>>, i: int) -> Seq<char> {
    if 0 <= i < groups.len() && groups[i] is Some {
        groups[i]->0
    } else {
        Seq::empty()
    }
}

/// The named groups, in group order, each paired with the text it matched.
/// Unnamed groups are left out.
pub open spec fn named_fields(
    names: Seq<Option<Seq<char>>>,
    groups: Seq<Option<Seq<char>>>,
) -> Seq<(Seq<char>, Seq<char>)>
    decreases names.len(),
{
    if names.len() == 0 {
        Seq::empty()
    } else {
        let i = names.len() - 1;
        let before = named_fields(names.take(i), groups);
        match names[i] {
            Some(name) => before.push((name, group_text(groups, i))),
            None => before,
        }
    }
}

/// Pairs each named group with the text it captured, or with an empty text
/// where the group did not take part in the match.
pub fn fields_from_groups(names: &Vec<Option<String>>, groups: &Vec<Option<String>>) -> (r: Vec<
    (String, String),
>)
    ensures
        r.deep_view() == named_fields(names.deep_view(), groups.deep_view()),
{
    let ghost nv = names.deep_view();
    let mut r: Vec<(String, String)> = Vec::new();
    let mut i: usize = 0;
    while i < names.len()
        invariant
            i <= names.len(),
            nv == names.deep_view(),
            r.deep_view() == named_fields(nv.take(i as int), groups.deep_view()),
        decreases names.len() - i,
    {
        assert(nv.take(i + 1).take(i as int) == nv.take(i as int));
        match &names[i] {
            Some(name) => {
                let text = if i < groups.len() {
                    match &groups[i] {
                        Some(t) => t.clone(),
                        None => String::new(),
                    }
                } else {
                    String::new()
                };
                r.push((name.clone(), text));
                assert(r.deep_view() =~= named_fields(nv.take(i + 1), groups.deep_view()));
            },
            None => {},
        }
        i += 1;
    }
    assert(nv.take(names.len() as int) == nv);
    r
}

} // verus!
