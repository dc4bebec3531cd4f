//! Deciding from a state command's output whether tracking is on.

use vstd::prelude::*;

use crate::pattern::{capture_names_of, captures_of, fields_from_groups, named_fields, FieldPattern};

verus! {

/// How many characters of an unmatched output an error keeps.
pub const SNIPPET_LEN: usize = 80;

/// The fields of a classification: named groups paired with their text.
pub type Fields = Vec<(String, String)>;

/// The outcome of classifying a state command's output.
#[derive(Clone, Debug, PartialEq, Eq)]
pub struct Classification {
    /// Whether the ON expression matched.
    pub on: bool,
    /// The named groups of the expression that matched.
    pub fields: Fields,
}

#[derive(Clone, Debug, PartialEq, Eq)]
pub enum ClassifyError {
    /// Neither expression matched; holds the start of the output.
    NoMatch(String),
}

/// The start of an output, as kept for diagnostics.
pub open spec fn snippet(s: Seq<char>) -> Seq<char> {
    if s.len() <= SNIPPET_LEN {
        s
    } else {
        s.take(SNIPPET_LEN as int)
    }
}

/// The mathematical outcome of a classification: `Ok((on, fields))`, or
/// `Err(snippet)` where neither expression matched.
pub type ClassifiedModel = Result<(bool, Seq<(Seq<char>, Seq<char>)>), Seq<char>>;

/// The model of an executable classification result.
pub open spec fn classified_view(r: Result<Classification, ClassifyError>) -> ClassifiedModel {
    match r {
        Ok(c) => Ok((c.on, c.fields.deep_view())),
        Err(ClassifyError::NoMatch(s)) => Err(s@),
    }
}

/// The ON groups win; the OFF groups are consulted only where ON did not match.
pub open spec fn classify_groups_spec(
    on_names: Seq<Option<Seq<char>>>,
    on_groups: Option<Seq<Option<Seq<char>>>>,
    off_names: Seq<Option<Seq<char>>>,
    off_groups: Option<Seq<Option<Seq<char>>>>,
    output: Seq<char>,
) -> ClassifiedModel {
    match on_groups {
        Some(g) => Ok((true, named_fields(on_names, g))),
        None => match off_groups {
            Some(g) => Ok((false, named_fields(off_names, g))),
            None => Err(snippet(output)),
        },
    }
}

/// How `output` classifies under the patterns `on` and `off`.
pub open spec fn classification_of(
    on: Seq<char>,
    off: Seq<char>,
    output: Seq<char>,
) -> ClassifiedModel {
    classify_groups_spec(
        capture_names_of(on),
        captures_of(on, output),
        capture_names_of(off),
        captures_of(off, output),
        output,
    )
}

/// Keeps at most `SNIPPET_LEN` characters of `output`.
pub fn truncate_output(output: &str) -> (r: String)
    ensures
        r@ == snippet(output@),
{
    let n = output.unicode_len();
    if n <= SNIPPET_LEN {
        String::from_str(output)
    } else {
        String::from_str(output.substring_char(0, SNIPPET_LEN))
    }
}

/// Classifies from the groups that each expression yielded: ON where the ON
/// expression matched, else OFF where the OFF one did, else an error.
pub fn classify_groups(
    on_names: &Vec<Option<String>>,
    on_groups: Option<Vec<Option<String>>>,
    off_names: &Vec<Option<String>>,
    off_groups: Option<Vec<Option<String>>>,
    output: &str,
) -> (r: Result<Classification, ClassifyError>)
    ensures
        classified_view(r) == classify_groups_spec(
            on_names.deep_view(),
            on_groups.deep_view(),
            off_names.deep_view(),
            off_groups.deep_view(),
            output@,
        ),
{
    match on_groups {
        Some(g) => Ok(Classification { on: true, fields: fields_from_groups(on_names, &g) }),
        None => match off_groups {
            Some(g) => Ok(Classification { on: false, fields: fields_from_groups(off_names, &g) }),
            None => Err(ClassifyError::NoMatch(truncate_output(output))),
        },
    }
}

/// Classifies a state command's output: `on` is tried first, and `off` only
/// where `on` does not match.
pub fn classify(output: &str, on: &FieldPattern, off: &FieldPattern) -> (r: Result<
    Classification,
    ClassifyError,
>)
    ensures
        classified_view(r) == classification_of(on@, off@, output@),
{
    let on_groups = on.groups(output);
    let off_groups = if on_groups.is_some() {
        None
    } else {
        off.groups(output)
    };
    classify_groups(&on.group_names(), on_groups, &off.group_names(), off_groups, output)
}

/// Where both expressions match the same output, it classifies as ON, with
/// the fields of the ON expression.
pub proof fn on_match_wins(on: Seq<char>, off: Seq<char>, output: Seq<char>)
    requires
        captures_of(on, output) is Some,
        captures_of(off, output) is Some,
    ensures
        classification_of(on, off, output) == Ok::<_, Seq<char>>(
            (true, named_fields(capture_names_of(on), captures_of(on, output)->0)),
        ),
{
}

} // verus!
