//! The fields a template is rendered with, and which placeholders a pattern
//! can fill.
//!
//! The tracker's fields are `tags`, `hours` and `minutes`. A pattern may
//! capture any of them; the ones it does not define show as empty text. Any
//! other placeholder must be a named group of the pattern.

use vstd::prelude::*;

use crate::pattern::named_fields;
use crate::template::{lemma_lookup_append, lemma_render_ok, lookup, render_pieces, FormatTemplate, Piece, Segment};

verus! {

/// Whether `name` is one of the tracker's fields.
pub open spec fn is_standard(name: Seq<char>) -> bool {
    name == "tags"@ || name == "hours"@ || name == "minutes"@
}

/// An empty value for each of the tracker's fields.
pub open spec fn blank_fields() -> Seq<(Seq<char>, Seq<char>)> {
    seq![("tags"@, Seq::empty()), ("hours"@, Seq::empty()), ("minutes"@, Seq::empty())]
}

/// The fields a template is rendered with: the captured ones first, so that
/// they win, then the blanks.
pub open spec fn display_fields(fields: Seq<(Seq<char>, Seq<char>)>) -> Seq<(Seq<char>, Seq<char>)> {
    fields + blank_fields()
}

/// Whether a placeholder `name` can be filled from a pattern with these
/// group names.
pub open spec fn known(names: Seq<Option<Seq<char>>>, name: Seq<char>) -> bool {
    is_standard(name) || names.contains(Some(name))
}

/// The first placeholder that a pattern with these group names cannot fill.
pub open spec fn first_unknown(pieces: Seq<Piece>, names: Seq<Option<Seq<char>>>) -> Option<Seq<char>>
    decreases pieces.len(),
{
    if pieces.len() == 0 {
        None
    } else {
        match pieces[0] {
            Piece::Name(n) => if known(names, n) {
                first_unknown(pieces.drop_first(), names)
            } else {
                Some(n)
            },
            Piece::Literal(_) => first_unknown(pieces.drop_first(), names),
        }
    }
}

/// Appends an empty value for each of `tags`, `hours` and `minutes`.
pub fn with_blanks(fields: Vec<(String, String)>) -> (r: Vec<(String, String)>)
    ensures
        r.deep_view() == display_fields(fields.deep_view()),
{
    let mut r = fields;
    r.push((String::from_str("tags"), String::new()));
    r.push((String::from_str("hours"), String::new()));
    r.push((String::from_str("minutes"), String::new()));
    assert(r.deep_view() =~= display_fields(fields.deep_view()));
    r
}

/// Whether `name` is one of the tracker's fields, or a group of `names`.
pub fn is_known(names: &Vec<Option<String>>, name: &String) -> (r: bool)
    ensures
        r == known(names.deep_view(), name@),
{
    let tags = String::from_str("tags");
    let hours = String::from_str("hours");
    let minutes = String::from_str("minutes");
    if *name == tags || *name == hours || *name == minutes {
        return true;
    }
    let ghost nv = names.deep_view();
    let mut i: usize = 0;
    while i < names.len()
        invariant
            i <= names.len(),
            nv == names.deep_view(),
            forall|j: int| 0 <= j < i ==> nv[j] != Some(name@),
        decreases names.len() - i,
    {
        match &names[i] {
            Some(k) => {
                if *k == *name {
                    assert(nv[i as int] == Some(name@));
                    return true;
                }
            },
            None => {},
        }
        i += 1;
    }
    false
}

/// The first placeholder of `t` that a pattern with these group names cannot
/// fill, if any.
pub fn unknown_field(t: &FormatTemplate, names: &Vec<Option<String>>) -> (r: Option<String>)
    ensures
        r.deep_view() == first_unknown(t@, names.deep_view()),
{
    let segments = t.segments();
    let ghost pieces = t@;
    let mut i: usize = 0;
    assert(pieces.skip(0) =~= pieces);
    while i < segments.len()
        invariant
            i <= segments.len(),
            pieces == t@,
            pieces == segments@.map_values(|s: Segment| s@),
            first_unknown(pieces, names.deep_view()) == first_unknown(pieces.skip(i as int), names.deep_view()),
        decreases segments.len() - i,
    {
        assert(pieces.skip(i as int)[0] == pieces[i as int]);
        assert(pieces[i as int] == segments@[i as int]@);
        assert(pieces.skip(i as int).drop_first() =~= pieces.skip(i + 1));
        match &segments[i] {
            Segment::Placeholder(n) => {
                if !is_known(names, n) {
                    return Some(n.clone());
                }
            },
            Segment::Literal(_) => {},
        }
        i += 1;
    }
    None
}

/// Every named group of a pattern has a field in what it captured.
pub proof fn lemma_named_group_has_field(
    names: Seq<Option<Seq<char>>>,
    groups: Seq<Option<Seq<char>>>,
    i: int,
)
    requires
        0 <= i < names.len(),
        names[i] is Some,
    ensures
        lookup(named_fields(names, groups), names[i]->0) is Some,
    decreases names.len(),
{
    let last = names.len() - 1;
    let before = named_fields(names.take(last), groups);
    let n = names[i]->0;
    if i < last {
        assert(names.take(last)[i] == names[i]);
        lemma_named_group_has_field(names.take(last), groups, i);
    }
    match names[last] {
        Some(k) => {
            let x = (k, crate::pattern::group_text(groups, last));
            assert(before.push(x) =~= before + seq![x]);
            lemma_lookup_append(before, seq![x], n);
            assert(seq![x].drop_first() =~= Seq::<(Seq<char>, Seq<char>)>::empty());
        },
        None => {},
    }
}

/// Every placeholder known to a pattern has a field among the captured ones
/// and the blanks.
pub proof fn lemma_known_has_field(
    names: Seq<Option<Seq<char>>>,
    groups: Seq<Option<Seq<char>>>,
    name: Seq<char>,
)
    requires
        known(names, name),
    ensures
        lookup(display_fields(named_fields(names, groups)), name) is Some,
{
    let fields = named_fields(names, groups);
    lemma_lookup_append(fields, blank_fields(), name);
    if names.contains(Some(name)) {
        let i = choose|i: int| 0 <= i < names.len() && names[i] == Some(name);
        lemma_named_group_has_field(names, groups, i);
    } else {
        let b = blank_fields();
        assert(b.drop_first().drop_first().drop_first() =~= Seq::<(Seq<char>, Seq<char>)>::empty());
        reveal_with_fuel(lookup, 4);
    }
}

/// Where no placeholder is unknown to a pattern, a template renders with the
/// pattern's fields and the blanks, whatever the pattern captured.
pub proof fn lemma_checked_template_renders(
    pieces: Seq<Piece>,
    names: Seq<Option<Seq<char>>>,
    groups: Seq<Option<Seq<char>>>,
)
    requires
        first_unknown(pieces, names) is None,
    ensures
        render_pieces(pieces, display_fields(named_fields(names, groups))) is Ok,
{
    assert forall|k: int| 0 <= k < pieces.len() && (#[trigger] pieces[k]) is Name implies lookup(
        display_fields(named_fields(names, groups)),
        pieces[k]->Name_0,
    ) is Some by {
        lemma_first_unknown_none(pieces, names, k);
        lemma_known_has_field(names, groups, pieces[k]->Name_0);
    }
    lemma_render_ok(pieces, display_fields(named_fields(names, groups)));
}

proof fn lemma_first_unknown_none(pieces: Seq<Piece>, names: Seq<Option<Seq<char>>>, k: int)
    requires
        first_unknown(pieces, names) is None,
        0 <= k < pieces.len(),
        pieces[k] is Name,
    ensures
        known(names, pieces[k]->Name_0),
    decreases k,
{
    if k > 0 {
        assert(pieces.drop_first()[k - 1] == pieces[k]);
        lemma_first_unknown_none(pieces.drop_first(), names, k - 1);
    }
}

} // verus!
