//! Text templates with `{name}` placeholders.
//!
//! A template is compiled once into literal pieces and placeholders, then
//! rendered against a list of named fields. A `{` opens a placeholder that the
//! next `}` closes; a `}` outside a placeholder is plain text.

use vstd::prelude::*;

verus! {

/// One piece of a compiled template, as a mathematical value.
pub ghost enum Piece {
    Literal(Seq<char>),
    Name(Seq<char>),
}

/// One piece of a compiled template.
#[derive(Clone, Debug, PartialEq, Eq)]
pub enum Segment {
    /// Text copied as it is.
    Literal(String),
    /// A placeholder, by the name between its braces.
    Placeholder(String),
}

impl View for Segment {
    type V = Piece;

    open spec fn view(&self) -> Piece {
        match self {
            Segment::Literal(s) => Piece::Literal(s@),
            Segment::Placeholder(n) => Piece::Name(n@),
        }
    }
}

/// Why a template could not be compiled. Positions count characters.
#[derive(Clone, Copy, Debug, PartialEq, Eq)]
pub enum TemplateError {
    /// A `{` inside a placeholder.
    NestedBrace(usize),
    /// A placeholder with no name, `{}`.
    EmptyPlaceholder(usize),
    /// A `{` that no `}` closes.
    Unclosed,
}

/// Why a template could not be rendered.
#[derive(Clone, Debug, PartialEq, Eq)]
pub enum RenderError {
    /// The template names a field that the fields do not hold.
    MissingField(String),
}

/// Where a left-to-right scan of a template stands: the pieces completed so
/// far, where the piece under way starts, and whether it is a placeholder.
pub ghost struct Scan {
    pub pieces: Seq<Piece>,
    pub start: int,
    pub open: bool,
}

/// Appends a literal piece unless it is empty.
pub open spec fn flush(pieces: Seq<Piece>, lit: Seq<char>) -> Seq<Piece> {
    if lit.len() == 0 {
        pieces
    } else {
        pieces.push(Piece::Literal(lit))
    }
}

/// The scan after reading the character at `i`.
pub open spec fn scan_step(s: Seq<char>, st: Scan, i: int) -> Result<Scan, TemplateError> {
    if s[i] == '{' {
        if st.open {
            Err(TemplateError::NestedBrace(i as usize))
        } else {
            Ok(Scan { pieces: flush(st.pieces, s.subrange(st.start, i)), start: i + 1, open: true })
        }
    } else if s[i] == '}' && st.open {
        if i == st.start {
            Err(TemplateError::EmptyPlaceholder(i as usize))
        } else {
            Ok(
                Scan {
                    pieces: st.pieces.push(Piece::Name(s.subrange(st.start, i))),
                    start: i + 1,
                    open: false,
                },
            )
        }
    } else {
        Ok(st)
    }
}

/// The scan after reading the first `n` characters of `s`.
pub open spec fn scan(s: Seq<char>, n: nat) -> Result<Scan, TemplateError>
    decreases n,
{
    if n == 0 {
        Ok(Scan { pieces: Seq::empty(), start: 0, open: false })
    } else {
        match scan(s, (n - 1) as nat) {
            Ok(st) => scan_step(s, st, n - 1),
            Err(e) => Err(e),
        }
    }
}

/// The pieces of a template, or the first fault in it.
pub open spec fn parse_template(s: Seq<char>) -> Result<Seq<Piece>, TemplateError> {
    match scan(s, s.len()) {
        Ok(st) => if st.open {
            Err(TemplateError::Unclosed)
        } else {
            Ok(flush(st.pieces, s.subrange(st.start, s.len() as int)))
        },
        Err(e) => Err(e),
    }
}

/// The source text of one piece: a placeholder with its braces.
pub open spec fn piece_text(p: Piece) -> Seq<char> {
    match p {
        Piece::Literal(l) => l,
        Piece::Name(n) => seq!['{'] + n + seq!['}'],
    }
}

/// The pieces written out again as template text.
pub open spec fn unparse(pieces: Seq<Piece>) -> Seq<char>
    decreases pieces.len(),
{
    if pieces.len() == 0 {
        Seq::empty()
    } else {
        unparse(pieces.drop_last()) + piece_text(pieces.last())
    }
}

proof fn lemma_unparse_push(pieces: Seq<Piece>, p: Piece)
    ensures
        unparse(pieces.push(p)) == unparse(pieces) + piece_text(p),
{
    assert(pieces.push(p).drop_last() =~= pieces);
}

/// What a scan has read so far is written out by its pieces, followed by the
/// `{` of a placeholder under way.
proof fn lemma_scan_unparses(s: Seq<char>, n: nat)
    requires
        n <= s.len(),
    ensures
        scan(s, n) matches Ok(st) ==> {
            &&& 0 <= st.start <= n
            &&& if st.open {
                &&& st.start >= 1
                &&& s[st.start - 1] == '{'
                &&& unparse(st.pieces) == s.subrange(0, st.start - 1)
            } else {
                unparse(st.pieces) == s.subrange(0, st.start)
            }
        },
    decreases n,
{
    if n > 0 {
        lemma_scan_unparses(s, (n - 1) as nat);
        if let Ok(st) = scan(s, (n - 1) as nat) {
            let i = n - 1;
            if s[i] == '{' && !st.open {
                let lit = s.subrange(st.start, i);
                if lit.len() > 0 {
                    lemma_unparse_push(st.pieces, Piece::Literal(lit));
                }
                assert(s.subrange(0, st.start) + lit =~= s.subrange(0, i));
            } else if s[i] == '}' && st.open && i != st.start {
                let name = s.subrange(st.start, i);
                lemma_unparse_push(st.pieces, Piece::Name(name));
                assert(s.subrange(0, st.start - 1) + (seq!['{'] + name + seq!['}']) =~= s.subrange(
                    0,
                    i + 1,
                ));
            }
        }
    }
}

/// A compiled template, written out again, is its source.
pub proof fn parse_template_round_trip(s: Seq<char>)
    ensures
        parse_template(s) matches Ok(pieces) ==> unparse(pieces) == s,
{
    lemma_scan_unparses(s, s.len());
    if let Ok(st) = scan(s, s.len()) {
        if !st.open {
            let lit = s.subrange(st.start, s.len() as int);
            if lit.len() > 0 {
                lemma_unparse_push(st.pieces, Piece::Literal(lit));
            }
            assert(s.subrange(0, st.start) + lit =~= s);
        }
    }
}

/// The text of the first field named `name`.
pub open spec fn lookup(fields: Seq<(Seq<char>, Seq<char>)>, name: Seq<char>) -> Option<Seq<char>>
    decreases fields.len(),
{
    if fields.len() == 0 {
        None
    } else if fields[0].0 == name {
        Some(fields[0].1)
    } else {
        lookup(fields.drop_first(), name)
    }
}

/// The rendered text, or the name of the first placeholder without a field.
pub open spec fn render_pieces(pieces: Seq<Piece>, fields: Seq<(Seq<char>, Seq<char>)>) -> Result<
    Seq<char>,
    Seq<char>,
>
    decreases pieces.len(),
{
    if pieces.len() == 0 {
        Ok(Seq::empty())
    } else {
        match render_pieces(pieces.drop_last(), fields) {
            Ok(t) => match pieces.last() {
                Piece::Literal(l) => Ok(t + l),
                Piece::Name(n) => match lookup(fields, n) {
                    Some(v) => Ok(t + v),
                    None => Err(n),
                },
            },
            Err(n) => Err(n),
        }
    }
}

/// A fault found in a prefix of a template is the fault of the whole.
proof fn lemma_scan_error_stays(s: Seq<char>, k: nat, m: nat)
    requires
        k <= m,
        scan(s, k) is Err,
    ensures
        scan(s, m) == scan(s, k),
    decreases m - k,
{
    if k < m {
        lemma_scan_error_stays(s, k, (m - 1) as nat);
    }
}

/// A placeholder without a field in a prefix of the pieces fails the whole.
proof fn lemma_render_error_stays(pieces: Seq<Piece>, fields: Seq<(Seq<char>, Seq<char>)>, k: int)
    requires
        0 <= k <= pieces.len(),
        render_pieces(pieces.take(k), fields) is Err,
    ensures
        render_pieces(pieces, fields) == render_pieces(pieces.take(k), fields),
    decreases pieces.len() - k,
{
    if k < pieces.len() {
        assert(pieces.take(k + 1).drop_last() =~= pieces.take(k));
        lemma_render_error_stays(pieces, fields, k + 1);
    } else {
        assert(pieces.take(k) =~= pieces);
    }
}

/// A lookup in two joined field lists finds the first list's field where it
/// has one, and the second's otherwise.
pub proof fn lemma_lookup_append(
    a: Seq<(Seq<char>, Seq<char>)>,
    b: Seq<(Seq<char>, Seq<char>)>,
    name: Seq<char>,
)
    ensures
        lookup(a + b, name) == if lookup(a, name) is Some {
            lookup(a, name)
        } else {
            lookup(b, name)
        },
    decreases a.len(),
{
    if a.len() == 0 {
        assert(a + b =~= b);
    } else {
        assert((a + b)[0] == a[0]);
        assert((a + b).drop_first() =~= a.drop_first() + b);
        lemma_lookup_append(a.drop_first(), b, name);
    }
}

/// Rendering succeeds where every placeholder has a field.
pub proof fn lemma_render_ok(pieces: Seq<Piece>, fields: Seq<(Seq<char>, Seq<char>)>)
    requires
        forall|k: int| 0 <= k < pieces.len() && (#[trigger] pieces[k]) is Name ==> lookup(
            fields,
            pieces[k]->Name_0,
        ) is Some,
    ensures
        render_pieces(pieces, fields) is Ok,
    decreases pieces.len(),
{
    if pieces.len() > 0 {
        let before = pieces.drop_last();
        assert forall|k: int| 0 <= k < before.len() && (#[trigger] before[k]) is Name implies lookup(
            fields,
            before[k]->Name_0,
        ) is Some by {
            assert(before[k] == pieces[k]);
        }
        lemma_render_ok(before, fields);
        assert(pieces.last() == pieces[pieces.len() - 1]);
    }
}

/// The model of an executable rendering result.
pub open spec fn rendered_view(r: Result<String, RenderError>) -> Result<Seq<char>, Seq<char>> {
    match r {
        Ok(t) => Ok(t@),
        Err(RenderError::MissingField(n)) => Err(n@),
    }
}

/// The text of the first field named `name`, if any.
pub fn find_field<'a>(fields: &'a Vec<(String, String)>, name: &String) -> (r: Option<&'a String>)
    ensures
        r.deep_view() == lookup(fields.deep_view(), name@),
{
    let ghost fv = fields.deep_view();
    let mut i: usize = 0;
    assert(fv.skip(0) =~= fv);
    while i < fields.len()
        invariant
            i <= fields.len(),
            fv == fields.deep_view(),
            lookup(fv, name@) == lookup(fv.skip(i as int), name@),
        decreases fields.len() - i,
    {
        assert(fv.skip(i as int)[0] == fv[i as int]);
        if fields[i].0 == *name {
            return Some(&fields[i].1);
        }
        assert(fv.skip(i as int).drop_first() =~= fv.skip(i + 1));
        i += 1;
    }
    None
}

/// A compiled template.
pub struct FormatTemplate {
    segments: Vec<Segment>,
}

impl View for FormatTemplate {
    type V = Seq<Piece>;

    closed spec fn view(&self) -> Seq<Piece> {
        self.segments@.map_values(|s: Segment| s@)
    }
}

impl FormatTemplate {
    /// Compiles `source` into its pieces; fails on a nested `{`, an empty
    /// placeholder or an unclosed one.
    pub fn new(source: &str) -> (r: Result<FormatTemplate, TemplateError>)
        ensures
            match r {
                Ok(t) => parse_template(source@) == Ok::<_, TemplateError>(t@),
                Err(e) => parse_template(source@) == Err::<Seq<Piece>, _>(e),
            },
            r matches Ok(t) ==> unparse(t@) == source@,
    {
        proof {
            parse_template_round_trip(source@);
        }
        let n = source.unicode_len();
        let mut segments: Vec<Segment> = Vec::new();
        let mut start: usize = 0;
        let mut open = false;
        let mut i: usize = 0;
        assert(segments@.map_values(|s: Segment| s@) =~= Seq::<Piece>::empty());
        while i < n
            invariant
                n == source@.len(),
                i <= n,
                start <= i,
                scan(source@, i as nat) == Ok::<_, TemplateError>(
                    Scan { pieces: segments@.map_values(|s: Segment| s@), start: start as int, open },
                ),
            decreases n - i,
        {
            let c = source.get_char(i);
            if c == '{' {
                if open {
                    proof {
                        lemma_scan_error_stays(source@, (i + 1) as nat, n as nat);
                    }
                    return Err(TemplateError::NestedBrace(i));
                }
                if start < i {
                    segments.push(Segment::Literal(String::from_str(source.substring_char(start, i))));
                }
                start = i + 1;
                open = true;
            } else if c == '}' && open {
                if i == start {
                    proof {
                        lemma_scan_error_stays(source@, (i + 1) as nat, n as nat);
                    }
                    return Err(TemplateError::EmptyPlaceholder(i));
                }
                segments.push(Segment::Placeholder(String::from_str(source.substring_char(start, i))));
                start = i + 1;
                open = false;
            }
            assert(segments@.map_values(|s: Segment| s@) =~= scan(source@, (i + 1) as nat)->Ok_0.pieces);
            i += 1;
        }
        if open {
            return Err(TemplateError::Unclosed);
        }
        if start < n {
            segments.push(Segment::Literal(String::from_str(source.substring_char(start, n))));
        }
        let t = FormatTemplate { segments };
        assert(t@ =~= parse_template(source@)->Ok_0);
        Ok(t)
    }

    /// The compiled pieces.
    pub fn segments(&self) -> (r: &Vec<Segment>)
        ensures
            r@.map_values(|s: Segment| s@) == self@,
    {
        &self.segments
    }

    /// Fills each placeholder with the text of the first field of its name;
    /// fails on the first placeholder whose name no field has.
    pub fn render(&self, fields: &Vec<(String, String)>) -> (r: Result<String, RenderError>)
        ensures
            rendered_view(r) == render_pieces(self@, fields.deep_view()),
    {
        let ghost pieces = self@;
        let mut out = String::new();
        let mut i: usize = 0;
        while i < self.segments.len()
            invariant
                i <= self.segments.len(),
                pieces == self@,
                pieces == self.segments@.map_values(|s: Segment| s@),
                render_pieces(pieces.take(i as int), fields.deep_view()) == Ok::<_, Seq<char>>(out@),
            decreases self.segments.len() - i,
        {
            assert(pieces.take(i + 1).drop_last() =~= pieces.take(i as int));
            match &self.segments[i] {
                Segment::Literal(l) => {
                    out.append(l.as_str());
                },
                Segment::Placeholder(name) => {
                    match find_field(fields, name) {
                        Some(v) => out.append(v.as_str()),
                        None => {
                            assert(render_pieces(pieces.take(i + 1), fields.deep_view())
                                == Err::<Seq<char>, _>(name@));
                            proof {
                                lemma_render_error_stays(pieces, fields.deep_view(), i + 1);
                            }
                            return Err(RenderError::MissingField(name.clone()));
                        },
                    }
                },
            }
            i += 1;
        }
        assert(pieces.take(i as int) =~= pieces);
        Ok(out)
    }
}

} // verus!
