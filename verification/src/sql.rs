//! The rendering engine. A statement is first laid out as a sequence of
//! pieces, fixed text and literal values in the order in which they appear;
//! the text and the parameter list of the statement are then read off that
//! sequence. This is the one place where literals meet SQL text.

use vstd::prelude::*;
use crate::text::{decimal, marker, push_decimal, push_marker};
use crate::value::{values_view, Value, ValueView};

verus! {

/// One piece of a rendered statement.
pub enum Piece {
    /// Text that is written as it stands.
    Text(Seq<char>),
    /// A literal value. It is bound: the text holds a positional marker for
    /// it and the parameter list the value.
    Param(ValueView),
    /// An explicit placeholder: the marker of a position that the caller
    /// chose and will supply the value of. It binds nothing.
    Placeholder(nat),
}

/// The values of the literal pieces, in order of appearance.
pub open spec fn params_of(pieces: Seq<Piece>) -> Seq<ValueView>
    decreases pieces.len(),
{
    if pieces.len() == 0 {
        Seq::empty()
    } else {
        match pieces.last() {
            Piece::Text(_) => params_of(pieces.drop_last()),
            Piece::Param(v) => params_of(pieces.drop_last()).push(v),
            Piece::Placeholder(_) => params_of(pieces.drop_last()),
        }
    }
}

/// The largest position that an explicit placeholder among the pieces
/// names, or zero where there is none.
pub open spec fn largest_placeholder(pieces: Seq<Piece>) -> nat
    decreases pieces.len(),
{
    if pieces.len() == 0 {
        0
    } else {
        match pieces.last() {
            Piece::Placeholder(position) => if position > largest_placeholder(
                pieces.drop_last(),
            ) {
                position
            } else {
                largest_placeholder(pieces.drop_last())
            },
            _ => largest_placeholder(pieces.drop_last()),
        }
    }
}

/// The text of one piece that stands after `before` positions. A literal is
/// written as the marker of the next position; with `inline` set, a literal
/// that has an SQL spelling is written out instead. An explicit placeholder
/// is written as the marker of the position that it names.
pub open spec fn piece_text(piece: Piece, before: nat, inline: bool) -> Seq<char> {
    match piece {
        Piece::Text(text) => text,
        Piece::Param(v) => if inline && v.sql_text().is_some() {
            v.sql_text().unwrap()
        } else {
            marker(before + 1)
        },
        Piece::Placeholder(position) => marker(position),
    }
}

/// The text of a sequence of pieces whose literals take the positions after
/// the first `before`: the first literal the position `before + 1`, the
/// second `before + 2`, and so on in the order of appearance.
pub open spec fn text_from(pieces: Seq<Piece>, before: nat, inline: bool) -> Seq<char>
    decreases pieces.len(),
{
    if pieces.len() == 0 {
        Seq::empty()
    } else {
        text_from(pieces.drop_last(), before, inline) + piece_text(
            pieces.last(),
            before + params_of(pieces.drop_last()).len(),
            inline,
        )
    }
}

/// The text of a whole sequence of pieces. The explicit placeholders keep
/// the positions that they name, and the literals take the positions after
/// the largest of those: the marker of a literal is never the marker of an
/// explicit placeholder. Where there is no explicit placeholder, the
/// literals take the positions from one on.
pub open spec fn text_of(pieces: Seq<Piece>, inline: bool) -> Seq<char> {
    text_from(pieces, largest_placeholder(pieces), inline)
}

/// The parts one after another, with `separator` between each two.
pub open spec fn joined(parts: Seq<Seq<Piece>>, separator: Seq<char>) -> Seq<Piece>
    decreases parts.len(),
{
    if parts.len() == 0 {
        Seq::empty()
    } else if parts.len() == 1 {
        parts[0]
    } else {
        joined(parts.drop_last(), separator).push(Piece::Text(separator)) + parts.last()
    }
}

/// The parts one after another.
pub open spec fn chained(parts: Seq<Seq<Piece>>) -> Seq<Piece>
    decreases parts.len(),
{
    if parts.len() == 0 {
        Seq::empty()
    } else {
        chained(parts.drop_last()) + parts.last()
    }
}

/// A single piece of fixed text.
pub open spec fn text_piece(text: Seq<char>) -> Seq<Piece> {
    seq![Piece::Text(text)]
}

/// `inner` between round brackets.
pub open spec fn bracketed(inner: Seq<Piece>) -> Seq<Piece> {
    text_piece("("@) + inner + text_piece(")"@)
}

/// One part joined is the part itself.
pub proof fn lemma_joined_one(a: Seq<Piece>, separator: Seq<char>)
    ensures
        joined(seq![a], separator) == a,
{
}

/// Two parts joined are the first, the separator and the second.
pub proof fn lemma_joined_two(a: Seq<Piece>, b: Seq<Piece>, separator: Seq<char>)
    ensures
        joined(seq![a, b], separator) == a.push(Piece::Text(separator)) + b,
{
    let parts = seq![a, b];
    lemma_joined_one(a, separator);
    assert(joined(parts, separator) == joined(parts.drop_last(), separator).push(
        Piece::Text(separator),
    ) + parts.last());
}

/// One more part joined to others is the others joined, the separator and
/// the part.
pub proof fn lemma_joined_push(parts: Seq<Seq<Piece>>, last: Seq<Piece>, separator: Seq<char>)
    requires
        parts.len() > 0,
    ensures
        joined(parts.push(last), separator) == joined(parts, separator).push(
            Piece::Text(separator),
        ) + last,
{
    assert(parts.push(last).drop_last() =~= parts);
}

/// The parameters of two sequences of pieces, one after the other, are the
/// parameters of the first followed by those of the second.
pub proof fn lemma_params_of_concat(a: Seq<Piece>, b: Seq<Piece>)
    ensures
        params_of(a + b) == params_of(a) + params_of(b),
    decreases b.len(),
{
    if b.len() == 0 {
    } else {
        lemma_params_of_concat(a, b.drop_last());
        assert((a + b).drop_last() =~= a + b.drop_last());
    }
}

/// The text of two sequences of pieces, one after the other, is the text of
/// the first followed by the text of the second, whose markers count on from
/// the parameters of the first.
pub proof fn lemma_text_from_concat(a: Seq<Piece>, b: Seq<Piece>, before: nat, inline: bool)
    ensures
        text_from(a + b, before, inline) == text_from(a, before, inline) + text_from(
            b,
            before + params_of(a).len(),
            inline,
        ),
    decreases b.len(),
{
    if b.len() == 0 {
    } else {
        lemma_text_from_concat(a, b.drop_last(), before, inline);
        lemma_params_of_concat(a, b.drop_last());
        assert((a + b).drop_last() =~= a + b.drop_last());
    }
}

/// A rendered statement: its text, the values bound to its literals, and
/// the number of positions that its explicit placeholders take.
///
/// The markers of the text stand in one-to-one correspondence with
/// positions: the explicit placeholders have the positions from one to
/// `placeholders`, whose values the caller supplies, and the parameter at
/// index `i` has the position `placeholders + i + 1`, in the order in which
/// the literals appear in the text. A statement without explicit
/// placeholders has `placeholders` zero, and its parameters have the
/// positions from one on.
#[derive(Debug, PartialEq)]
pub struct Sql {
    pub text: String,
    pub params: Vec<Value>,
    pub placeholders: usize,
}

/// The mathematical content of a [`Sql`].
pub struct SqlView {
    pub text: Seq<char>,
    pub params: Seq<ValueView>,
    pub placeholders: nat,
}

impl View for Sql {
    type V = SqlView;

    open spec fn view(&self) -> SqlView {
        SqlView {
            text: self.text@,
            params: values_view(self.params@),
            placeholders: self.placeholders as nat,
        }
    }
}

/// What a sequence of pieces renders to: the text with every literal as a
/// marker, the literals as the parameter list, and the largest position of
/// an explicit placeholder, after which the positions of the literals
/// begin.
pub open spec fn rendered(pieces: Seq<Piece>) -> SqlView {
    SqlView {
        text: text_of(pieces, false),
        params: params_of(pieces),
        placeholders: largest_placeholder(pieces),
    }
}

/// How a statement is being written: whether the literals that have an SQL
/// spelling are written out, and after how many positions the positions of
/// the literals begin.
pub struct Mode {
    pub inline: bool,
    pub offset: nat,
}

/// The statement under construction: the text and the parameters written so
/// far, and the pieces that they render. Whatever has been written, the text
/// is the text of the pieces and the parameters are their literals, in
/// order.
pub struct SqlContext {
    text: String,
    params: Vec<Value>,
    inline: bool,
    offset: usize,
    largest: usize,
    pieces: Ghost<Seq<Piece>>,
}

impl SqlContext {
    /// The pieces written so far.
    pub closed spec fn pieces(&self) -> Seq<Piece> {
        self.pieces@
    }

    /// How the statement is being written.
    pub closed spec fn mode(&self) -> Mode {
        Mode { inline: self.inline, offset: self.offset as nat }
    }

    /// The text and the parameters written so far are those of the pieces.
    #[verifier::type_invariant]
    closed spec fn renders_its_pieces(&self) -> bool {
        &&& self.text@ == text_from(self.pieces@, self.offset as nat, self.inline)
        &&& values_view(self.params@) == params_of(self.pieces@)
        &&& self.largest as nat == largest_placeholder(self.pieces@)
    }

    /// An empty context that binds every literal, to the positions from one
    /// on.
    pub fn new() -> (ctx: SqlContext)
        ensures
            ctx.pieces() == Seq::<Piece>::empty(),
            ctx.mode() == (Mode { inline: false, offset: 0 }),
    {
        SqlContext::starting_after(0, false)
    }

    /// An empty context that writes out the literals that have an SQL
    /// spelling.
    pub fn new_inline() -> (ctx: SqlContext)
        ensures
            ctx.pieces() == Seq::<Piece>::empty(),
            ctx.mode() == (Mode { inline: true, offset: 0 }),
    {
        SqlContext::starting_after(0, true)
    }

    /// An empty context whose literals take the positions after the first
    /// `offset`.
    pub fn starting_after(offset: usize, inline: bool) -> (ctx: SqlContext)
        ensures
            ctx.pieces() == Seq::<Piece>::empty(),
            ctx.mode() == (Mode { inline, offset: offset as nat }),
    {
        let params: Vec<Value> = Vec::new();
        assert(values_view(params@) =~= params_of(Seq::<Piece>::empty()));
        SqlContext {
            text: String::new(),
            params,
            inline,
            offset,
            largest: 0,
            pieces: Ghost(Seq::empty()),
        }
    }

    /// Takes the context apart, leaving an empty one in its place.
    fn take(&mut self) -> (taken: SqlContext)
        ensures
            taken == *old(self),
    {
        let mut taken = SqlContext::starting_after(self.offset, self.inline);
        std::mem::swap(self, &mut taken);
        taken
    }

    /// The largest position that an explicit placeholder written so far
    /// names, or zero where none was written.
    pub fn largest(&self) -> (largest: usize)
        ensures
            largest == largest_placeholder(self.pieces()),
    {
        proof {
            use_type_invariant(self);
        }
        self.largest
    }

    /// Writes fixed text.
    pub fn push_text(&mut self, text: &str)
        ensures
            final(self).mode() == old(self).mode(),
            final(self).pieces() == old(self).pieces().push(Piece::Text(text@)),
    {
        let taken = self.take();
        proof {
            use_type_invariant(&taken);
        }
        let SqlContext { text: mut out, params, inline, offset, largest, pieces } = taken;
        out.append(text);
        let ghost after = pieces@.push(Piece::Text(text@));
        assert(after.drop_last() =~= pieces@);
        *self = SqlContext { text: out, params, inline, offset, largest, pieces: Ghost(after) };
    }

    /// Writes a number as a decimal numeral.
    pub fn push_number(&mut self, n: usize)
        ensures
            final(self).mode() == old(self).mode(),
            final(self).pieces() == old(self).pieces().push(Piece::Text(decimal(n as nat))),
    {
        let taken = self.take();
        proof {
            use_type_invariant(&taken);
        }
        let SqlContext { text: mut out, params, inline, offset, largest, pieces } = taken;
        push_decimal(&mut out, n as u128);
        let ghost after = pieces@.push(Piece::Text(decimal(n as nat)));
        assert(after.drop_last() =~= pieces@);
        *self = SqlContext { text: out, params, inline, offset, largest, pieces: Ghost(after) };
    }

    /// Writes an explicit placeholder: the marker of the position `idx`. It
    /// binds nothing.
    pub fn push_placeholder(&mut self, idx: usize)
        ensures
            final(self).mode() == old(self).mode(),
            final(self).pieces() == old(self).pieces().push(Piece::Placeholder(idx as nat)),
    {
        let taken = self.take();
        proof {
            use_type_invariant(&taken);
        }
        let SqlContext { text: mut out, params, inline, offset, largest, pieces } = taken;
        push_marker(&mut out, idx as u128);
        let ghost after = pieces@.push(Piece::Placeholder(idx as nat));
        assert(after.drop_last() =~= pieces@);
        let largest = if idx > largest {
            idx
        } else {
            largest
        };
        *self = SqlContext { text: out, params, inline, offset, largest, pieces: Ghost(after) };
    }

    /// Writes a literal: binds the value and writes the marker of the next
    /// position, or, in an inline context, writes the value out where it
    /// has an SQL spelling.
    pub fn push_param(&mut self, value: Value)
        ensures
            final(self).mode() == old(self).mode(),
            final(self).pieces() == old(self).pieces().push(Piece::Param(value@)),
    {
        let taken = self.take();
        proof {
            use_type_invariant(&taken);
        }
        let SqlContext { text: mut out, params: mut bound, inline, offset, largest, pieces } =
            taken;
        let ghost before = bound@;
        let written = inline && value.push_sql_text(&mut out);
        bound.push(value);
        if !written {
            push_marker(&mut out, offset as u128 + bound.len() as u128);
        }
        let ghost after = pieces@.push(Piece::Param(value@));
        assert(after.drop_last() =~= pieces@);
        assert(values_view(bound@) =~= values_view(before).push(value@));
        *self = SqlContext {
            text: out,
            params: bound,
            inline,
            offset,
            largest,
            pieces: Ghost(after),
        };
    }

    /// The finished statement.
    pub fn finish(self) -> (sql: Sql)
        ensures
            sql@ == (SqlView {
                text: text_from(self.pieces(), self.mode().offset, self.mode().inline),
                params: params_of(self.pieces()),
                placeholders: largest_placeholder(self.pieces()),
            }),
    {
        proof {
            use_type_invariant(&self);
        }
        Sql { text: self.text, params: self.params, placeholders: self.largest }
    }
}

/// What can be written into a statement.
pub trait ToSql {
    /// The pieces that the value is written as.
    spec fn sql_pieces(&self) -> Seq<Piece>;

    /// Writes the value at the end of the statement under construction.
    fn to_sql(&self, ctx: &mut SqlContext)
        ensures
            final(ctx).mode() == old(ctx).mode(),
            final(ctx).pieces() == old(ctx).pieces() + self.sql_pieces(),
    ;

    /// The value rendered on its own: its text, with a marker for every
    /// literal and for every explicit placeholder; the literals in the
    /// order of their markers; and the number of positions that the
    /// explicit placeholders take. The markers of the literals follow those
    /// positions, so that no two markers of the text share a position but
    /// those of explicit placeholders that name the same one.
    ///
    /// The value is written once to learn the largest position of its
    /// explicit placeholders and, where it has any, once more with the
    /// literals after that position.
    fn to_sql_fragment(&self) -> (sql: Sql)
        ensures
            sql@ == rendered(self.sql_pieces()),
    {
        let mut first = SqlContext::starting_after(0, false);
        self.to_sql(&mut first);
        assert(first.pieces() =~= self.sql_pieces());
        let largest = first.largest();
        if largest == 0 {
            first.finish()
        } else {
            let mut second = SqlContext::starting_after(largest, false);
            self.to_sql(&mut second);
            assert(second.pieces() =~= self.sql_pieces());
            second.finish()
        }
    }
}

/// The pieces of a whole statement: those of its body and the terminator.
pub open spec fn terminated(body: Seq<Piece>) -> Seq<Piece> {
    body.push(Piece::Text(";"@))
}

/// A whole statement.
pub trait QueryToSql: ToSql {
    /// The statement rendered for execution: its text, ended by a single
    /// semicolon, with a marker for every literal and for every explicit
    /// placeholder; the literals in the order of their markers; and the
    /// number of positions that the explicit placeholders take. Markers and
    /// positions correspond one to one: an explicit placeholder has the
    /// position that it names, and the parameter at index `i` has the
    /// position `placeholders + i + 1`.
    fn to_final_sql(&self) -> (sql: Sql)
        ensures
            sql@ == rendered(terminated(self.sql_pieces())),
    {
        let mut first = SqlContext::starting_after(0, false);
        self.to_sql(&mut first);
        first.push_text(";");
        assert(first.pieces() =~= terminated(self.sql_pieces()));
        let largest = first.largest();
        if largest == 0 {
            first.finish()
        } else {
            let mut second = SqlContext::starting_after(largest, false);
            self.to_sql(&mut second);
            second.push_text(";");
            assert(second.pieces() =~= terminated(self.sql_pieces()));
            second.finish()
        }
    }

    /// The statement as text for a reader, ended by a single semicolon:
    /// every literal that has an SQL spelling is written out in place, and
    /// every other literal is the marker of the position that it has in the
    /// statement rendered for execution. This text is for logs and
    /// messages, not for execution.
    fn to_inline_sql(&self) -> (text: String)
        ensures
            text@ == text_of(terminated(self.sql_pieces()), true),
    {
        let mut first = SqlContext::starting_after(0, true);
        self.to_sql(&mut first);
        first.push_text(";");
        assert(first.pieces() =~= terminated(self.sql_pieces()));
        let largest = first.largest();
        if largest == 0 {
            first.finish().text
        } else {
            let mut second = SqlContext::starting_after(largest, true);
            self.to_sql(&mut second);
            second.push_text(";");
            assert(second.pieces() =~= terminated(self.sql_pieces()));
            second.finish().text
        }
    }
}

} // verus!
