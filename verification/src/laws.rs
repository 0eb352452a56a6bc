//! What holds of every statement: how predicates are bracketed, how
//! predicates accumulate, how markers and parameters correspond, and that
//! rendering is a function of the statement.

use vstd::prelude::*;
use crate::expression::ExprValueView;
use crate::insert_query::{InsertQueryView, InsertView};
use crate::predicate::PredicateView;
use crate::select_query::{and_where, where_pieces};
use crate::sql::{
    bracketed, largest_placeholder, lemma_params_of_concat, lemma_text_from_concat, params_of,
    rendered, terminated, text_from, text_of, text_piece, Piece, QueryToSql, Sql,
};
use crate::text::marker;
use crate::value::ValueView;

verus! {

/// The conjunction of two predicates.
pub open spec fn conjunction(left: PredicateView, right: PredicateView) -> PredicateView {
    PredicateView::And { left: Box::new(left), right: Box::new(right) }
}

/// The disjunction of two predicates.
pub open spec fn disjunction(left: PredicateView, right: PredicateView) -> PredicateView {
    PredicateView::Or { left: Box::new(left), right: Box::new(right) }
}

/// Fixed text renders as itself and binds nothing.
pub proof fn lemma_text_piece(text: Seq<char>, before: nat, inline: bool)
    ensures
        text_from(text_piece(text), before, inline) == text,
        params_of(text_piece(text)) == Seq::<ValueView>::empty(),
{
    let pieces = text_piece(text);
    assert(text_from(pieces.drop_last(), before, inline) =~= Seq::<char>::empty());
}

/// Brackets render as an opening bracket, what is inside, and a closing
/// bracket, and bind what the inside binds.
pub proof fn lemma_bracketed(inner: Seq<Piece>, before: nat, inline: bool)
    ensures
        text_from(bracketed(inner), before, inline) == "("@ + text_from(inner, before, inline)
            + ")"@,
        params_of(bracketed(inner)) == params_of(inner),
{
    let open = text_piece("("@);
    let close = text_piece(")"@);
    lemma_text_piece("("@, before, inline);
    lemma_text_piece(")"@, before + params_of(open + inner).len(), inline);
    lemma_params_of_concat(open, inner);
    lemma_params_of_concat(open + inner, close);
    lemma_text_from_concat(open, inner, before, inline);
    lemma_text_from_concat(open + inner, close, before, inline);
}

/// A predicate under `AND` binds the same values as the predicate alone.
pub proof fn lemma_and_operand_params(p: PredicateView)
    ensures
        params_of(p.and_operand()) == params_of(p.pieces()),
{
    if p is Or {
        lemma_bracketed(p.pieces(), 0, false);
    }
}

/// A disjunction under `AND` stands between round brackets; any other
/// predicate under `AND` stands bare, a conjunction too.
pub proof fn lemma_and_operand_text(p: PredicateView, before: nat, inline: bool)
    ensures
        p is Or ==> text_from(p.and_operand(), before, inline) == "("@ + text_from(
            p.pieces(),
            before,
            inline,
        ) + ")"@,
        !(p is Or) ==> text_from(p.and_operand(), before, inline) == text_from(
            p.pieces(),
            before,
            inline,
        ),
{
    if p is Or {
        lemma_bracketed(p.pieces(), before, inline);
    }
}

/// The text of a conjunction is the text of its left side as an operand,
/// ` AND `, and the text of its right side as an operand, whose markers
/// count on from the parameters of the left side.
pub proof fn lemma_conjunction_text(
    left: PredicateView,
    right: PredicateView,
    before: nat,
    inline: bool,
)
    ensures
        text_from(conjunction(left, right).pieces(), before, inline) == text_from(
            left.and_operand(),
            before,
            inline,
        ) + " AND "@ + text_from(
            right.and_operand(),
            before + params_of(left.pieces()).len(),
            inline,
        ),
{
    let l = left.and_operand();
    let m = text_piece(" AND "@);
    let r = right.and_operand();
    lemma_and_operand_params(left);
    lemma_params_of_concat(l, m);
    lemma_text_piece(" AND "@, before + params_of(l).len(), inline);
    lemma_text_from_concat(l, m, before, inline);
    lemma_text_from_concat(l + m, r, before, inline);
}

/// The text of a disjunction is the text of its left side, ` OR `, and the
/// text of its right side, whose markers count on from the parameters of
/// the left side. No side of a disjunction is bracketed.
pub proof fn lemma_disjunction_text(
    left: PredicateView,
    right: PredicateView,
    before: nat,
    inline: bool,
)
    ensures
        text_from(disjunction(left, right).pieces(), before, inline) == text_from(
            left.pieces(),
            before,
            inline,
        ) + " OR "@ + text_from(right.pieces(), before + params_of(left.pieces()).len(), inline),
{
    let l = left.pieces();
    let m = text_piece(" OR "@);
    let r = right.pieces();
    lemma_params_of_concat(l, m);
    lemma_text_piece(" OR "@, before + params_of(l).len(), inline);
    lemma_text_from_concat(l, m, before, inline);
    lemma_text_from_concat(l + m, r, before, inline);
}

/// For all predicates `a`, `b` and `c`, `a AND (b OR c)` is rendered with
/// the disjunction between round brackets.
pub proof fn lemma_or_under_and_right(
    a: PredicateView,
    b: PredicateView,
    c: PredicateView,
    before: nat,
    inline: bool,
)
    ensures
        text_from(conjunction(a, disjunction(b, c)).pieces(), before, inline) == text_from(
            a.and_operand(),
            before,
            inline,
        ) + " AND "@ + "("@ + text_from(
            disjunction(b, c).pieces(),
            before + params_of(a.pieces()).len(),
            inline,
        ) + ")"@,
{
    lemma_conjunction_text(a, disjunction(b, c), before, inline);
    lemma_and_operand_text(disjunction(b, c), before + params_of(a.pieces()).len(), inline);
}

/// For all predicates `a`, `b` and `c`, `(a OR b) AND c` is rendered with
/// the disjunction between round brackets, and where `c` is itself a
/// conjunction it follows without brackets: conjunctions at one level run
/// on.
pub proof fn lemma_or_under_and_left(
    a: PredicateView,
    b: PredicateView,
    c: PredicateView,
    before: nat,
    inline: bool,
)
    ensures
        text_from(conjunction(disjunction(a, b), c).pieces(), before, inline) == "("@ + text_from(
            disjunction(a, b).pieces(),
            before,
            inline,
        ) + ")"@ + " AND "@ + text_from(
            c.and_operand(),
            before + params_of(disjunction(a, b).pieces()).len(),
            inline,
        ),
        !(c is Or) ==> c.and_operand() == c.pieces(),
{
    lemma_conjunction_text(disjunction(a, b), c, before, inline);
    lemma_and_operand_text(disjunction(a, b), before, inline);
}

/// For all predicates `a`, `b` and `c`, `a AND b AND c` is rendered without
/// brackets round the inner conjunction, on whichever side it stands.
pub proof fn lemma_and_under_and(
    a: PredicateView,
    b: PredicateView,
    c: PredicateView,
    before: nat,
    inline: bool,
)
    ensures
        text_from(conjunction(conjunction(a, b), c).pieces(), before, inline) == text_from(
            conjunction(a, b).pieces(),
            before,
            inline,
        ) + " AND "@ + text_from(
            c.and_operand(),
            before + params_of(conjunction(a, b).pieces()).len(),
            inline,
        ),
        text_from(conjunction(a, conjunction(b, c)).pieces(), before, inline) == text_from(
            a.and_operand(),
            before,
            inline,
        ) + " AND "@ + text_from(
            conjunction(b, c).pieces(),
            before + params_of(a.pieces()).len(),
            inline,
        ),
{
    lemma_conjunction_text(conjunction(a, b), c, before, inline);
    lemma_conjunction_text(a, conjunction(b, c), before, inline);
}

/// Adding a predicate to a statement by `AND` accumulates: a statement
/// that is given the same predicate `p` twice holds the conjunction of `p`
/// with itself, not `p` alone, and its `WHERE` clause reads `p AND p`, each
/// `p` as an operand of `AND`.
pub proof fn lemma_where_accumulates(p: PredicateView, before: nat, inline: bool)
    ensures
        and_where(Some(and_where(None, p)), p) == conjunction(p, p),
        conjunction(p, p) != p,
        text_from(where_pieces(Some(conjunction(p, p))), before, inline) == " WHERE "@ + text_from(
            p.and_operand(),
            before,
            inline,
        ) + " AND "@ + text_from(p.and_operand(), before + params_of(p.pieces()).len(), inline),
        params_of(where_pieces(Some(conjunction(p, p)))) == params_of(p.pieces()) + params_of(
            p.pieces(),
        ),
{
    let both = conjunction(p, p);
    lemma_conjunction_text(p, p, before, inline);
    let head = text_piece(" WHERE "@);
    lemma_text_piece(" WHERE "@, before, inline);
    lemma_text_from_concat(head, both.pieces(), before, inline);
    lemma_params_of_concat(head, both.pieces());
    let l = p.and_operand();
    let m = text_piece(" AND "@);
    lemma_and_operand_params(p);
    lemma_text_piece(" AND "@, 0, inline);
    lemma_params_of_concat(l, m);
    lemma_params_of_concat(l + m, l);
}

/// Adding a predicate `p` by `AND` to a statement that already has the
/// predicate `w` gives the statement the conjunction of `w` and `p`, in
/// this order, whatever `w` and `p` are.
pub proof fn lemma_where_conjoins(w: PredicateView, p: PredicateView)
    ensures
        and_where(Some(w), p) == conjunction(w, p),
        and_where(None, p) == p,
{
}

/// Markers and parameters correspond one to one, in the order of
/// appearance. The positions of the literals begin after the largest
/// position of an explicit placeholder, `first`: a literal that stands
/// after `k` other literals is written as the marker of position
/// `first + k + 1`, and is the parameter at index `k`.
pub proof fn lemma_marker_matches_parameter(head: Seq<Piece>, value: ValueView, tail: Seq<Piece>)
    ensures
        ({
            let pieces = head + seq![Piece::Param(value)] + tail;
            let first = largest_placeholder(pieces);
            let k = params_of(head).len();
            &&& text_of(pieces, false) == text_from(head, first, false) + marker(first + k + 1)
                + text_from(tail, first + k + 1, false)
            &&& params_of(pieces) == params_of(head).push(value) + params_of(tail)
            &&& params_of(pieces)[k as int] == value
        }),
{
    let one = seq![Piece::Param(value)];
    let pieces = head + one + tail;
    let first = largest_placeholder(pieces);
    let k = params_of(head).len();
    assert(one.drop_last() =~= Seq::<Piece>::empty());
    assert(params_of(one.drop_last()) =~= Seq::<ValueView>::empty());
    assert(params_of(one) =~= seq![value]);
    assert(text_from(one.drop_last(), first + k, false) =~= Seq::<char>::empty());
    assert(text_from(one, first + k, false) =~= marker(first + k + 1));
    lemma_params_of_concat(head, one);
    lemma_params_of_concat(head + one, tail);
    lemma_text_from_concat(head, one, first, false);
    lemma_text_from_concat(head + one, tail, first, false);
    assert(params_of(head + one) =~= params_of(head).push(value));
}

/// No marker of a literal is the marker of an explicit placeholder: every
/// explicit placeholder names a position that is at most the largest such
/// position, and the positions of the literals begin after it.
pub proof fn lemma_markers_keep_apart(pieces: Seq<Piece>, i: int)
    requires
        0 <= i < pieces.len(),
    ensures
        pieces[i] matches Piece::Placeholder(position) ==> position <= largest_placeholder(
            pieces,
        ),
    decreases pieces.len(),
{
    if i < pieces.len() - 1 {
        lemma_markers_keep_apart(pieces.drop_last(), i);
    }
}

/// The largest explicit position of two sequences of pieces, one after the
/// other, is the larger of the two largest.
pub proof fn lemma_largest_placeholder_concat(a: Seq<Piece>, b: Seq<Piece>)
    ensures
        largest_placeholder(a + b) == if largest_placeholder(a) >= largest_placeholder(b) {
            largest_placeholder(a)
        } else {
            largest_placeholder(b)
        },
    decreases b.len(),
{
    if b.len() == 0 {
        assert(a + b =~= a);
    } else {
        lemma_largest_placeholder_concat(a, b.drop_last());
        assert((a + b).drop_last() =~= a + b.drop_last());
    }
}

/// A statement without explicit placeholders numbers its literals from
/// one.
pub proof fn lemma_literals_count_from_one(pieces: Seq<Piece>, inline: bool)
    requires
        largest_placeholder(pieces) == 0,
    ensures
        text_of(pieces, inline) == text_from(pieces, 0, inline),
        rendered(pieces).placeholders == 0,
{
}

/// No literal is ever written into the text of a statement rendered for
/// execution: whatever its value, a literal is written as the marker of its
/// position.
pub proof fn lemma_literal_is_bound(value: ValueView, before: nat)
    ensures
        text_from(seq![Piece::Param(value)], before, false) == marker(before + 1),
        params_of(seq![Piece::Param(value)]) == seq![value],
{
    let one = seq![Piece::Param(value)];
    assert(params_of(one.drop_last()) =~= Seq::<ValueView>::empty());
    assert(text_from(one.drop_last(), before, false) =~= Seq::<char>::empty());
}

/// Rendering is a function of the statement: two renderings of one
/// statement, with nothing changed between them, have the same text and the
/// same parameters.
pub proof fn lemma_rendering_repeats<Q: QueryToSql>(query: &Q, first: Sql, second: Sql)
    requires
        call_ensures(Q::to_final_sql, (query,), first),
        call_ensures(Q::to_final_sql, (query,), second),
    ensures
        first@ == second@,
        first@ == rendered(terminated(query.sql_pieces())),
{
}

/// Every rendered statement ends with a single terminator, which follows
/// the body of the statement: the text is the text of the body and a
/// semicolon.
pub proof fn lemma_statement_is_terminated(body: Seq<Piece>, inline: bool)
    ensures
        text_of(terminated(body), inline) == text_of(body, inline) + ";"@,
        params_of(terminated(body)) == params_of(body),
{
    let pieces = terminated(body);
    assert(pieces.drop_last() =~= body);
}

/// Every row that an insert has accepted has one cell for each column that
/// the insert names: a statement of which this holds and that admits a row
/// still has it with the row added, and a row of another shape is not
/// admitted.
pub proof fn lemma_accepted_rows_fit(query: InsertQueryView, row: Seq<ExprValueView>)
    requires
        query.rows_fit(),
    ensures
        query.admits(row.len()) ==> query.with_row(row).rows_fit(),
        query.cols.is_some() && query.cols.unwrap().len() != row.len() ==> !query.admits(
            row.len(),
        ),
        query.with_untyped_row(row).rows_fit(),
{
    if query.admits(row.len()) {
        let after = query.with_row(row);
        match (after.cols, after.values) {
            (Some(cols), InsertView::Values(rows)) => {
                assert forall|i: int| 0 <= i < rows.len() implies (#[trigger] rows[i]).len()
                    == cols.len() by {
                    match query.values {
                        InsertView::Values(before) => {
                            if i < before.len() {
                            }
                        },
                        _ => {},
                    }
                }
            },
            _ => {},
        }
    }
}

} // verus!
