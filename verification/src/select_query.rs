//! The select statement and its builder.

use vstd::prelude::*;
use std::marker::PhantomData;
use std::sync::Arc;
use crate::expression::{
    BoxedExpression, BoxedListExpression, Expression, ExpressionView, ListExpression,
    ListExpressionView, RcExpression, RcListExpression, ToExpression, ToListExpression,
    UntypedExpression, UntypedListExpression,
};
use crate::field::Field;
use crate::from::{From, FromSelect, FromView, RcFrom};
use crate::join::{Join, JoinType, JoinView};
use crate::order_by::{Order, OrderBy, OrderByView};
use crate::predicate::{PredicateView, RcPredicate, ToAndPredicate, ToOrPredicate};
use crate::share::share;
use crate::sql::{chained, joined, text_piece, Piece, QueryToSql, SqlContext, ToSql};
use crate::text::decimal;

verus! {

/// What a statement yields of each row: the listed expressions, or every
/// column.
#[derive(Debug)]
pub enum Select {
    Only(Vec<RcExpression>),
    All,
}

/// The mathematical content of a [`Select`].
pub enum SelectView {
    Only(Seq<ExpressionView>),
    All,
}

/// The views of a sequence of shared expressions, in order.
pub open spec fn expressions_view(items: Seq<RcExpression>) -> Seq<ExpressionView> {
    Seq::new(items.len(), |i: int| items[i]@)
}

/// A copy of a list of shared expressions, which shares every one of them.
pub fn clone_expressions(items: &Vec<RcExpression>) -> (r: Vec<RcExpression>)
    ensures
        r@ == items@,
{
    let mut r: Vec<RcExpression> = Vec::new();
    let mut i: usize = 0;
    while i < items.len()
        invariant
            0 <= i <= items.len(),
            r@ == items@.take(i as int),
        decreases items.len() - i,
    {
        r.push(share(&items[i]));
        i = i + 1;
    }
    r
}

/// Writes the expressions with a comma between each two.
pub fn expressions_to_sql(items: &Vec<RcExpression>, ctx: &mut SqlContext)
    ensures
        final(ctx).mode() == old(ctx).mode(),
        final(ctx).pieces() == old(ctx).pieces() + joined(
            expression_parts(expressions_view(items@)),
            ", "@,
        ),
    decreases *items, 0nat,
{
    let ghost parts = expression_parts(expressions_view(items@));
    let mut i: usize = 0;
    while i < items.len()
        invariant
            0 <= i <= items.len(),
            ctx.mode() == old(ctx).mode(),
            parts == expression_parts(expressions_view(items@)),
            ctx.pieces() == old(ctx).pieces() + joined(parts.take(i as int), ", "@),
        decreases items.len() - i,
    {
        if i > 0 {
            ctx.push_text(", ");
        }
        items[i].to_sql(ctx);
        proof {
            let head = parts.take(i + 1);
            assert(head.drop_last() =~= parts.take(i as int));
        }
        i = i + 1;
    }
    assert(parts.take(items.len() as int) =~= parts);
}

impl Select {
    /// The mathematical content of the choice.
    pub open spec fn model(self) -> SelectView
        decreases self,
    {
        match self {
            Select::Only(items) => SelectView::Only(
                Seq::new(
                    items@.len(),
                    |i: int|
                        if 0 <= i < items@.len() {
                            (*items@[i]).model()
                        } else {
                            arbitrary()
                        },
                ),
            ),
            Select::All => SelectView::All,
        }
    }

    /// Writes the choice.
    pub fn to_sql(&self, ctx: &mut SqlContext)
        ensures
            final(ctx).mode() == old(ctx).mode(),
            final(ctx).pieces() == old(ctx).pieces() + self@.pieces(),
        decreases *self, 1nat,
    {
        match self {
            Select::Only(items) => {
                assert(self@->Only_0 =~= expressions_view(items@));
                expressions_to_sql(items, ctx);
            },
            Select::All => {
                ctx.push_text("*");
            },
        }
    }
}

impl View for Select {
    type V = SelectView;

    open spec fn view(&self) -> SelectView {
        self.model()
    }
}

impl Clone for Select {
    fn clone(&self) -> (r: Self)
        ensures
            r@ == self@,
    {
        match self {
            Select::Only(items) => {
                let r = Select::Only(clone_expressions(items));
                r
            },
            Select::All => Select::All,
        }
    }
}

impl SelectView {
    /// The pieces of the choice: the expressions with a comma between each
    /// two, or a star.
    pub open spec fn pieces(self) -> Seq<Piece>
        decreases self,
    {
        match self {
            SelectView::Only(items) => joined(expression_parts(items), ", "@),
            SelectView::All => text_piece("*"@),
        }
    }
}

/// A select statement whose row type and state have been forgotten.
#[derive(Debug)]
pub struct SelectStatement {
    pub select: Select,
    pub from: RcFrom,
    pub where_: Option<RcPredicate>,
    pub limit: Option<usize>,
    pub offset: Option<usize>,
    pub order_by: Vec<OrderBy>,
    pub joins: Vec<Join>,
}

/// A shared select statement whose row type and state have been forgotten.
pub type RcSelectQuery = Arc<SelectStatement>;

/// The mathematical content of a select statement.
pub struct SelectStatementView {
    pub select: SelectView,
    pub from: FromView,
    pub where_: Option<PredicateView>,
    pub limit: Option<nat>,
    pub offset: Option<nat>,
    pub order_by: Seq<OrderByView>,
    pub joins: Seq<JoinView>,
}

/// The view of an optional predicate.
pub open spec fn predicate_view(p: Option<RcPredicate>) -> Option<PredicateView> {
    match p {
        Some(p) => Some(p@),
        None => None,
    }
}

/// The view of an optional count.
pub open spec fn count_view(n: Option<usize>) -> Option<nat> {
    match n {
        Some(n) => Some(n as nat),
        None => None,
    }
}

/// A copy of an optional predicate, which shares it.
pub fn clone_predicate(p: &Option<RcPredicate>) -> (r: Option<RcPredicate>)
    ensures
        r == *p,
{
    match p {
        Some(p) => Some(share(p)),
        None => None,
    }
}

/// The views of a sequence of orderings, in order.
pub open spec fn orderings_view(items: Seq<OrderBy>) -> Seq<OrderByView> {
    Seq::new(items.len(), |i: int| items[i]@)
}

/// The pieces of each of a sequence of orderings, in order.
pub open spec fn ordering_parts(items: Seq<OrderByView>) -> Seq<Seq<Piece>> {
    Seq::new(items.len(), |i: int| items[i].pieces())
}

/// The views of a sequence of joins, in order.
pub open spec fn joins_view(items: Seq<Join>) -> Seq<JoinView> {
    Seq::new(items.len(), |i: int| items[i]@)
}

/// A copy of a list of orderings.
pub fn clone_orderings(items: &Vec<OrderBy>) -> (r: Vec<OrderBy>)
    ensures
        r@ == items@,
{
    let mut r: Vec<OrderBy> = Vec::new();
    let mut i: usize = 0;
    while i < items.len()
        invariant
            0 <= i <= items.len(),
            r@ == items@.take(i as int),
        decreases items.len() - i,
    {
        r.push(items[i].clone());
        i = i + 1;
    }
    r
}

/// A copy of a list of joins.
pub fn clone_joins(items: &Vec<Join>) -> (r: Vec<Join>)
    ensures
        r@ == items@,
{
    let mut r: Vec<Join> = Vec::new();
    let mut i: usize = 0;
    while i < items.len()
        invariant
            0 <= i <= items.len(),
            r@ == items@.take(i as int),
        decreases items.len() - i,
    {
        r.push(items[i].clone());
        i = i + 1;
    }
    r
}

impl SelectStatement {
    /// The mathematical content of the statement.
    pub open spec fn model(self) -> SelectStatementView
        decreases self,
    {
        SelectStatementView {
            select: self.select.model(),
            from: (*self.from).model(),
            where_: match self.where_ {
                Some(p) => Some((*p).model()),
                None => None,
            },
            limit: count_view(self.limit),
            offset: count_view(self.offset),
            order_by: orderings_view(self.order_by@),
            joins: Seq::new(
                self.joins@.len(),
                |i: int|
                    if 0 <= i < self.joins@.len() {
                        self.joins@[i].model()
                    } else {
                        arbitrary()
                    },
            ),
        }
    }

    /// Writes the statement, without a terminator.
    pub fn to_sql(&self, ctx: &mut SqlContext)
        ensures
            final(ctx).mode() == old(ctx).mode(),
            final(ctx).pieces() == old(ctx).pieces() + self@.pieces(),
        decreases *self, 2nat,
    {
        let ghost base = ctx.pieces();
        ctx.push_text("SELECT ");
        self.select.to_sql(ctx);
        let ghost selected = text_piece("SELECT "@) + self@.select.pieces();
        assert(ctx.pieces() =~= base + selected);
        ctx.push_text(" FROM ");
        self.from.to_sql(ctx);
        let ghost sourced = selected + text_piece(" FROM "@) + self@.from.pieces();
        assert(ctx.pieces() =~= base + sourced);
        assert(joins_view(self.joins@) =~= self@.joins);
        joins_to_sql(&self.joins, ctx);
        let ghost joined_up = sourced + chained(join_parts(self@.joins));
        assert(ctx.pieces() =~= base + joined_up);
        where_to_sql(&self.where_, ctx);
        let ghost filtered = joined_up + where_pieces(self@.where_);
        assert(ctx.pieces() =~= base + filtered);
        orderings_to_sql(&self.order_by, ctx);
        let ghost ordered = filtered + order_pieces(self@.order_by);
        assert(ctx.pieces() =~= base + ordered);
        count_to_sql(" LIMIT ", self.limit, ctx);
        let ghost limited = ordered + count_pieces(" LIMIT "@, self@.limit);
        assert(ctx.pieces() =~= base + limited);
        count_to_sql(" OFFSET ", self.offset, ctx);
        assert(ctx.pieces() =~= base + (limited + count_pieces(" OFFSET "@, self@.offset)));
    }
}

/// Writes the joins, one after another.
pub fn joins_to_sql(joins: &Vec<Join>, ctx: &mut SqlContext)
    ensures
        final(ctx).mode() == old(ctx).mode(),
        final(ctx).pieces() == old(ctx).pieces() + chained(join_parts(joins_view(joins@))),
    decreases *joins, 1nat,
{
    let ghost parts = join_parts(joins_view(joins@));
    let mut i: usize = 0;
    while i < joins.len()
        invariant
            0 <= i <= joins.len(),
            ctx.mode() == old(ctx).mode(),
            parts == join_parts(joins_view(joins@)),
            ctx.pieces() == old(ctx).pieces() + chained(parts.take(i as int)),
        decreases joins.len() - i,
    {
        joins[i].to_sql(ctx);
        proof {
            let before = parts.take(i + 1);
            assert(before.drop_last() =~= parts.take(i as int));
        }
        i = i + 1;
    }
    assert(parts.take(joins.len() as int) =~= parts);
}

/// Writes the `WHERE` clause of a predicate, if there is one.
pub fn where_to_sql(where_: &Option<RcPredicate>, ctx: &mut SqlContext)
    ensures
        final(ctx).mode() == old(ctx).mode(),
        final(ctx).pieces() == old(ctx).pieces() + where_pieces(predicate_view(*where_)),
    decreases *where_, 1nat,
{
    match where_ {
        Some(p) => {
            ctx.push_text(" WHERE ");
            p.to_sql(ctx);
        },
        None => {},
    }
}

/// Writes the `ORDER BY` clause of a list of orderings, if it has any.
pub fn orderings_to_sql(order_by: &Vec<OrderBy>, ctx: &mut SqlContext)
    ensures
        final(ctx).mode() == old(ctx).mode(),
        final(ctx).pieces() == old(ctx).pieces() + order_pieces(orderings_view(order_by@)),
{
    if order_by.len() > 0 {
        ctx.push_text(" ORDER BY ");
        let ghost head = ctx.pieces();
        let ghost parts = ordering_parts(orderings_view(order_by@));
        let mut i: usize = 0;
        while i < order_by.len()
            invariant
                0 <= i <= order_by.len(),
                ctx.mode() == old(ctx).mode(),
                parts == ordering_parts(orderings_view(order_by@)),
                ctx.pieces() == head + joined(parts.take(i as int), ", "@),
            decreases order_by.len() - i,
        {
            if i > 0 {
                ctx.push_text(", ");
            }
            order_by[i].to_sql(ctx);
            proof {
                let before = parts.take(i + 1);
                assert(before.drop_last() =~= parts.take(i as int));
            }
            i = i + 1;
        }
        assert(parts.take(order_by.len() as int) =~= parts);
    } else {
    }
}

/// Writes a clause of a keyword and a count, if there is a count.
pub fn count_to_sql(keyword: &str, count: Option<usize>, ctx: &mut SqlContext)
    ensures
        final(ctx).mode() == old(ctx).mode(),
        final(ctx).pieces() == old(ctx).pieces() + count_pieces(keyword@, count_view(count)),
{
    match count {
        Some(n) => {
            ctx.push_text(keyword);
            ctx.push_number(n);
        },
        None => {},
    }
}

impl View for SelectStatement {
    type V = SelectStatementView;

    open spec fn view(&self) -> SelectStatementView {
        self.model()
    }
}

impl Clone for SelectStatement {
    fn clone(&self) -> (r: Self)
        ensures
            r@ == self@,
    {
        let r = SelectStatement {
            select: self.select.clone(),
            from: share(&self.from),
            where_: clone_predicate(&self.where_),
            limit: self.limit,
            offset: self.offset,
            order_by: clone_orderings(&self.order_by),
            joins: clone_joins(&self.joins),
        };
        r
    }
}

/// The pieces of each of a sequence of joins, in order.
pub open spec fn join_parts(joins: Seq<JoinView>) -> Seq<Seq<Piece>>
    decreases joins,
{
    Seq::new(
        joins.len(),
        |i: int|
            if 0 <= i < joins.len() {
                joins[i].pieces()
            } else {
                arbitrary()
            },
    )
}

/// The pieces of each of a sequence of expressions, in order.
pub open spec fn expression_parts(items: Seq<ExpressionView>) -> Seq<Seq<Piece>>
    decreases items,
{
    Seq::new(
        items.len(),
        |i: int|
            if 0 <= i < items.len() {
                items[i].pieces()
            } else {
                arbitrary()
            },
    )
}

/// The `WHERE` clause: ` WHERE ` and the predicate, or nothing where there
/// is no predicate.
pub open spec fn where_pieces(where_: Option<PredicateView>) -> Seq<Piece>
    decreases where_,
{
    match where_ {
        Some(p) => text_piece(" WHERE "@) + p.pieces(),
        None => Seq::empty(),
    }
}

/// The `ORDER BY` clause: ` ORDER BY ` and the orderings with a comma
/// between each two, or nothing where there is no ordering.
pub open spec fn order_pieces(order_by: Seq<OrderByView>) -> Seq<Piece> {
    if order_by.len() > 0 {
        text_piece(" ORDER BY "@) + joined(ordering_parts(order_by), ", "@)
    } else {
        Seq::empty()
    }
}

/// A clause of a keyword and a count, or nothing where there is no count.
pub open spec fn count_pieces(keyword: Seq<char>, count: Option<nat>) -> Seq<Piece> {
    match count {
        Some(n) => seq![Piece::Text(keyword), Piece::Text(decimal(n))],
        None => Seq::empty(),
    }
}

impl SelectStatementView {
    /// The pieces of the statement, without a terminator: `SELECT`, what is
    /// selected, `FROM`, the first relation, the joins in the order in which
    /// they were added, then the `WHERE`, `ORDER BY`, `LIMIT` and `OFFSET`
    /// clauses, each only where the statement has one.
    pub open spec fn pieces(self) -> Seq<Piece>
        decreases self,
    {
        text_piece("SELECT "@) + self.select.pieces() + text_piece(" FROM "@) + self.from.pieces()
            + chained(join_parts(self.joins)) + where_pieces(self.where_) + order_pieces(
            self.order_by,
        ) + count_pieces(" LIMIT "@, self.limit) + count_pieces(" OFFSET "@, self.offset)
    }
}

/// The state of a select that yields at most one row: it can stand where a
/// single value is expected. A select is in this state only with a limit of
/// one.
#[derive(Clone, Copy, Debug)]
pub struct LimitOne;

/// The state of a select that yields at most two rows. A select is in this
/// state only with a limit of at most two.
#[derive(Clone, Copy, Debug)]
pub struct LimitTwo;

/// The state of a statement that may yield any number of rows: a select in
/// this state can stand where a list of values is expected.
#[derive(Clone, Copy, Debug)]
pub struct LimitMany;

/// The states of a select: what each of them asks of the limit of a select
/// that is in it.
pub trait ResultArity {
    /// Whether a select with this limit can be in the state.
    spec fn admits(limit: Option<nat>) -> bool;
}

impl ResultArity for LimitOne {
    open spec fn admits(limit: Option<nat>) -> bool {
        limit == Some(1nat)
    }
}

impl ResultArity for LimitTwo {
    open spec fn admits(limit: Option<nat>) -> bool {
        limit.is_some() && limit.unwrap() <= 2
    }
}

impl ResultArity for LimitMany {
    open spec fn admits(limit: Option<nat>) -> bool {
        true
    }
}

/// The state of a statement that yields no rows.
#[derive(Clone, Copy, Debug)]
pub struct NoResult;

/// The limit of a select in the state `L`. It is always one that the state
/// admits: in the state [`LimitOne`] it is a limit of one.
#[derive(Debug)]
pub struct Limit<L: ResultArity> {
    limit: Option<usize>,
    state: PhantomData<L>,
}

impl<L: ResultArity> View for Limit<L> {
    type V = Option<nat>;

    closed spec fn view(&self) -> Option<nat> {
        count_view(self.limit)
    }
}

impl<L: ResultArity> Clone for Limit<L> {
    fn clone(&self) -> (r: Self)
        ensures
            r@ == self@,
    {
        proof {
            use_type_invariant(self);
        }
        Limit { limit: self.limit, state: PhantomData }
    }
}

impl<L: ResultArity> Limit<L> {
    #[verifier::type_invariant]
    spec fn fits_state(self) -> bool {
        L::admits(count_view(self.limit))
    }

    /// The limit, if there is one. It is one that the state admits.
    pub fn get(&self) -> (limit: Option<usize>)
        ensures
            count_view(limit) == self@,
            L::admits(self@),
    {
        proof {
            use_type_invariant(self);
        }
        self.limit
    }
}

impl Limit<LimitMany> {
    /// No limit.
    pub fn none() -> (limit: Limit<LimitMany>)
        ensures
            limit@.is_none(),
    {
        Limit { limit: None, state: PhantomData }
    }

    /// A limit of `n` rows, whatever `n` is.
    pub fn of(n: Option<usize>) -> (limit: Limit<LimitMany>)
        ensures
            limit@ == count_view(n),
    {
        Limit { limit: n, state: PhantomData }
    }
}

impl Limit<LimitOne> {
    /// A limit of one row.
    pub fn one() -> (limit: Limit<LimitOne>)
        ensures
            limit@ == Some(1nat),
    {
        Limit { limit: Some(1), state: PhantomData }
    }
}

/// A select statement under construction. `T` is the type of its rows, `L`
/// its state ([`LimitOne`] or [`LimitMany`]) and `M` a tag that the caller
/// is free to use; none of them is stored. No operation changes the builder
/// it is called on: each gives a new one.
///
/// The limit of a select is always one that its state admits: a select in
/// the state [`LimitOne`] has a limit of one.
#[derive(Debug)]
pub struct SelectQuery<T, L: ResultArity, M> {
    pub select: Select,
    pub from: RcFrom,
    pub where_: Option<RcPredicate>,
    pub limit: Limit<L>,
    pub offset: Option<usize>,
    pub order_by: Vec<OrderBy>,
    pub joins: Vec<Join>,
    pub marker: PhantomData<(T, M)>,
}

impl<T, L: ResultArity, M> View for SelectQuery<T, L, M> {
    type V = SelectStatementView;

    open spec fn view(&self) -> SelectStatementView {
        SelectStatementView {
            select: self.select@,
            from: self.from@,
            where_: predicate_view(self.where_),
            limit: self.limit@,
            offset: count_view(self.offset),
            order_by: orderings_view(self.order_by@),
            joins: joins_view(self.joins@),
        }
    }
}

impl<T, L: ResultArity, M> Clone for SelectQuery<T, L, M> {
    fn clone(&self) -> (r: Self)
        ensures
            r@ == self@,
    {
        SelectQuery {
            select: self.select.clone(),
            from: share(&self.from),
            where_: clone_predicate(&self.where_),
            limit: self.limit.clone(),
            offset: self.offset,
            order_by: clone_orderings(&self.order_by),
            joins: clone_joins(&self.joins),
            marker: PhantomData,
        }
    }
}

impl<T, L: ResultArity, M> SelectQuery<T, L, M> {
    /// The statement of the builder, with its row type and state
    /// forgotten.
    pub fn to_statement(&self) -> (statement: SelectStatement)
        ensures
            statement@ == self@,
            L::admits(self@.limit),
    {
        let statement = SelectStatement {
            select: self.select.clone(),
            from: share(&self.from),
            where_: clone_predicate(&self.where_),
            limit: self.limit.get(),
            offset: self.offset,
            order_by: clone_orderings(&self.order_by),
            joins: clone_joins(&self.joins),
        };
        assert(statement@.joins =~= self@.joins);
        statement
    }

    /// This select with `limit` for its limit, in the state of the limit.
    fn limited<L2: ResultArity>(&self, limit: Limit<L2>) -> (query: SelectQuery<T, L2, M>)
        ensures
            query@ == (SelectStatementView { limit: limit@, ..self@ }),
    {
        SelectQuery {
            select: self.select.clone(),
            from: share(&self.from),
            where_: clone_predicate(&self.where_),
            limit,
            offset: self.offset,
            order_by: clone_orderings(&self.order_by),
            joins: clone_joins(&self.joins),
            marker: PhantomData,
        }
    }
}

/// A select that has been given a limit, in the state that the limit puts
/// it in: the one-row state with a limit of one, the many-row state with
/// any other.
#[derive(Debug)]
pub enum Limited<T, M> {
    One(SelectQuery<T, LimitOne, M>),
    Many(SelectQuery<T, LimitMany, M>),
}

impl<T, M> View for Limited<T, M> {
    type V = SelectStatementView;

    open spec fn view(&self) -> SelectStatementView {
        match *self {
            Limited::One(query) => query@,
            Limited::Many(query) => query@,
        }
    }
}

impl<T, M> Limited<T, M> {
    /// The select in the one-row state, where its limit is one.
    pub fn one(self) -> (query: Option<SelectQuery<T, LimitOne, M>>)
        ensures
            query.is_some() == (self is One),
            query.is_some() ==> query.unwrap()@ == self@,
    {
        match self {
            Limited::One(query) => Some(query),
            Limited::Many(_) => None,
        }
    }

    /// The select in the many-row state, whatever its limit: a select of
    /// one row can stand wherever a select of many rows can.
    pub fn many(self) -> (query: SelectQuery<T, LimitMany, M>)
        ensures
            query@ == self@,
    {
        match self {
            Limited::One(query) => query.limited(Limit::of(query.limit.get())),
            Limited::Many(query) => query,
        }
    }
}

impl<T, M> ToSql for Limited<T, M> {
    open spec fn sql_pieces(&self) -> Seq<Piece> {
        self@.pieces()
    }

    fn to_sql(&self, ctx: &mut SqlContext) {
        match self {
            Limited::One(query) => query.to_sql(ctx),
            Limited::Many(query) => query.to_sql(ctx),
        }
    }
}

impl<T, M> QueryToSql for Limited<T, M> {

}

/// The predicate of a statement after `predicate` has been added to it with
/// `AND`: the conjunction of the two, or `predicate` alone where the
/// statement had none.
pub open spec fn and_where(current: Option<PredicateView>, predicate: PredicateView)
    -> PredicateView {
    match current {
        Some(p) => PredicateView::And { left: Box::new(p), right: Box::new(predicate) },
        None => predicate,
    }
}

/// The predicate of a statement after `predicate` has been added to it with
/// `OR`: the disjunction of the two, or `predicate` alone where the
/// statement had none.
pub open spec fn or_where(current: Option<PredicateView>, predicate: PredicateView)
    -> PredicateView {
    match current {
        Some(p) => PredicateView::Or { left: Box::new(p), right: Box::new(predicate) },
        None => predicate,
    }
}

/// A statement with a predicate.
pub trait Queryable: Sized {
    /// The predicate of the statement.
    spec fn where_view(&self) -> Option<PredicateView>;

    /// Whether `other` is this statement with `where_` for its predicate and
    /// nothing else changed. Each kind of statement says what this is for
    /// it.
    spec fn with_where(&self, where_: Option<PredicateView>, other: &Self) -> bool;

    /// The predicate of the statement, if it has one.
    fn get_where(&self) -> (where_: &Option<RcPredicate>)
        ensures
            predicate_view(*where_) == self.where_view(),
    ;

    /// Gives the statement `predicate` for its predicate, in place of the
    /// one it had.
    fn set_where(&mut self, predicate: RcPredicate)
        ensures
            final(self).where_view() == Some(predicate@),
            old(self).with_where(Some(predicate@), final(self)),
    ;

    /// Takes the predicate of the statement away.
    fn unset_where(&mut self)
        ensures
            final(self).where_view().is_none(),
            old(self).with_where(None, final(self)),
    ;

    /// The statement with `predicate` added to its predicate by `OR`.
    fn or(&self, predicate: RcPredicate) -> (query: Self)
        ensures
            query.where_view() == Some(or_where(self.where_view(), predicate@)),
            self.with_where(Some(or_where(self.where_view(), predicate@)), &query),
    ;

    /// The statement with `predicate` added to its predicate by `AND`.
    /// Adding the same predicate twice keeps both.
    fn where_(&self, predicate: RcPredicate) -> (query: Self)
        ensures
            query.where_view() == Some(and_where(self.where_view(), predicate@)),
            self.with_where(Some(and_where(self.where_view(), predicate@)), &query),
    ;

    /// The same as [`Queryable::where_`].
    fn and(&self, predicate: RcPredicate) -> (query: Self)
        ensures
            query.where_view() == Some(and_where(self.where_view(), predicate@)),
            self.with_where(Some(and_where(self.where_view(), predicate@)), &query),
    ;
}

/// The predicate `predicate` added by `AND` to an optional predicate.
pub fn add_and(current: &Option<RcPredicate>, predicate: RcPredicate) -> (p: RcPredicate)
    ensures
        p@ == and_where(predicate_view(*current), predicate@),
{
    match current {
        Some(w) => w.and(predicate),
        None => predicate,
    }
}

/// The predicate `predicate` added by `OR` to an optional predicate.
pub fn add_or(current: &Option<RcPredicate>, predicate: RcPredicate) -> (p: RcPredicate)
    ensures
        p@ == or_where(predicate_view(*current), predicate@),
{
    match current {
        Some(w) => w.or(predicate),
        None => predicate,
    }
}

impl<T, L: ResultArity, M> Queryable for SelectQuery<T, L, M> {
    open spec fn where_view(&self) -> Option<PredicateView> {
        self@.where_
    }

    open spec fn with_where(&self, where_: Option<PredicateView>, other: &Self) -> bool {
        other@ == (SelectStatementView { where_, ..self@ })
    }

    fn get_where(&self) -> (where_: &Option<RcPredicate>) {
        &self.where_
    }

    fn set_where(&mut self, predicate: RcPredicate) {
        self.where_ = Some(predicate);
    }

    fn unset_where(&mut self) {
        self.where_ = None;
    }

    fn or(&self, predicate: RcPredicate) -> (query: Self) {
        let mut query = self.clone();
        query.where_ = Some(add_or(&self.where_, predicate));
        query
    }

    fn where_(&self, predicate: RcPredicate) -> (query: Self) {
        let mut query = self.clone();
        query.where_ = Some(add_and(&self.where_, predicate));
        query
    }

    fn and(&self, predicate: RcPredicate) -> (query: Self) {
        self.where_(predicate)
    }
}

/// The orderings that sort ascending by each of `fields`, in order.
pub open spec fn ascending<F: Field>(fields: Seq<F>) -> Seq<OrderByView> {
    Seq::new(
        fields.len(),
        |i: int| OrderByView { by: fields[i].field_view(), order: Order::Asc },
    )
}

/// The orderings that sort descending by each of `fields`, in order.
pub open spec fn descending<F: Field>(fields: Seq<F>) -> Seq<OrderByView> {
    Seq::new(
        fields.len(),
        |i: int| OrderByView { by: fields[i].field_view(), order: Order::Desc },
    )
}

/// A statement whose rows can be sorted.
pub trait Orderable: Sized {
    /// The orderings of the statement, the most significant first.
    spec fn order_view(&self) -> Seq<OrderByView>;

    /// Whether `other` is this statement with `order_by` for its orderings
    /// and nothing else changed. Each kind of statement says what this is
    /// for it.
    spec fn with_order(&self, order_by: Seq<OrderByView>, other: &Self) -> bool;

    /// The orderings of the statement, to be changed in place: whatever
    /// they are changed to becomes the orderings of the statement, and
    /// nothing else of it changes.
    fn get_order_by_mut(&mut self) -> (order_by: &mut Vec<OrderBy>)
        ensures
            orderings_view(order_by@) == old(self).order_view(),
            final(self).order_view() == orderings_view(final(order_by)@),
            old(self).with_order(orderings_view(final(order_by)@), final(self)),
    ;

    /// Gives the statement `order_by` for its orderings, in place of those
    /// it had.
    fn set_order_by(&mut self, order_by: Vec<OrderBy>)
        ensures
            final(self).order_view() == orderings_view(order_by@),
            old(self).with_order(orderings_view(order_by@), final(self)),
    ;

    /// The statement sorted ascending by `field` alone.
    fn order_by<F: Field>(&self, field: &F) -> (query: Self)
        ensures
            query.order_view() == seq![OrderByView { by: field.field_view(), order: Order::Asc }],
            self.with_order(
                seq![OrderByView { by: field.field_view(), order: Order::Asc }],
                &query,
            ),
    ;

    /// The statement sorted ascending by `fields`, and by nothing else.
    fn order_by_fields<F: Field>(&self, fields: &[F]) -> (query: Self)
        ensures
            query.order_view() == ascending(fields@),
            self.with_order(ascending(fields@), &query),
    ;

    /// The statement sorted descending by `field` alone.
    fn reverse_by<F: Field>(&self, field: &F) -> (query: Self)
        ensures
            query.order_view() == seq![OrderByView { by: field.field_view(), order: Order::Desc }],
            self.with_order(
                seq![OrderByView { by: field.field_view(), order: Order::Desc }],
                &query,
            ),
    ;

    /// The statement sorted descending by `fields`, and by nothing else.
    fn reverse_by_fields<F: Field>(&self, fields: &[F]) -> (query: Self)
        ensures
            query.order_view() == descending(fields@),
            self.with_order(descending(fields@), &query),
    ;

    /// The statement sorted as before and then, least significant,
    /// ascending by `field`.
    fn order_append<F: Field>(&self, field: &F) -> (query: Self)
        ensures
            query.order_view() == self.order_view().push(
                OrderByView { by: field.field_view(), order: Order::Asc },
            ),
            self.with_order(
                self.order_view().push(
                    OrderByView { by: field.field_view(), order: Order::Asc },
                ),
                &query,
            ),
    ;

    /// The statement sorted, most significant, ascending by `field` and then
    /// as before.
    fn order_prepend<F: Field>(&self, field: &F) -> (query: Self)
        ensures
            query.order_view() == seq![OrderByView { by: field.field_view(), order: Order::Asc }]
                + self.order_view(),
            self.with_order(
                seq![OrderByView { by: field.field_view(), order: Order::Asc }]
                    + self.order_view(),
                &query,
            ),
    ;

    /// The statement sorted as before and then, least significant,
    /// descending by `field`.
    fn order_reverse_append<F: Field>(&self, field: &F) -> (query: Self)
        ensures
            query.order_view() == self.order_view().push(
                OrderByView { by: field.field_view(), order: Order::Desc },
            ),
            self.with_order(
                self.order_view().push(
                    OrderByView { by: field.field_view(), order: Order::Desc },
                ),
                &query,
            ),
    ;

    /// The statement sorted, most significant, descending by `field` and
    /// then as before.
    fn order_reverse_prepend<F: Field>(&self, field: &F) -> (query: Self)
        ensures
            query.order_view() == seq![OrderByView { by: field.field_view(), order: Order::Desc }]
                + self.order_view(),
            self.with_order(
                seq![OrderByView { by: field.field_view(), order: Order::Desc }]
                    + self.order_view(),
                &query,
            ),
    ;
}

impl<T, L: ResultArity, M> SelectQuery<T, L, M> {
    /// This select with `order_by` for its orderings.
    fn ordered(&self, order_by: Vec<OrderBy>) -> (query: Self)
        ensures
            query@ == (SelectStatementView { order_by: orderings_view(order_by@), ..self@ }),
    {
        let mut query = self.clone();
        query.order_by = order_by;
        query
    }
}

impl<T, L: ResultArity, M> Orderable for SelectQuery<T, L, M> {
    open spec fn order_view(&self) -> Seq<OrderByView> {
        self@.order_by
    }

    open spec fn with_order(&self, order_by: Seq<OrderByView>, other: &Self) -> bool {
        other@ == (SelectStatementView { order_by, ..self@ })
    }

    fn get_order_by_mut(&mut self) -> (order_by: &mut Vec<OrderBy>) {
        &mut self.order_by
    }

    fn set_order_by(&mut self, order_by: Vec<OrderBy>) {
        self.order_by = order_by;
    }

    fn order_by<F: Field>(&self, field: &F) -> (query: Self) {
        let mut order_by: Vec<OrderBy> = Vec::new();
        order_by.push(OrderBy::by_field(field));
        let query = self.ordered(order_by);
        assert(query@.order_by =~= seq![
            OrderByView { by: field.field_view(), order: Order::Asc },
        ]);
        query
    }

    fn order_by_fields<F: Field>(&self, fields: &[F]) -> (query: Self) {
        let mut order_by: Vec<OrderBy> = Vec::new();
        let mut i: usize = 0;
        while i < fields.len()
            invariant
                0 <= i <= fields.len(),
                orderings_view(order_by@) == ascending(fields@.take(i as int)),
            decreases fields.len() - i,
        {
            let entry = OrderBy::by_field(&fields[i]);
            order_by.push(entry);
            assert(ascending(fields@.take(i + 1)) =~= ascending(fields@.take(i as int)).push(
                entry@,
            ));
            i = i + 1;
        }
        assert(fields@.take(fields.len() as int) =~= fields@);
        self.ordered(order_by)
    }

    fn reverse_by<F: Field>(&self, field: &F) -> (query: Self) {
        let mut order_by: Vec<OrderBy> = Vec::new();
        order_by.push(OrderBy::reverse_by(field));
        let query = self.ordered(order_by);
        assert(query@.order_by =~= seq![
            OrderByView { by: field.field_view(), order: Order::Desc },
        ]);
        query
    }

    fn reverse_by_fields<F: Field>(&self, fields: &[F]) -> (query: Self) {
        let mut order_by: Vec<OrderBy> = Vec::new();
        let mut i: usize = 0;
        while i < fields.len()
            invariant
                0 <= i <= fields.len(),
                orderings_view(order_by@) == descending(fields@.take(i as int)),
            decreases fields.len() - i,
        {
            let entry = OrderBy::reverse_by(&fields[i]);
            order_by.push(entry);
            assert(descending(fields@.take(i + 1)) =~= descending(fields@.take(i as int)).push(
                entry@,
            ));
            i = i + 1;
        }
        assert(fields@.take(fields.len() as int) =~= fields@);
        self.ordered(order_by)
    }

    fn order_append<F: Field>(&self, field: &F) -> (query: Self) {
        let mut order_by = clone_orderings(&self.order_by);
        order_by.push(OrderBy::by_field(field));
        let query = self.ordered(order_by);
        assert(query@.order_by =~= self@.order_by.push(
            OrderByView { by: field.field_view(), order: Order::Asc },
        ));
        query
    }

    fn order_prepend<F: Field>(&self, field: &F) -> (query: Self) {
        let mut order_by = clone_orderings(&self.order_by);
        order_by.insert(0, OrderBy::by_field(field));
        let query = self.ordered(order_by);
        assert(query@.order_by =~= seq![
            OrderByView { by: field.field_view(), order: Order::Asc },
        ] + self@.order_by);
        query
    }

    fn order_reverse_append<F: Field>(&self, field: &F) -> (query: Self) {
        let mut order_by = clone_orderings(&self.order_by);
        order_by.push(OrderBy::reverse_by(field));
        let query = self.ordered(order_by);
        assert(query@.order_by =~= self@.order_by.push(
            OrderByView { by: field.field_view(), order: Order::Desc },
        ));
        query
    }

    fn order_reverse_prepend<F: Field>(&self, field: &F) -> (query: Self) {
        let mut order_by = clone_orderings(&self.order_by);
        order_by.insert(0, OrderBy::reverse_by(field));
        let query = self.ordered(order_by);
        assert(query@.order_by =~= seq![
            OrderByView { by: field.field_view(), order: Order::Desc },
        ] + self@.order_by);
        query
    }
}

impl<T, M> SelectQuery<T, LimitMany, M> {
    /// A select of `select` from `from`, with no join, predicate, ordering,
    /// limit or offset. It is in the many-row state: only a limit of one
    /// takes a select out of it.
    pub fn new(select: Select, from: RcFrom) -> (query: SelectQuery<T, LimitMany, M>)
        ensures
            query@ == (SelectStatementView {
                select: select@,
                from: from@,
                where_: None,
                limit: None,
                offset: None,
                order_by: Seq::empty(),
                joins: Seq::empty(),
            }),
    {
        let query = SelectQuery {
            select,
            from,
            where_: None,
            limit: Limit::none(),
            offset: None,
            order_by: Vec::new(),
            joins: Vec::new(),
            marker: PhantomData,
        };
        assert(query@.order_by =~= Seq::empty());
        assert(query@.joins =~= Seq::empty());
        query
    }
}

impl<T, L: ResultArity, M> SelectQuery<T, L, M> {
    /// The select limited to `limit` rows. With a limit of one, and with no
    /// other, the result is in the one-row state, in which a select can
    /// stand where a single value is expected; with any other limit it is
    /// in the many-row state.
    pub fn limit(&self, limit: usize) -> (limited: Limited<T, M>)
        ensures
            limited@ == (SelectStatementView { limit: Some(limit as nat), ..self@ }),
            (limited is One) == (limit == 1),
            (limited is Many) == (limit != 1),
    {
        if limit == 1 {
            Limited::One(self.limited(Limit::one()))
        } else {
            Limited::Many(self.limited(Limit::of(Some(limit))))
        }
    }

    /// The select limited to its first row.
    pub fn first(&self) -> (query: SelectQuery<T, LimitOne, M>)
        ensures
            query@ == (SelectStatementView { limit: Some(1nat), ..self@ }),
    {
        self.limited(Limit::one())
    }

    /// The select without its first `offset` rows.
    pub fn offset(&self, offset: usize) -> (query: SelectQuery<T, L, M>)
        ensures
            query@ == (SelectStatementView { offset: Some(offset as nat), ..self@ }),
    {
        let mut query = self.clone();
        query.offset = Some(offset);
        query
    }

    /// The select as a relation named `alias`, which another statement can
    /// read from.
    pub fn alias(&self, alias: String) -> (from: FromSelect<T, L, M>)
        ensures
            from.select@ == self@,
            from.alias == alias,
    {
        FromSelect { select: self.clone(), alias }
    }

    /// This select with one more join, after those it has.
    fn joined_with(&self, join: Join) -> (query: SelectQuery<T, L, M>)
        ensures
            query@ == (SelectStatementView { joins: self@.joins.push(join@), ..self@ }),
    {
        let mut query = self.clone();
        query.joins.push(join);
        assert(query@.joins =~= self@.joins.push(join@));
        query
    }

    /// The select with one more join, after those it has: an inner join with
    /// `from` on the condition `on`.
    pub fn inner_join<F: From>(&self, from: &F, on: RcPredicate) -> (query: SelectQuery<T, L, M>)
        ensures
            query@ == self@.with_join(JoinType::InnerJoin, from.from_view(), Some(on@)),
    {
        self.joined_with(Join::inner_join(from.upcast_from(), on))
    }

    /// The select with one more join, after those it has: a full outer join with
    /// `from` on the condition `on`.
    pub fn full_outer_join<F: From>(&self, from: &F, on: RcPredicate) -> (query: SelectQuery<
        T,
        L,
        M,
    >)
        ensures
            query@ == self@.with_join(JoinType::FullOuterJoin, from.from_view(), Some(on@)),
    {
        self.joined_with(Join::full_outer_join(from.upcast_from(), on))
    }

    /// The select with one more join, after those it has: a right outer join with
    /// `from` on the condition `on`.
    pub fn right_outer_join<F: From>(&self, from: &F, on: RcPredicate) -> (query: SelectQuery<
        T,
        L,
        M,
    >)
        ensures
            query@ == self@.with_join(JoinType::RightOuterJoin, from.from_view(), Some(on@)),
    {
        self.joined_with(Join::right_outer_join(from.upcast_from(), on))
    }

    /// The select with one more join, after those it has: a left outer join with
    /// `from` on the condition `on`.
    pub fn left_outer_join<F: From>(&self, from: &F, on: RcPredicate) -> (query: SelectQuery<
        T,
        L,
        M,
    >)
        ensures
            query@ == self@.with_join(JoinType::LeftOuterJoin, from.from_view(), Some(on@)),
    {
        self.joined_with(Join::left_outer_join(from.upcast_from(), on))
    }

    /// The select with one more join, after those it has: a full join with
    /// `from` on the condition `on`.
    pub fn full_join<F: From>(&self, from: &F, on: RcPredicate) -> (query: SelectQuery<T, L, M>)
        ensures
            query@ == self@.with_join(JoinType::FullJoin, from.from_view(), Some(on@)),
    {
        self.joined_with(Join::full_join(from.upcast_from(), on))
    }

    /// The select with one more join, after those it has: a left join with
    /// `from` on the condition `on`.
    pub fn left_join<F: From>(&self, from: &F, on: RcPredicate) -> (query: SelectQuery<T, L, M>)
        ensures
            query@ == self@.with_join(JoinType::LeftJoin, from.from_view(), Some(on@)),
    {
        self.joined_with(Join::left_join(from.upcast_from(), on))
    }

    /// The select with one more join, after those it has: a right join with
    /// `from` on the condition `on`.
    pub fn right_join<F: From>(&self, from: &F, on: RcPredicate) -> (query: SelectQuery<T, L, M>)
        ensures
            query@ == self@.with_join(JoinType::RightJoin, from.from_view(), Some(on@)),
    {
        self.joined_with(Join::right_join(from.upcast_from(), on))
    }

    /// The select with one more join, after those it has: a natural join with
    /// `from`.
    pub fn natural_join<F: From>(&self, from: &F) -> (query: SelectQuery<T, L, M>)
        ensures
            query@ == self@.with_join(JoinType::NaturalJoin, from.from_view(), None),
    {
        self.joined_with(Join::natural_join(from.upcast_from()))
    }

    /// The select with one more join, after those it has: a natural left join with
    /// `from`.
    pub fn natural_left_join<F: From>(&self, from: &F) -> (query: SelectQuery<T, L, M>)
        ensures
            query@ == self@.with_join(JoinType::NaturalLeftJoin, from.from_view(), None),
    {
        self.joined_with(Join::natural_left_join(from.upcast_from()))
    }

    /// The select with one more join, after those it has: a natural right join with
    /// `from`.
    pub fn natural_right_join<F: From>(&self, from: &F) -> (query: SelectQuery<T, L, M>)
        ensures
            query@ == self@.with_join(JoinType::NaturalRightJoin, from.from_view(), None),
    {
        self.joined_with(Join::natural_right_join(from.upcast_from()))
    }

    /// The select with one more join, after those it has: a natural full join with
    /// `from`.
    pub fn natural_full_join<F: From>(&self, from: &F) -> (query: SelectQuery<T, L, M>)
        ensures
            query@ == self@.with_join(JoinType::NaturalFullJoin, from.from_view(), None),
    {
        self.joined_with(Join::natural_full_join(from.upcast_from()))
    }

    /// The select with one more join, after those it has: a cross join with
    /// `from`.
    pub fn cross_join<F: From>(&self, from: &F) -> (query: SelectQuery<T, L, M>)
        ensures
            query@ == self@.with_join(JoinType::CrossJoin, from.from_view(), None),
    {
        self.joined_with(Join::cross_join(from.upcast_from()))
    }
}

impl SelectStatementView {
    /// The statement with one more join, after those it has.
    pub open spec fn with_join(self, join_type: JoinType, from: FromView, on: Option<PredicateView>)
        -> SelectStatementView {
        SelectStatementView { joins: self.joins.push(JoinView { join_type, from, on }), ..self }
    }
}

/// A select whose row type and state can be forgotten.
pub trait ToSelectQuery: Sized {
    /// The mathematical content of the select.
    spec fn select_view(&self) -> SelectStatementView;

    /// The select as a shared value with its row type and state forgotten.
    fn upcast(self) -> (select: RcSelectQuery)
        ensures
            select@ == self.select_view(),
    ;
}

impl<T, L: ResultArity, M> ToSelectQuery for SelectQuery<T, L, M> {
    open spec fn select_view(&self) -> SelectStatementView {
        self@
    }

    fn upcast(self) -> (select: RcSelectQuery) {
        Arc::new(self.to_statement())
    }
}

impl<T, L: ResultArity, M> ToSql for SelectQuery<T, L, M> {
    open spec fn sql_pieces(&self) -> Seq<Piece> {
        self@.pieces()
    }

    fn to_sql(&self, ctx: &mut SqlContext) {
        let statement = self.to_statement();
        assert(statement@.pieces() == self.sql_pieces());
        statement.to_sql(ctx)
    }
}

impl<T, L: ResultArity, M> QueryToSql for SelectQuery<T, L, M> {

}

// A select that yields one row stands where a single value is expected.
impl<T, M> UntypedExpression for SelectQuery<T, LimitOne, M> {
    open spec fn expression_view(&self) -> ExpressionView {
        ExpressionView::Select(Box::new(self@))
    }

    fn upcast_expression(&self) -> (e: RcExpression) {
        Arc::new(BoxedExpression::Select(Arc::new(self.to_statement())))
    }
}

impl<T, M> Expression<T> for SelectQuery<T, LimitOne, M> {

}

impl<T, M> ToExpression<T> for SelectQuery<T, LimitOne, M> {

}

// A select that may yield many rows stands where a list is expected.
impl<T, M> UntypedListExpression for SelectQuery<T, LimitMany, M> {
    open spec fn list_view(&self) -> ListExpressionView {
        ListExpressionView::Select(Box::new(self@))
    }

    fn upcast_list(&self) -> (e: RcListExpression) {
        Arc::new(BoxedListExpression::Select(Arc::new(self.to_statement())))
    }
}

impl<T, M> ListExpression<T> for SelectQuery<T, LimitMany, M> {

}

impl<T, M> ToListExpression<T> for SelectQuery<T, LimitMany, M> {

}

impl ToSql for Select {
    open spec fn sql_pieces(&self) -> Seq<Piece> {
        self@.pieces()
    }

    fn to_sql(&self, ctx: &mut SqlContext) {
        self.to_sql(ctx)
    }
}

impl ToSql for SelectStatement {
    open spec fn sql_pieces(&self) -> Seq<Piece> {
        self@.pieces()
    }

    fn to_sql(&self, ctx: &mut SqlContext) {
        self.to_sql(ctx)
    }
}

} // verus!
