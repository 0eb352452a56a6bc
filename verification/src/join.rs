//! Joins: the relations that a select reads beside its first one.

use vstd::prelude::*;
use crate::from::{FromView, RcFrom};
use crate::predicate::{PredicateView, RcPredicate};
use crate::select_query::predicate_view;
use crate::share::share;
use crate::sql::{text_piece, Piece, SqlContext, ToSql};

verus! {

/// The kinds of join.
#[derive(Clone, Copy, Debug, PartialEq, Eq)]
pub enum JoinType {
    InnerJoin,
    FullOuterJoin,
    RightOuterJoin,
    LeftOuterJoin,
    FullJoin,
    RightJoin,
    LeftJoin,
    NaturalJoin,
    NaturalLeftJoin,
    NaturalRightJoin,
    NaturalFullJoin,
    CrossJoin,
}

impl JoinType {
    /// The keywords of the join, with a space on either side.
    pub open spec fn sql_text(self) -> Seq<char> {
        match self {
            JoinType::InnerJoin => " INNER JOIN "@,
            JoinType::FullOuterJoin => " FULL OUTER JOIN "@,
            JoinType::RightOuterJoin => " RIGHT OUTER JOIN "@,
            JoinType::LeftOuterJoin => " LEFT OUTER JOIN "@,
            JoinType::FullJoin => " FULL JOIN "@,
            JoinType::RightJoin => " RIGHT JOIN "@,
            JoinType::LeftJoin => " LEFT JOIN "@,
            JoinType::NaturalJoin => " NATURAL JOIN "@,
            JoinType::NaturalLeftJoin => " NATURAL LEFT JOIN "@,
            JoinType::NaturalRightJoin => " NATURAL RIGHT JOIN "@,
            JoinType::NaturalFullJoin => " NATURAL FULL JOIN "@,
            JoinType::CrossJoin => " CROSS JOIN "@,
        }
    }

    /// Whether a join of this kind takes no condition: the natural joins
    /// and the cross join.
    pub open spec fn unconditioned(self) -> bool {
        match self {
            JoinType::NaturalJoin => true,
            JoinType::NaturalLeftJoin => true,
            JoinType::NaturalRightJoin => true,
            JoinType::NaturalFullJoin => true,
            JoinType::CrossJoin => true,
            _ => false,
        }
    }

    /// The keywords of the join, with a space on either side.
    pub fn as_sql(&self) -> (text: &'static str)
        ensures
            text@ == self.sql_text(),
    {
        match self {
            JoinType::InnerJoin => " INNER JOIN ",
            JoinType::FullOuterJoin => " FULL OUTER JOIN ",
            JoinType::RightOuterJoin => " RIGHT OUTER JOIN ",
            JoinType::LeftOuterJoin => " LEFT OUTER JOIN ",
            JoinType::FullJoin => " FULL JOIN ",
            JoinType::RightJoin => " RIGHT JOIN ",
            JoinType::LeftJoin => " LEFT JOIN ",
            JoinType::NaturalJoin => " NATURAL JOIN ",
            JoinType::NaturalLeftJoin => " NATURAL LEFT JOIN ",
            JoinType::NaturalRightJoin => " NATURAL RIGHT JOIN ",
            JoinType::NaturalFullJoin => " NATURAL FULL JOIN ",
            JoinType::CrossJoin => " CROSS JOIN ",
        }
    }
}

/// One join of a select: its kind, the relation joined, and the condition,
/// which only the natural joins and the cross join go without.
#[derive(Debug)]
pub struct Join {
    join_type: JoinType,
    from: RcFrom,
    on: Option<RcPredicate>,
}

/// The mathematical content of a join.
pub struct JoinView {
    pub join_type: JoinType,
    pub from: FromView,
    pub on: Option<PredicateView>,
}

impl JoinView {
    /// Whether the join has a condition exactly where its kind takes one.
    pub open spec fn well_formed(self) -> bool {
        self.on.is_none() == self.join_type.unconditioned()
    }
}

impl Join {
    #[verifier::type_invariant]
    spec fn conditioned_as_its_kind_asks(self) -> bool {
        self.on.is_none() == self.join_type.unconditioned()
    }

    /// The mathematical content of the join.
    pub closed spec fn model(self) -> JoinView
        decreases self,
    {
        JoinView {
            join_type: self.join_type,
            from: (*self.from).model(),
            on: match self.on {
                Some(on) => Some((*on).model()),
                None => None,
            },
        }
    }

    /// The kind of the join.
    pub fn join_type(&self) -> (join_type: JoinType)
        ensures
            join_type == self@.join_type,
    {
        self.join_type
    }

    /// The relation joined.
    pub fn from(&self) -> (from: &RcFrom)
        ensures
            from@ == self@.from,
    {
        &self.from
    }

    /// The condition of the join. There is one exactly where the kind of
    /// the join takes one: every kind does but the natural joins and the
    /// cross join.
    pub fn on(&self) -> (on: &Option<RcPredicate>)
        ensures
            predicate_view(*on) == self@.on,
            self@.well_formed(),
    {
        proof {
            use_type_invariant(self);
        }
        &self.on
    }

    /// A join of the kind `join_type` with a condition.
    fn conditioned(join_type: JoinType, from: RcFrom, on: RcPredicate) -> (join: Join)
        requires
            !join_type.unconditioned(),
        ensures
            join@ == (JoinView { join_type, from: from@, on: Some(on@) }),
    {
        Join { join_type, from, on: Some(on) }
    }

    /// A join of the kind `join_type` without a condition.
    fn unconditioned(join_type: JoinType, from: RcFrom) -> (join: Join)
        requires
            join_type.unconditioned(),
        ensures
            join@ == (JoinView { join_type, from: from@, on: None }),
    {
        Join { join_type, from, on: None }
    }

    /// An inner join with `from` on the condition `on`.
    pub fn inner_join(from: RcFrom, on: RcPredicate) -> (join: Join)
        ensures
            join@ == (JoinView { join_type: JoinType::InnerJoin, from: from@, on: Some(on@) }),
    {
        Join::conditioned(JoinType::InnerJoin, from, on)
    }

    /// A full outer join with `from` on the condition `on`.
    pub fn full_outer_join(from: RcFrom, on: RcPredicate) -> (join: Join)
        ensures
            join@ == (JoinView { join_type: JoinType::FullOuterJoin, from: from@, on: Some(on@) }),
    {
        Join::conditioned(JoinType::FullOuterJoin, from, on)
    }

    /// A right outer join with `from` on the condition `on`.
    pub fn right_outer_join(from: RcFrom, on: RcPredicate) -> (join: Join)
        ensures
            join@ == (JoinView { join_type: JoinType::RightOuterJoin, from: from@, on: Some(on@) }),
    {
        Join::conditioned(JoinType::RightOuterJoin, from, on)
    }

    /// A left outer join with `from` on the condition `on`.
    pub fn left_outer_join(from: RcFrom, on: RcPredicate) -> (join: Join)
        ensures
            join@ == (JoinView { join_type: JoinType::LeftOuterJoin, from: from@, on: Some(on@) }),
    {
        Join::conditioned(JoinType::LeftOuterJoin, from, on)
    }

    /// A full join with `from` on the condition `on`.
    pub fn full_join(from: RcFrom, on: RcPredicate) -> (join: Join)
        ensures
            join@ == (JoinView { join_type: JoinType::FullJoin, from: from@, on: Some(on@) }),
    {
        Join::conditioned(JoinType::FullJoin, from, on)
    }

    /// A right join with `from` on the condition `on`.
    pub fn right_join(from: RcFrom, on: RcPredicate) -> (join: Join)
        ensures
            join@ == (JoinView { join_type: JoinType::RightJoin, from: from@, on: Some(on@) }),
    {
        Join::conditioned(JoinType::RightJoin, from, on)
    }

    /// A left join with `from` on the condition `on`.
    pub fn left_join(from: RcFrom, on: RcPredicate) -> (join: Join)
        ensures
            join@ == (JoinView { join_type: JoinType::LeftJoin, from: from@, on: Some(on@) }),
    {
        Join::conditioned(JoinType::LeftJoin, from, on)
    }

    /// A natural join with `from`.
    pub fn natural_join(from: RcFrom) -> (join: Join)
        ensures
            join@ == (JoinView { join_type: JoinType::NaturalJoin, from: from@, on: None }),
    {
        Join::unconditioned(JoinType::NaturalJoin, from)
    }

    /// A natural left join with `from`.
    pub fn natural_left_join(from: RcFrom) -> (join: Join)
        ensures
            join@ == (JoinView { join_type: JoinType::NaturalLeftJoin, from: from@, on: None }),
    {
        Join::unconditioned(JoinType::NaturalLeftJoin, from)
    }

    /// A natural right join with `from`.
    pub fn natural_right_join(from: RcFrom) -> (join: Join)
        ensures
            join@ == (JoinView { join_type: JoinType::NaturalRightJoin, from: from@, on: None }),
    {
        Join::unconditioned(JoinType::NaturalRightJoin, from)
    }

    /// A natural full join with `from`.
    pub fn natural_full_join(from: RcFrom) -> (join: Join)
        ensures
            join@ == (JoinView { join_type: JoinType::NaturalFullJoin, from: from@, on: None }),
    {
        Join::unconditioned(JoinType::NaturalFullJoin, from)
    }

    /// A cross join with `from`.
    pub fn cross_join(from: RcFrom) -> (join: Join)
        ensures
            join@ == (JoinView { join_type: JoinType::CrossJoin, from: from@, on: None }),
    {
        Join::unconditioned(JoinType::CrossJoin, from)
    }

    /// Writes the join.
    pub fn to_sql(&self, ctx: &mut SqlContext)
        ensures
            final(ctx).mode() == old(ctx).mode(),
            final(ctx).pieces() == old(ctx).pieces() + self@.pieces(),
        decreases *self, 0nat,
    {
        ctx.push_text(self.join_type.as_sql());
        self.from.to_sql(ctx);
        match &self.on {
            Some(on) => {
                ctx.push_text(" ON ");
                on.to_sql(ctx);
            },
            None => {},
        }
    }
}

impl View for Join {
    type V = JoinView;

    open spec fn view(&self) -> JoinView {
        self.model()
    }
}

impl Clone for Join {
    fn clone(&self) -> (r: Self)
        ensures
            r == *self,
    {
        proof {
            use_type_invariant(self);
        }
        Join {
            join_type: self.join_type,
            from: share(&self.from),
            on: match &self.on {
                Some(on) => Some(share(on)),
                None => None,
            },
        }
    }
}

impl JoinView {
    /// The pieces of the join: its keywords, the relation joined and, where
    /// the join has a condition, ` ON ` and the condition.
    pub open spec fn pieces(self) -> Seq<Piece>
        decreases self,
    {
        text_piece(self.join_type.sql_text()) + self.from.pieces() + (match self.on {
            Some(on) => text_piece(" ON "@) + on.pieces(),
            None => Seq::empty(),
        })
    }
}

impl ToSql for Join {
    open spec fn sql_pieces(&self) -> Seq<Piece> {
        self@.pieces()
    }

    fn to_sql(&self, ctx: &mut SqlContext) {
        self.to_sql(ctx)
    }
}

} // verus!
