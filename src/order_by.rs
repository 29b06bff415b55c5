//! `ORDER BY` terms of a SELECT: comma-joined `column ASC|DESC`, no placeholders.
use vstd::prelude::*;
use crate::source::{ColWrap, Source};

verus! {

/// A sequence of ordering terms.
#[derive(Debug)]
pub enum OrderSeq {
    Asc(Asc),
    Desc(Desc),
    Pair(Box<OrderSeq>, Box<OrderSeq>),
}

/// Ascending order on a column.
#[derive(Clone, Debug)]
pub struct Asc(pub ColWrap);

/// Descending order on a column.
#[derive(Clone, Debug)]
pub struct Desc(pub ColWrap);

/// The text of an ordering sequence.
pub open spec fn order_text(o: OrderSeq) -> Seq<char>
    decreases o,
{
    match o {
        OrderSeq::Asc(a) => a.0.0.name@ + " ASC"@,
        OrderSeq::Desc(d) => d.0.0.name@ + " DESC"@,
        OrderSeq::Pair(a, b) => order_text(*a) + ", "@ + order_text(*b),
    }
}

/// Whether every column of the sequence belongs to the table named `table`.
pub open spec fn order_ok(o: OrderSeq, table: Seq<char>) -> bool
    decreases o,
{
    match o {
        OrderSeq::Asc(a) => a.0.0.belongs(table),
        OrderSeq::Desc(d) => d.0.0.belongs(table),
        OrderSeq::Pair(a, b) => order_ok(*a, table) && order_ok(*b, table),
    }
}

impl ColWrap {
    /// Ascending order on this column.
    pub fn asc(self) -> (r: OrderSeq)
        ensures
            r == OrderSeq::Asc(Asc(self)),
    {
        OrderSeq::Asc(Asc(self))
    }

    /// Descending order on this column.
    pub fn desc(self) -> (r: OrderSeq)
        ensures
            r == OrderSeq::Desc(Desc(self)),
    {
        OrderSeq::Desc(Desc(self))
    }
}

impl OrderSeq {
    /// This ordering, ties broken by `other`.
    pub fn then(self, other: OrderSeq) -> (r: OrderSeq)
        ensures
            r == OrderSeq::Pair(Box::new(self), Box::new(other)),
    {
        OrderSeq::Pair(Box::new(self), Box::new(other))
    }

    /// Appends the ordering terms.
    pub fn push_seq(&self, buf: &mut String)
        ensures
            final(buf)@ == old(buf)@ + order_text(*self),
        decreases self,
    {
        match self {
            OrderSeq::Asc(a) => {
                a.0.0.push_name(buf);
                buf.append(" ASC");
            },
            OrderSeq::Desc(d) => {
                d.0.0.push_name(buf);
                buf.append(" DESC");
            },
            OrderSeq::Pair(a, b) => {
                a.push_seq(buf);
                buf.append(", ");
                b.push_seq(buf);
            },
        }
        assert(buf@ =~= old(buf)@ + order_text(*self));
    }

    /// Whether every column belongs to `src`.
    pub fn belongs_to(&self, src: &Source) -> (r: bool)
        ensures
            r == order_ok(*self, src.name@),
        decreases self,
    {
        match self {
            OrderSeq::Asc(a) => a.0.0.belongs_to(src),
            OrderSeq::Desc(d) => d.0.0.belongs_to(src),
            OrderSeq::Pair(a, b) => a.belongs_to(src) && b.belongs_to(src),
        }
    }
}

/// An optional `ORDER BY` clause.
#[derive(Debug)]
pub enum OrderByClause {
    Nothing,
    OrderBy(OrderSeq),
}

/// The text of an `ORDER BY` clause.
pub open spec fn order_by_text(o: OrderByClause) -> Seq<char> {
    match o {
        OrderByClause::Nothing => Seq::empty(),
        OrderByClause::OrderBy(s) => " ORDER BY "@ + order_text(s),
    }
}

/// Whether the clause orders only by columns of the table named `table`.
pub open spec fn order_by_ok(o: OrderByClause, table: Seq<char>) -> bool {
    match o {
        OrderByClause::Nothing => true,
        OrderByClause::OrderBy(s) => order_ok(s, table),
    }
}

impl OrderByClause {
    /// Appends the clause.
    pub fn push_order_by(&self, buf: &mut String)
        ensures
            final(buf)@ == old(buf)@ + order_by_text(*self),
    {
        match self {
            OrderByClause::Nothing => {},
            OrderByClause::OrderBy(s) => {
                buf.append(" ORDER BY ");
                s.push_seq(buf);
            },
        }
        assert(buf@ =~= old(buf)@ + order_by_text(*self));
    }

    /// Whether the clause orders only by columns of `src`.
    pub fn belongs_to(&self, src: &Source) -> (r: bool)
        ensures
            r == order_by_ok(*self, src.name@),
    {
        match self {
            OrderByClause::Nothing => true,
            OrderByClause::OrderBy(s) => s.belongs_to(src),
        }
    }
}

} // verus!
