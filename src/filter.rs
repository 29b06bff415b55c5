//! Boolean filters: equality, NULL tests, sub-query membership, and their AND/OR/NOT
//! combinations, with the `WHERE` clause that holds them.
use vstd::prelude::*;
use crate::builders::select::{
    limit_slots, offset_slots, select_fresh, select_marks, select_ok, select_slots, select_text,
    Limiting, Offsetting, SelectBuilder,
};
use crate::getters::Selection;
use crate::query::{bind_row, fixed_slots, lemma_fixed_len, numbered, push_fixed, push_row, Slot};
use crate::source::{ColWrap, Source};
use crate::text::{placeholder, push_placeholder};
use crate::types::{SqlError, SqlType, SqlValue};

verus! {

/// A boolean expression over the columns of one table.
#[derive(Debug)]
pub enum Clause {
    Equality(Equality),
    IsNull(IsNull),
    InSubQuery(InSubQuery),
    And(And),
    Or(Or),
    Not(Not),
    Taking(WithValue),
}

/// `column = $n`: one placeholder of the column's type.
#[derive(Clone, Debug)]
pub struct Equality(pub ColWrap);

/// `column IS NULL`: no placeholder.
#[derive(Clone, Debug)]
pub struct IsNull(pub ColWrap);

/// `column IN ( <select> )`: the nested statement's placeholders, numbered on from the
/// outer ones.
#[derive(Debug)]
pub struct InSubQuery(pub ColWrap, pub SubQuery);

/// The nested statement of an `IN` test. It is rendered once: rendering consumes the
/// statement and keeps only its parameter shape.
#[derive(Debug)]
pub enum SubQuery {
    Unrendered(Box<SelectBuilder>),
    Bound(Vec<Slot>),
}

/// `(left) AND (right)`.
#[derive(Debug)]
pub struct And(pub Box<Clause>, pub Box<Clause>);

/// `(left) OR (right)`.
#[derive(Debug)]
pub struct Or(pub Box<Clause>, pub Box<Clause>);

/// `NOT (inner)`.
#[derive(Debug)]
pub struct Not(pub Box<Clause>);

/// A clause whose placeholders were given their values when it was built: it renders as
/// the clause does, and nothing is bound to it at execution.
#[derive(Debug)]
pub struct WithValue(pub Box<Clause>, pub Vec<SqlValue>);

/// The marks `m` with their slots replaced, in order, by `s`.
pub open spec fn relabel(m: Seq<(nat, Slot)>, s: Seq<Slot>) -> Seq<(nat, Slot)> {
    Seq::new(m.len(), |i: int| (m[i].0, s[i]))
}

/// An optional `WHERE` clause.
#[derive(Debug)]
pub enum WhereClause {
    Nothing,
    Where(Clause),
}

/// The text a clause renders with its first placeholder numbered `idx`.
pub open spec fn clause_text(c: Clause, idx: nat) -> Seq<char>
    decreases c,
{
    match c {
        Clause::Equality(e) => e.0.0.name@ + " = "@ + placeholder(idx),
        Clause::IsNull(n) => n.0.0.name@ + " IS NULL"@,
        Clause::InSubQuery(s) => match s.1 {
            SubQuery::Unrendered(q) => s.0.0.name@ + " IN ( "@ + select_text(*q, idx) + " )"@,
            SubQuery::Bound(_) => Seq::empty(),
        },
        Clause::And(a) => "("@ + clause_text(*a.0, idx) + ") AND ("@ + clause_text(
            *a.1,
            idx + clause_slots(*a.0).len(),
        ) + ")"@,
        Clause::Or(o) => "("@ + clause_text(*o.0, idx) + ") OR ("@ + clause_text(
            *o.1,
            idx + clause_slots(*o.0).len(),
        ) + ")"@,
        Clause::Not(n) => "NOT ("@ + clause_text(*n.0, idx) + ")"@,
        Clause::Taking(w) => clause_text(*w.0, idx),
    }
}

/// The parameter shape of a clause: its placeholders' slots, left to right.
pub open spec fn clause_slots(c: Clause) -> Seq<Slot>
    decreases c,
{
    match c {
        Clause::Equality(e) => seq![Slot::Arg(e.0.0.ty)],
        Clause::IsNull(_) => Seq::empty(),
        Clause::InSubQuery(s) => match s.1 {
            SubQuery::Unrendered(q) => select_slots(*q),
            SubQuery::Bound(v) => v@,
        },
        Clause::And(a) => clause_slots(*a.0) + clause_slots(*a.1),
        Clause::Or(o) => clause_slots(*o.0) + clause_slots(*o.1),
        Clause::Not(n) => clause_slots(*n.0),
        Clause::Taking(w) => fixed_slots(clause_slots(*w.0), w.1@),
    }
}

/// The placeholders a clause writes when rendered from `idx`, in the order they appear in
/// its text: each with the number written and the slot it stands for.
pub open spec fn clause_marks(c: Clause, idx: nat) -> Seq<(nat, Slot)>
    decreases c,
{
    match c {
        Clause::Equality(e) => seq![(idx, Slot::Arg(e.0.0.ty))],
        Clause::IsNull(_) => Seq::empty(),
        Clause::InSubQuery(s) => match s.1 {
            SubQuery::Unrendered(q) => select_marks(*q, idx),
            SubQuery::Bound(v) => numbered(v@, idx),
        },
        Clause::And(a) => clause_marks(*a.0, idx) + clause_marks(
            *a.1,
            idx + clause_marks(*a.0, idx).len(),
        ),
        Clause::Or(o) => clause_marks(*o.0, idx) + clause_marks(
            *o.1,
            idx + clause_marks(*o.0, idx).len(),
        ),
        Clause::Not(n) => clause_marks(*n.0, idx),
        Clause::Taking(w) => relabel(
            clause_marks(*w.0, idx),
            fixed_slots(clause_slots(*w.0), w.1@),
        ),
    }
}

/// Whether a sub-query selects exactly one column, of type `ty`.
pub open spec fn selects_one(q: SelectBuilder, ty: SqlType) -> bool {
    q.selection matches Some(Selection::Column(c)) && c.0.ty == ty
}

/// Whether a clause tests only columns of the table named `table`, and each of its
/// sub-queries is itself in order and selects one column of the tested column's type.
pub open spec fn clause_ok(c: Clause, table: Seq<char>) -> bool
    decreases c,
{
    match c {
        Clause::Equality(e) => e.0.0.belongs(table),
        Clause::IsNull(n) => n.0.0.belongs(table),
        Clause::InSubQuery(s) => s.0.0.belongs(table) && match s.1 {
            SubQuery::Unrendered(q) => select_ok(*q) && selects_one(*q, s.0.0.ty),
            SubQuery::Bound(_) => true,
        },
        Clause::And(a) => clause_ok(*a.0, table) && clause_ok(*a.1, table),
        Clause::Or(o) => clause_ok(*o.0, table) && clause_ok(*o.1, table),
        Clause::Not(n) => clause_ok(*n.0, table),
        Clause::Taking(w) => clause_ok(*w.0, table) && bind_row(clause_slots(*w.0), w.1@) is Some,
    }
}

/// Whether no sub-query of the clause, however deeply nested, has been rendered yet.
pub open spec fn clause_fresh(c: Clause) -> bool
    decreases c,
{
    match c {
        Clause::Equality(_) => true,
        Clause::IsNull(_) => true,
        Clause::InSubQuery(s) => match s.1 {
            SubQuery::Unrendered(q) => select_fresh(*q),
            SubQuery::Bound(_) => false,
        },
        Clause::And(a) => clause_fresh(*a.0) && clause_fresh(*a.1),
        Clause::Or(o) => clause_fresh(*o.0) && clause_fresh(*o.1),
        Clause::Not(n) => clause_fresh(*n.0),
        Clause::Taking(w) => clause_fresh(*w.0),
    }
}

/// Whether every sub-query of the clause has been rendered, so that its shape may be taken.
pub open spec fn clause_rendered(c: Clause) -> bool
    decreases c,
{
    match c {
        Clause::Equality(_) => true,
        Clause::IsNull(_) => true,
        Clause::InSubQuery(s) => s.1 is Bound,
        Clause::And(a) => clause_rendered(*a.0) && clause_rendered(*a.1),
        Clause::Or(o) => clause_rendered(*o.0) && clause_rendered(*o.1),
        Clause::Not(n) => clause_rendered(*n.0),
        Clause::Taking(w) => clause_rendered(*w.0),
    }
}

/// Whether no sub-query of a `WHERE` clause has been rendered yet.
pub open spec fn where_fresh(w: WhereClause) -> bool
    decreases w,
{
    match w {
        WhereClause::Nothing => true,
        WhereClause::Where(c) => clause_fresh(c),
    }
}

/// Whether every sub-query of a `WHERE` clause has been rendered.
pub open spec fn where_rendered(w: WhereClause) -> bool {
    match w {
        WhereClause::Nothing => true,
        WhereClause::Where(c) => clause_rendered(c),
    }
}

/// The text of a `WHERE` clause rendered from `idx`.
pub open spec fn where_text(w: WhereClause, idx: nat) -> Seq<char>
    decreases w,
{
    match w {
        WhereClause::Nothing => Seq::empty(),
        WhereClause::Where(c) => " WHERE "@ + clause_text(c, idx),
    }
}

/// The parameter shape of a `WHERE` clause.
pub open spec fn where_slots(w: WhereClause) -> Seq<Slot>
    decreases w,
{
    match w {
        WhereClause::Nothing => Seq::empty(),
        WhereClause::Where(c) => clause_slots(c),
    }
}

/// The placeholders a `WHERE` clause writes when rendered from `idx`.
pub open spec fn where_marks(w: WhereClause, idx: nat) -> Seq<(nat, Slot)>
    decreases w,
{
    match w {
        WhereClause::Nothing => Seq::empty(),
        WhereClause::Where(c) => clause_marks(c, idx),
    }
}

/// Whether a `WHERE` clause is in order for the table named `table`.
pub open spec fn where_ok(w: WhereClause, table: Seq<char>) -> bool
    decreases w,
{
    match w {
        WhereClause::Nothing => true,
        WhereClause::Where(c) => clause_ok(c, table),
    }
}

/// Numbering the slots of two consecutive parts is numbering the first from `idx` and the
/// second from where the first stopped.
pub proof fn lemma_numbered_concat(a: Seq<Slot>, b: Seq<Slot>, idx: nat)
    ensures
        numbered(a + b, idx) == numbered(a, idx) + numbered(b, idx + a.len()),
{
    assert(numbered(a + b, idx) =~= numbered(a, idx) + numbered(b, idx + a.len()));
}

/// Rendering a filter from `idx` writes, in text order, exactly the placeholders of its
/// parameter shape: the `i`-th one written is numbered `idx + i` and stands for the `i`-th
/// slot, so the numbering is continuous and follows the shape.
pub proof fn lemma_clause_marks(c: Clause, idx: nat)
    ensures
        clause_marks(c, idx) == numbered(clause_slots(c), idx),
    decreases c,
{
    match c {
        Clause::Equality(e) => {
            assert(clause_marks(c, idx) =~= numbered(clause_slots(c), idx));
        },
        Clause::IsNull(_) => {
            assert(clause_marks(c, idx) =~= numbered(clause_slots(c), idx));
        },
        Clause::InSubQuery(s) => {
            if let SubQuery::Unrendered(q) = s.1 {
                lemma_select_marks(*q, idx);
            }
        },
        Clause::And(a) => {
            lemma_clause_marks(*a.0, idx);
            lemma_clause_marks(*a.1, idx + clause_slots(*a.0).len());
            lemma_numbered_concat(clause_slots(*a.0), clause_slots(*a.1), idx);
        },
        Clause::Or(o) => {
            lemma_clause_marks(*o.0, idx);
            lemma_clause_marks(*o.1, idx + clause_slots(*o.0).len());
            lemma_numbered_concat(clause_slots(*o.0), clause_slots(*o.1), idx);
        },
        Clause::Not(n) => {
            lemma_clause_marks(*n.0, idx);
        },
        Clause::Taking(w) => {
            lemma_clause_marks(*w.0, idx);
            lemma_fixed_len(clause_slots(*w.0), w.1@);
            assert(clause_marks(c, idx) =~= numbered(clause_slots(c), idx));
        },
    }
}

/// The same for a `WHERE` clause.
pub proof fn lemma_where_marks(w: WhereClause, idx: nat)
    ensures
        where_marks(w, idx) == numbered(where_slots(w), idx),
    decreases w,
{
    match w {
        WhereClause::Nothing => {
            assert(where_marks(w, idx) =~= numbered(where_slots(w), idx));
        },
        WhereClause::Where(c) => {
            lemma_clause_marks(c, idx);
        },
    }
}

/// The same for a SELECT: its filter's placeholders, then its limit's, then its offset's.
pub proof fn lemma_select_marks(q: SelectBuilder, idx: nat)
    ensures
        select_marks(q, idx) == numbered(select_slots(q), idx),
    decreases q,
{
    let w = where_slots(q.where_clause);
    let l = limit_slots(q.limit);
    let o = offset_slots(q.offset);
    lemma_where_marks(q.where_clause, idx);
    lemma_numbered_concat(w, l, idx);
    lemma_numbered_concat(w + l, o, idx);
    assert(numbered(l, idx + w.len()) =~= match q.limit {
        Limiting::Placeholder => seq![((idx + w.len()) as nat, Slot::Arg(SqlType::BigInt))],
        _ => Seq::empty(),
    });
    assert(numbered(o, idx + w.len() + l.len()) =~= match q.offset {
        Offsetting::Placeholder => seq![
            ((idx + w.len() + l.len()) as nat, Slot::Arg(SqlType::BigInt)),
        ],
        _ => Seq::empty(),
    });
}

/// `a.and(b).or(c)` renders `((a) AND (b)) OR (c)`, the placeholders of `a`, `b` and `c`
/// numbered on without a gap in that order.
pub proof fn lemma_and_or(a: Clause, b: Clause, c: Clause, idx: nat)
    ensures
        ({
            let q = Clause::Or(
                Or(Box::new(Clause::And(And(Box::new(a), Box::new(b)))), Box::new(c)),
            );
            let ib = idx + clause_slots(a).len();
            let ic = ib + clause_slots(b).len();
            &&& clause_text(q, idx) == "(("@ + clause_text(a, idx) + ") AND ("@ + clause_text(b, ib)
                + ")) OR ("@ + clause_text(c, ic) + ")"@
            &&& clause_slots(q) == clause_slots(a) + clause_slots(b) + clause_slots(c)
            &&& clause_marks(q, idx) == numbered(clause_slots(q), idx)
        }),
{
    let q = Clause::Or(Or(Box::new(Clause::And(And(Box::new(a), Box::new(b)))), Box::new(c)));
    let ib = idx + clause_slots(a).len();
    let ic = ib + clause_slots(b).len();
    reveal_strlit("((");
    reveal_strlit("(");
    reveal_strlit(") AND (");
    reveal_strlit(")) OR (");
    reveal_strlit(") OR (");
    reveal_strlit(")");
    let and = Clause::And(And(Box::new(a), Box::new(b)));
    let ta = clause_text(a, idx);
    let tb = clause_text(b, ib);
    let tc = clause_text(c, ic);
    assert(clause_slots(and) == clause_slots(a) + clause_slots(b));
    assert(clause_text(and, idx) == "("@ + ta + ") AND ("@ + tb + ")"@);
    assert(clause_text(q, idx) == "("@ + clause_text(and, idx) + ") OR ("@ + tc + ")"@);
    assert("("@ + "("@ =~= "(("@);
    assert(")"@ + ") OR ("@ =~= ")) OR ("@);
    assert(clause_text(q, idx) =~= "(("@ + ta + ") AND ("@ + tb + ")) OR ("@ + tc + ")"@);
    lemma_clause_marks(q, idx);
}

impl ColWrap {
    /// `column = $n`.
    pub fn equality(self) -> (r: Clause)
        ensures
            r == Clause::Equality(Equality(self)),
    {
        Clause::Equality(Equality(self))
    }

    /// `column IS NULL`.
    pub fn is_null(self) -> (r: Clause)
        ensures
            r == Clause::IsNull(IsNull(self)),
    {
        Clause::IsNull(IsNull(self))
    }

    /// `column IN ( <query> )`.
    pub fn in_query(self, query: SelectBuilder) -> (r: Clause)
        ensures
            r == Clause::InSubQuery(InSubQuery(self, SubQuery::Unrendered(Box::new(query)))),
    {
        Clause::InSubQuery(InSubQuery(self, SubQuery::Unrendered(Box::new(query))))
    }
}

impl Clause {
    /// `(self) AND (other)`.
    pub fn and(self, other: Clause) -> (r: Clause)
        ensures
            r == Clause::And(And(Box::new(self), Box::new(other))),
    {
        Clause::And(And(Box::new(self), Box::new(other)))
    }

    /// `(self) OR (other)`.
    pub fn or(self, other: Clause) -> (r: Clause)
        ensures
            r == Clause::Or(Or(Box::new(self), Box::new(other))),
    {
        Clause::Or(Or(Box::new(self), Box::new(other)))
    }

    /// `NOT (self)`.
    pub fn not(self) -> (r: Clause)
        ensures
            r == Clause::Not(Not(Box::new(self))),
    {
        Clause::Not(Not(Box::new(self)))
    }

    /// The clause with `values` given now for its placeholders, in order.
    pub fn taking(self, values: Vec<SqlValue>) -> (r: Clause)
        ensures
            r == Clause::Taking(WithValue(Box::new(self), values)),
    {
        Clause::Taking(WithValue(Box::new(self), values))
    }

    /// Renders the clause with its first placeholder numbered `idx`, appending its text;
    /// returns the clause with every sub-query moved to its bound state, and the next free
    /// number. A sub-query renders once: a clause holding a bound one is refused, and
    /// nothing is appended.
    pub fn push_clause(self, buf: &mut String, idx: usize) -> (r: Result<(Clause, usize), SqlError>)
        requires
            idx + clause_slots(self).len() <= usize::MAX,
        ensures
            match r {
                Ok((c, next)) => {
                    &&& clause_fresh(self)
                    &&& final(buf)@ == old(buf)@ + clause_text(self, idx as nat)
                    &&& next == idx + clause_slots(self).len()
                    &&& clause_rendered(c)
                    &&& clause_slots(c) == clause_slots(self)
                },
                Err(e) => !clause_fresh(self) && e == SqlError::RenderedSubQuery && final(buf)@
                    == old(buf)@,
            },
    {
        if !self.is_fresh() {
            return Err(SqlError::RenderedSubQuery);
        }
        Ok(self.render_clause(buf, idx))
    }

    /// Renders a clause none of whose sub-queries was rendered before (see `push_clause`).
    pub(crate) fn render_clause(self, buf: &mut String, idx: usize) -> (r: (Clause, usize))
        requires
            clause_fresh(self),
            idx + clause_slots(self).len() <= usize::MAX,
        ensures
            final(buf)@ == old(buf)@ + clause_text(self, idx as nat),
            r.1 == idx + clause_slots(self).len(),
            clause_rendered(r.0),
            clause_slots(r.0) == clause_slots(self),
        decreases self,
    {
        let ghost me = self;
        match self {
            Clause::Equality(e) => {
                e.0.0.push_name(buf);
                buf.append(" = ");
                push_placeholder(buf, idx);
                assert(buf@ =~= old(buf)@ + clause_text(me, idx as nat));
                (Clause::Equality(e), idx + 1)
            },
            Clause::IsNull(n) => {
                n.0.0.push_name(buf);
                buf.append(" IS NULL");
                assert(buf@ =~= old(buf)@ + clause_text(me, idx as nat));
                (Clause::IsNull(n), idx)
            },
            Clause::InSubQuery(InSubQuery(col, sub)) => {
                match sub {
                    SubQuery::Unrendered(q) => {
                        col.0.push_name(buf);
                        buf.append(" IN ( ");
                        let (done, next) = (*q).push_select(buf, idx);
                        buf.append(" )");
                        assert(buf@ =~= old(buf)@ + clause_text(me, idx as nat));
                        let mut slots: Vec<Slot> = Vec::new();
                        done.push_slots(&mut slots);
                        assert(slots@ =~= select_slots(done));
                        (Clause::InSubQuery(InSubQuery(col, SubQuery::Bound(slots))), next)
                    },
                    SubQuery::Bound(v) => (Clause::InSubQuery(InSubQuery(col, SubQuery::Bound(v))), idx),
                }
            },
            Clause::And(And(l, rt)) => {
                buf.append("(");
                let (l2, mid) = (*l).render_clause(buf, idx);
                buf.append(") AND (");
                let (r2, next) = (*rt).render_clause(buf, mid);
                buf.append(")");
                assert(buf@ =~= old(buf)@ + clause_text(me, idx as nat));
                (Clause::And(And(Box::new(l2), Box::new(r2))), next)
            },
            Clause::Or(Or(l, rt)) => {
                buf.append("(");
                let (l2, mid) = (*l).render_clause(buf, idx);
                buf.append(") OR (");
                let (r2, next) = (*rt).render_clause(buf, mid);
                buf.append(")");
                assert(buf@ =~= old(buf)@ + clause_text(me, idx as nat));
                (Clause::Or(Or(Box::new(l2), Box::new(r2))), next)
            },
            Clause::Not(Not(inner)) => {
                buf.append("NOT (");
                let (i2, next) = (*inner).render_clause(buf, idx);
                buf.append(")");
                assert(buf@ =~= old(buf)@ + clause_text(me, idx as nat));
                (Clause::Not(Not(Box::new(i2))), next)
            },
            Clause::Taking(WithValue(inner, vals)) => {
                proof {
                    lemma_fixed_len(clause_slots(*inner), vals@);
                }
                let (i2, next) = (*inner).render_clause(buf, idx);
                (Clause::Taking(WithValue(Box::new(i2), vals)), next)
            },
        }
    }

    /// Appends the clause's parameter shape, which may be taken only once every sub-query
    /// has been rendered; returns whether that was so.
    pub fn push_slots(&self, out: &mut Vec<Slot>) -> (r: bool)
        ensures
            r == clause_rendered(*self),
            r ==> final(out)@ == old(out)@ + clause_slots(*self),
            !r ==> final(out)@ == old(out)@,
    {
        if self.is_rendered() {
            self.shape(out);
            true
        } else {
            false
        }
    }

    /// Appends the parameter shape the clause asks for, in whichever state its sub-queries
    /// are; used to check values given at build time against it.
    pub(crate) fn shape(&self, out: &mut Vec<Slot>)
        ensures
            final(out)@ == old(out)@ + clause_slots(*self),
        decreases self,
    {
        match self {
            Clause::Equality(e) => {
                out.push(Slot::Arg(e.0.0.ty));
            },
            Clause::IsNull(_) => {},
            Clause::InSubQuery(s) => match &s.1 {
                SubQuery::Unrendered(q) => {
                    q.shape(out);
                },
                SubQuery::Bound(v) => {
                    let mut i: usize = 0;
                    while i < v.len()
                        invariant
                            i <= v@.len(),
                            out@ == old(out)@ + v@.subrange(0, i as int),
                        decreases v@.len() - i,
                    {
                        out.push(v[i].duplicate());
                        i = i + 1;
                        assert(out@ =~= old(out)@ + v@.subrange(0, i as int));
                    }
                    assert(v@.subrange(0, i as int) =~= v@);
                },
            },
            Clause::And(a) => {
                a.0.shape(out);
                a.1.shape(out);
            },
            Clause::Or(o) => {
                o.0.shape(out);
                o.1.shape(out);
            },
            Clause::Not(n) => {
                n.0.shape(out);
            },
            Clause::Taking(w) => {
                let mut inner: Vec<Slot> = Vec::new();
                w.0.shape(&mut inner);
                assert(inner@ =~= clause_slots(*w.0));
                push_fixed(&inner, &w.1, out);
            },
        }
        assert(out@ =~= old(out)@ + clause_slots(*self));
    }

    /// Whether every sub-query has been rendered.
    pub fn is_rendered(&self) -> (r: bool)
        ensures
            r == clause_rendered(*self),
        decreases self,
    {
        match self {
            Clause::Equality(_) => true,
            Clause::IsNull(_) => true,
            Clause::InSubQuery(s) => match &s.1 {
                SubQuery::Unrendered(_) => false,
                SubQuery::Bound(_) => true,
            },
            Clause::And(a) => a.0.is_rendered() && a.1.is_rendered(),
            Clause::Or(o) => o.0.is_rendered() && o.1.is_rendered(),
            Clause::Not(n) => n.0.is_rendered(),
            Clause::Taking(w) => w.0.is_rendered(),
        }
    }

    /// Whether no sub-query has been rendered yet.
    pub fn is_fresh(&self) -> (r: bool)
        ensures
            r == clause_fresh(*self),
        decreases self,
    {
        match self {
            Clause::Equality(_) => true,
            Clause::IsNull(_) => true,
            Clause::InSubQuery(s) => match &s.1 {
                SubQuery::Unrendered(q) => q.is_fresh(),
                SubQuery::Bound(_) => false,
            },
            Clause::And(a) => a.0.is_fresh() && a.1.is_fresh(),
            Clause::Or(o) => o.0.is_fresh() && o.1.is_fresh(),
            Clause::Not(n) => n.0.is_fresh(),
            Clause::Taking(w) => w.0.is_fresh(),
        }
    }

    /// The number of placeholders, when a `usize` can hold it. Counting takes no shape.
    pub fn count(&self) -> (r: Option<usize>)
        ensures
            r == (if clause_slots(*self).len() <= usize::MAX {
                Some(clause_slots(*self).len() as usize)
            } else {
                None::<usize>
            }),
        decreases self,
    {
        match self {
            Clause::Equality(_) => Some(1),
            Clause::IsNull(_) => Some(0),
            Clause::InSubQuery(s) => match &s.1 {
                SubQuery::Unrendered(q) => q.count_select(),
                SubQuery::Bound(v) => Some(v.len()),
            },
            Clause::And(a) => match (a.0.count(), a.1.count()) {
                (Some(x), Some(y)) => x.checked_add(y),
                _ => None,
            },
            Clause::Or(o) => match (o.0.count(), o.1.count()) {
                (Some(x), Some(y)) => x.checked_add(y),
                _ => None,
            },
            Clause::Not(n) => n.0.count(),
            Clause::Taking(w) => {
                proof {
                    lemma_fixed_len(clause_slots(*w.0), w.1@);
                }
                w.0.count()
            },
        }
    }

    /// Whether the clause is in order for `src` (see `clause_ok`).
    pub fn belongs_to(&self, src: &Source) -> (r: bool)
        ensures
            r == clause_ok(*self, src.name@),
        decreases self,
    {
        match self {
            Clause::Equality(e) => e.0.0.belongs_to(src),
            Clause::IsNull(n) => n.0.0.belongs_to(src),
            Clause::InSubQuery(s) => {
                let inner = match &s.1 {
                    SubQuery::Unrendered(q) => {
                        let one = match &q.selection {
                            Some(Selection::Column(c)) => c.0.ty == s.0.0.ty,
                            _ => false,
                        };
                        q.is_ok() && one
                    },
                    SubQuery::Bound(_) => true,
                };
                s.0.0.belongs_to(src) && inner
            },
            Clause::And(a) => a.0.belongs_to(src) && a.1.belongs_to(src),
            Clause::Or(o) => o.0.belongs_to(src) && o.1.belongs_to(src),
            Clause::Not(n) => n.0.belongs_to(src),
            Clause::Taking(w) => {
                let ok = w.0.belongs_to(src);
                if !ok {
                    return false;
                }
                let mut inner: Vec<Slot> = Vec::new();
                w.0.shape(&mut inner);
                assert(inner@ =~= clause_slots(*w.0));
                let mut scratch: Vec<SqlValue> = Vec::new();
                push_row(&inner, &w.1, &mut scratch)
            },
        }
    }
}

impl WhereClause {
    /// Renders the clause with its first placeholder numbered `idx`, appending its text;
    /// returns the clause with every sub-query bound, and the next free number.
    pub(crate) fn push_where_clause(self, buf: &mut String, idx: usize) -> (r: (WhereClause, usize))
        requires
            where_fresh(self),
            idx + where_slots(self).len() <= usize::MAX,
        ensures
            final(buf)@ == old(buf)@ + where_text(self, idx as nat),
            r.1 == idx + where_slots(self).len(),
            where_rendered(r.0),
            where_slots(r.0) == where_slots(self),
        decreases self,
    {
        let ghost me = self;
        match self {
            WhereClause::Nothing => {
                assert(buf@ =~= old(buf)@ + where_text(me, idx as nat));
                (WhereClause::Nothing, idx)
            },
            WhereClause::Where(c) => {
                buf.append(" WHERE ");
                let (c2, next) = c.render_clause(buf, idx);
                assert(buf@ =~= old(buf)@ + where_text(me, idx as nat));
                (WhereClause::Where(c2), next)
            },
        }
    }

    /// Appends the clause's parameter shape; returns whether every sub-query was rendered,
    /// and appends nothing when not.
    pub fn push_slots(&self, out: &mut Vec<Slot>) -> (r: bool)
        ensures
            r == where_rendered(*self),
            r ==> final(out)@ == old(out)@ + where_slots(*self),
            !r ==> final(out)@ == old(out)@,
    {
        match self {
            WhereClause::Nothing => {
                assert(out@ =~= old(out)@ + where_slots(*self));
                true
            },
            WhereClause::Where(c) => c.push_slots(out),
        }
    }

    /// Appends the parameter shape the clause asks for, in whichever state it is.
    pub(crate) fn shape(&self, out: &mut Vec<Slot>)
        ensures
            final(out)@ == old(out)@ + where_slots(*self),
        decreases self,
    {
        match self {
            WhereClause::Nothing => {
                assert(out@ =~= old(out)@ + where_slots(*self));
            },
            WhereClause::Where(c) => {
                c.shape(out);
            },
        }
    }

    /// Whether no sub-query has been rendered yet.
    pub fn is_fresh(&self) -> (r: bool)
        ensures
            r == where_fresh(*self),
        decreases self,
    {
        match self {
            WhereClause::Nothing => true,
            WhereClause::Where(c) => c.is_fresh(),
        }
    }

    /// The number of placeholders, when a `usize` can hold it.
    pub fn count(&self) -> (r: Option<usize>)
        ensures
            r == (if where_slots(*self).len() <= usize::MAX {
                Some(where_slots(*self).len() as usize)
            } else {
                None::<usize>
            }),
        decreases self,
    {
        match self {
            WhereClause::Nothing => Some(0),
            WhereClause::Where(c) => c.count(),
        }
    }

    /// Whether the clause is in order for `src`.
    pub fn belongs_to(&self, src: &Source) -> (r: bool)
        ensures
            r == where_ok(*self, src.name@),
        decreases self,
    {
        match self {
            WhereClause::Nothing => true,
            WhereClause::Where(c) => c.belongs_to(src),
        }
    }
}

} // verus!
