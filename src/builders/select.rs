//! SELECT statements, their LIMIT/OFFSET/suffix modifiers, and named cursors over them.
use vstd::prelude::*;
use crate::filter::{
    where_fresh, where_marks, where_ok, where_rendered, where_slots, where_text, Clause,
    WhereClause,
};
use crate::getters::{sel_fields, sel_ok, sel_text, Field, Getter, Selection};
use crate::order_by::{order_by_ok, order_by_text, OrderByClause, OrderSeq};
use crate::query::{bigint_if, IntoSql, Slot, SqlInput};
use crate::source::Source;
use crate::text::{decimal, placeholder, push_decimal, push_placeholder};
use crate::types::{SqlError, SqlType};

verus! {

/// A `LIMIT`: absent, fixed when the statement is built, or a placeholder bound at execution.
#[derive(Clone, Copy, Debug, PartialEq, Eq, Structural)]
pub enum Limiting {
    Nothing,
    Fixed(u64),
    Placeholder,
}

/// An `OFFSET`: absent, fixed when the statement is built, or a placeholder bound at execution.
#[derive(Clone, Copy, Debug, PartialEq, Eq, Structural)]
pub enum Offsetting {
    Nothing,
    Fixed(u64),
    Placeholder,
}

/// Text appended verbatim after everything else, such as ` FOR UPDATE`.
#[derive(Clone, Debug)]
pub enum Suffix {
    Nothing,
    Text(String),
}

/// The text of a `LIMIT` whose placeholder, if any, is numbered `idx`.
pub open spec fn limit_text(l: Limiting, idx: nat) -> Seq<char> {
    match l {
        Limiting::Nothing => Seq::empty(),
        Limiting::Fixed(n) => " LIMIT "@ + decimal(n as nat),
        Limiting::Placeholder => " LIMIT "@ + placeholder(idx),
    }
}

/// The parameter shape of a `LIMIT`.
pub open spec fn limit_slots(l: Limiting) -> Seq<Slot> {
    match l {
        Limiting::Placeholder => seq![Slot::Arg(SqlType::BigInt)],
        _ => Seq::empty(),
    }
}

/// The text of an `OFFSET` whose placeholder, if any, is numbered `idx`.
pub open spec fn offset_text(o: Offsetting, idx: nat) -> Seq<char> {
    match o {
        Offsetting::Nothing => Seq::empty(),
        Offsetting::Fixed(n) => " OFFSET "@ + decimal(n as nat),
        Offsetting::Placeholder => " OFFSET "@ + placeholder(idx),
    }
}

/// The parameter shape of an `OFFSET`.
pub open spec fn offset_slots(o: Offsetting) -> Seq<Slot> {
    match o {
        Offsetting::Placeholder => seq![Slot::Arg(SqlType::BigInt)],
        _ => Seq::empty(),
    }
}

/// The text of a suffix.
pub open spec fn suffix_text(s: Suffix) -> Seq<char> {
    match s {
        Suffix::Nothing => Seq::empty(),
        Suffix::Text(t) => t@,
    }
}

impl Limiting {
    /// Appends the `LIMIT`, its placeholder numbered `idx`; returns the next free number.
    pub fn push_limit(&self, buf: &mut String, idx: usize) -> (r: usize)
        requires
            idx + limit_slots(*self).len() <= usize::MAX,
        ensures
            final(buf)@ == old(buf)@ + limit_text(*self, idx as nat),
            r == idx + limit_slots(*self).len(),
    {
        match self {
            Limiting::Nothing => {
                assert(buf@ =~= old(buf)@ + limit_text(*self, idx as nat));
                idx
            },
            Limiting::Fixed(n) => {
                buf.append(" LIMIT ");
                push_decimal(buf, *n);
                assert(buf@ =~= old(buf)@ + limit_text(*self, idx as nat));
                idx
            },
            Limiting::Placeholder => {
                buf.append(" LIMIT ");
                push_placeholder(buf, idx);
                assert(buf@ =~= old(buf)@ + limit_text(*self, idx as nat));
                idx + 1
            },
        }
    }
}

impl Offsetting {
    /// Appends the `OFFSET`, its placeholder numbered `idx`; returns the next free number.
    pub fn push_offset(&self, buf: &mut String, idx: usize) -> (r: usize)
        requires
            idx + offset_slots(*self).len() <= usize::MAX,
        ensures
            final(buf)@ == old(buf)@ + offset_text(*self, idx as nat),
            r == idx + offset_slots(*self).len(),
    {
        match self {
            Offsetting::Nothing => {
                assert(buf@ =~= old(buf)@ + offset_text(*self, idx as nat));
                idx
            },
            Offsetting::Fixed(n) => {
                buf.append(" OFFSET ");
                push_decimal(buf, *n);
                assert(buf@ =~= old(buf)@ + offset_text(*self, idx as nat));
                idx
            },
            Offsetting::Placeholder => {
                buf.append(" OFFSET ");
                push_placeholder(buf, idx);
                assert(buf@ =~= old(buf)@ + offset_text(*self, idx as nat));
                idx + 1
            },
        }
    }
}

impl Suffix {
    /// Appends the suffix.
    pub fn push_sql(&self, buf: &mut String)
        ensures
            final(buf)@ == old(buf)@ + suffix_text(*self),
    {
        match self {
            Suffix::Nothing => {
                assert(buf@ =~= old(buf)@ + suffix_text(*self));
            },
            Suffix::Text(t) => {
                buf.append(t.as_str());
            },
        }
    }
}

/// A SELECT under construction: each part is attached once, by its own method.
#[derive(Debug)]
pub struct SelectBuilder {
    pub source: Source,
    pub selection: Option<Selection>,
    pub where_clause: WhereClause,
    pub order: OrderByClause,
    pub limit: Limiting,
    pub offset: Offsetting,
    pub suffix: Suffix,
}

/// The selection's text, or nothing before one is attached.
pub open spec fn opt_sel_text(s: Option<Selection>) -> Seq<char> {
    match s {
        Some(s) => sel_text(s),
        None => Seq::empty(),
    }
}

/// `SELECT <cols> FROM <source> <where> <order> <limit> <offset> <suffix>`, its first
/// placeholder numbered `idx`.
pub open spec fn select_text(q: SelectBuilder, idx: nat) -> Seq<char>
    decreases q,
{
    let after_where = idx + where_slots(q.where_clause).len();
    let after_limit = after_where + limit_slots(q.limit).len();
    "SELECT "@ + opt_sel_text(q.selection) + " FROM "@ + q.source.name@ + where_text(
        q.where_clause,
        idx,
    ) + order_by_text(q.order) + limit_text(q.limit, after_where) + offset_text(
        q.offset,
        after_limit,
    ) + suffix_text(q.suffix)
}

/// The parameter shape of a SELECT: its filter's, then its limit's, then its offset's.
pub open spec fn select_slots(q: SelectBuilder) -> Seq<Slot>
    decreases q,
{
    where_slots(q.where_clause) + limit_slots(q.limit) + offset_slots(q.offset)
}

/// The placeholders a SELECT writes when rendered from `idx`, in text order.
pub open spec fn select_marks(q: SelectBuilder, idx: nat) -> Seq<(nat, Slot)>
    decreases q,
{
    let w = where_marks(q.where_clause, idx);
    let after_where = idx + w.len();
    let l = match q.limit {
        Limiting::Placeholder => seq![(after_where, Slot::Arg(SqlType::BigInt))],
        _ => Seq::empty(),
    };
    let after_limit = after_where + l.len();
    let o = match q.offset {
        Offsetting::Placeholder => seq![(after_limit, Slot::Arg(SqlType::BigInt))],
        _ => Seq::empty(),
    };
    w + l + o
}

/// The result shape of a SELECT.
pub open spec fn select_fields(q: SelectBuilder) -> Seq<Field> {
    match q.selection {
        Some(s) => sel_fields(s),
        None => Seq::empty(),
    }
}

/// Whether a SELECT may be rendered: it has a selection, and every column it reads,
/// filters on or orders by belongs to its source.
pub open spec fn select_ok(q: SelectBuilder) -> bool
    decreases q,
{
    &&& q.selection matches Some(s) && sel_ok(s, q.source.name@)
    &&& where_ok(q.where_clause, q.source.name@)
    &&& order_by_ok(q.order, q.source.name@)
}

/// Whether no sub-query of the SELECT has been rendered yet.
pub open spec fn select_fresh(q: SelectBuilder) -> bool
    decreases q,
{
    where_fresh(q.where_clause)
}

/// Whether every sub-query of the SELECT has been rendered.
pub open spec fn select_rendered(q: SelectBuilder) -> bool {
    where_rendered(q.where_clause)
}

impl Source {
    /// A SELECT over this table with nothing attached.
    pub fn select(self) -> (r: SelectBuilder)
        ensures
            r.source == self,
            r.selection is None,
            r.where_clause is Nothing,
            r.order is Nothing,
            r.limit is Nothing,
            r.offset is Nothing,
            r.suffix is Nothing,
    {
        SelectBuilder {
            source: self,
            selection: None,
            where_clause: WhereClause::Nothing,
            order: OrderByClause::Nothing,
            limit: Limiting::Nothing,
            offset: Offsetting::Nothing,
            suffix: Suffix::Nothing,
        }
    }
}

impl SelectBuilder {
    /// Attaches the columns to read.
    pub fn selecting(self, sel: Selection) -> (r: SelectBuilder)
        ensures
            r == (SelectBuilder { selection: Some(sel), ..self }),
    {
        SelectBuilder { selection: Some(sel), ..self }
    }

    /// Attaches the filter.
    pub fn filter(self, cl: Clause) -> (r: SelectBuilder)
        ensures
            r == (SelectBuilder { where_clause: WhereClause::Where(cl), ..self }),
    {
        SelectBuilder { where_clause: WhereClause::Where(cl), ..self }
    }

    /// Attaches the ordering.
    pub fn ordering(self, order: OrderSeq) -> (r: SelectBuilder)
        ensures
            r == (SelectBuilder { order: OrderByClause::OrderBy(order), ..self }),
    {
        SelectBuilder { order: OrderByClause::OrderBy(order), ..self }
    }

    /// Attaches the limit.
    pub fn limiting(self, limit: Limiting) -> (r: SelectBuilder)
        ensures
            r == (SelectBuilder { limit, ..self }),
    {
        SelectBuilder { limit, ..self }
    }

    /// Attaches the offset.
    pub fn offsetting(self, offset: Offsetting) -> (r: SelectBuilder)
        ensures
            r == (SelectBuilder { offset, ..self }),
    {
        SelectBuilder { offset, ..self }
    }

    /// Attaches text to be appended after everything else.
    pub fn suffixing(self, suffix: &str) -> (r: SelectBuilder)
        ensures
            r.suffix matches Suffix::Text(t) && t@ == suffix@,
            r.source == self.source,
            r.selection == self.selection,
            r.where_clause == self.where_clause,
            r.order == self.order,
            r.limit == self.limit,
            r.offset == self.offset,
    {
        SelectBuilder { suffix: Suffix::Text(suffix.to_owned()), ..self }
    }

    /// Renders the statement, its first placeholder numbered `idx`, appending its text;
    /// returns the statement with its sub-queries bound, and the next free number.
    pub(crate) fn push_select(self, buf: &mut String, idx: usize) -> (r: (SelectBuilder, usize))
        requires
            select_fresh(self),
            idx + select_slots(self).len() <= usize::MAX,
        ensures
            final(buf)@ == old(buf)@ + select_text(self, idx as nat),
            r.1 == idx + select_slots(self).len(),
            select_rendered(r.0),
            where_slots(r.0.where_clause) == where_slots(self.where_clause),
            select_slots(r.0) == select_slots(self),
            r.0.source == self.source,
            r.0.selection == self.selection,
            r.0.order == self.order,
            r.0.limit == self.limit,
            r.0.offset == self.offset,
            r.0.suffix == self.suffix,
        decreases self,
    {
        let ghost me = self;
        let SelectBuilder { source, selection, where_clause, order, limit, offset, suffix } = self;
        buf.append("SELECT ");
        match &selection {
            Some(s) => {
                s.push_selection(buf);
            },
            None => {},
        }
        buf.append(" FROM ");
        source.push_source(buf);
        let (where_clause, idx1) = where_clause.push_where_clause(buf, idx);
        order.push_order_by(buf);
        let idx2 = limit.push_limit(buf, idx1);
        let idx3 = offset.push_offset(buf, idx2);
        suffix.push_sql(buf);
        assert(buf@ =~= old(buf)@ + select_text(me, idx as nat));
        (SelectBuilder { source, selection, where_clause, order, limit, offset, suffix }, idx3)
    }

    /// Appends the parameter shape the statement asks for, in whichever state it is.
    pub(crate) fn shape(&self, out: &mut Vec<Slot>)
        ensures
            final(out)@ == old(out)@ + select_slots(*self),
        decreases self,
    {
        self.where_clause.shape(out);
        match self.limit {
            Limiting::Placeholder => {
                out.push(Slot::Arg(SqlType::BigInt));
            },
            _ => {},
        }
        match self.offset {
            Offsetting::Placeholder => {
                out.push(Slot::Arg(SqlType::BigInt));
            },
            _ => {},
        }
        assert(out@ =~= old(out)@ + select_slots(*self));
    }

    /// Appends the statement's parameter shape, which may be taken only once its
    /// sub-queries have been rendered; returns whether that was so.
    pub fn push_slots(&self, out: &mut Vec<Slot>) -> (r: bool)
        ensures
            r == select_rendered(*self),
            r ==> final(out)@ == old(out)@ + select_slots(*self),
            !r ==> final(out)@ == old(out)@,
    {
        let mut filter: Vec<Slot> = Vec::new();
        if !self.where_clause.push_slots(&mut filter) {
            return false;
        }
        self.shape(out);
        true
    }

    /// Whether no sub-query has been rendered yet.
    pub fn is_fresh(&self) -> (r: bool)
        ensures
            r == select_fresh(*self),
        decreases self,
    {
        self.where_clause.is_fresh()
    }

    /// The number of placeholders, when a `usize` can hold it.
    pub fn count_select(&self) -> (r: Option<usize>)
        ensures
            r == (if select_slots(*self).len() <= usize::MAX {
                Some(select_slots(*self).len() as usize)
            } else {
                None::<usize>
            }),
        decreases self,
    {
        let extra: usize = (if self.limit == Limiting::Placeholder { 1usize } else { 0usize }) + (
        if self.offset == Offsetting::Placeholder {
            1usize
        } else {
            0usize
        });
        match self.where_clause.count() {
            Some(n) => n.checked_add(extra),
            None => None,
        }
    }

    /// Whether the statement may be rendered (see `select_ok`).
    pub fn is_ok(&self) -> (r: bool)
        ensures
            r == select_ok(*self),
        decreases self,
    {
        let sel = match &self.selection {
            Some(s) => s.belongs_to(&self.source),
            None => false,
        };
        sel && self.where_clause.belongs_to(&self.source) && self.order.belongs_to(&self.source)
    }
}

/// A SELECT with no filter, ordering, limit, offset or suffix renders exactly
/// `SELECT <cols> FROM <source>`, with nothing after it.
pub proof fn lemma_plain_select(q: SelectBuilder, idx: nat)
    requires
        q.where_clause is Nothing,
        q.order is Nothing,
        q.limit is Nothing,
        q.offset is Nothing,
        q.suffix is Nothing,
    ensures
        select_text(q, idx) == "SELECT "@ + opt_sel_text(q.selection) + " FROM "@ + q.source.name@,
        select_slots(q).len() == 0,
{
    assert(select_text(q, idx) =~= "SELECT "@ + opt_sel_text(q.selection) + " FROM "@
        + q.source.name@);
    assert(select_slots(q) =~= Seq::<Slot>::empty());
}

/// Why a SELECT may not be rendered: no selection, a sub-query rendered before, or a
/// fragment that does not fit.
pub open spec fn select_problem(q: SelectBuilder) -> Option<SqlError> {
    if q.selection is None {
        Some(SqlError::MissingSelection)
    } else if !select_fresh(q) {
        Some(SqlError::RenderedSubQuery)
    } else if !select_ok(q) {
        Some(SqlError::InvalidFragment)
    } else {
        None
    }
}

impl SelectBuilder {
    /// Tells whether the statement may be rendered, and if not, why.
    pub fn check_select(&self) -> (r: Result<(), SqlError>)
        ensures
            r == match select_problem(*self) {
                None => Ok(()),
                Some(e) => Err::<(), SqlError>(e),
            },
    {
        if self.selection.is_none() {
            Err(SqlError::MissingSelection)
        } else if !self.is_fresh() {
            Err(SqlError::RenderedSubQuery)
        } else if !self.is_ok() {
            Err(SqlError::InvalidFragment)
        } else {
            Ok(())
        }
    }

    /// The result shape and the parameter shape, part by part; an error while a sub-query
    /// is still unrendered.
    pub fn select_types(&self) -> (r: Result<(Getter, SqlInput), SqlError>)
        ensures
            match r {
                Ok((g, i)) => {
                    &&& select_rendered(*self)
                    &&& g.fields@ == select_fields(*self)
                    &&& i.slots() == select_slots(*self)
                    &&& i.values@.len() == 0
                    &&& i.reps == 0
                    &&& i.where_clause@ == where_slots(self.where_clause)
                    &&& i.limit == (self.limit == Limiting::Placeholder)
                    &&& i.offset == (self.offset == Offsetting::Placeholder)
                },
                Err(e) => !select_rendered(*self) && e == SqlError::UnrenderedSubQuery,
            },
    {
        let mut slots: Vec<Slot> = Vec::new();
        if !self.where_clause.push_slots(&mut slots) {
            return Err(SqlError::UnrenderedSubQuery);
        }
        assert(slots@ =~= where_slots(self.where_clause));
        let mut fields: Vec<Field> = Vec::new();
        match &self.selection {
            Some(s) => {
                s.push_fields(&mut fields);
            },
            None => {},
        }
        assert(fields@ =~= select_fields(*self));
        let input = SqlInput {
            values: Vec::new(),
            reps: 0,
            where_clause: slots,
            limit: self.limit == Limiting::Placeholder,
            offset: self.offset == Offsetting::Placeholder,
        };
        assert(input.slots() =~= select_slots(*self));
        Ok((Getter { fields }, input))
    }

    /// Declares a cursor named `name` over this SELECT, rendered from `$1`, and the fetcher
    /// that reads its rows in batches with the same result shape.
    pub fn into_cursor(self, name: &str) -> (r: Result<(CursorQuery, Fetcher), SqlError>)
        ensures
            match select_problem(self) {
                Some(e) => r == Err::<(CursorQuery, Fetcher), SqlError>(e),
                None => if select_slots(self).len() < usize::MAX {
                    r matches Ok((c, f)) && {
                        &&& c.prepared@ == "DECLARE "@ + name@ + " CURSOR FOR "@ + select_text(
                            self,
                            1,
                        )
                        &&& c.setter.slots() == select_slots(self)
                        &&& c.setter.values@.len() == 0
                        &&& c.setter.reps == 0
                        &&& c.setter.where_clause@ == where_slots(self.where_clause)
                        &&& c.setter.limit == (self.limit == Limiting::Placeholder)
                        &&& c.setter.offset == (self.offset == Offsetting::Placeholder)
                        &&& f.name@ == name@
                        &&& f.getter.fields@ == select_fields(self)
                    }
                } else {
                    r == Err::<(CursorQuery, Fetcher), SqlError>(SqlError::TooManyPlaceholders)
                },
            },
    {
        match self.check_select() {
            Ok(()) => {},
            Err(e) => {
                return Err(e);
            },
        }
        match self.count_select() {
            Some(n) => {
                if n == usize::MAX {
                    return Err(SqlError::TooManyPlaceholders);
                }
            },
            None => {
                return Err(SqlError::TooManyPlaceholders);
            },
        }
        let mut sql = String::new();
        sql.append("DECLARE ");
        sql.append(name);
        sql.append(" CURSOR FOR ");
        let (done, _) = self.push_select(&mut sql, 1);
        match done.select_types() {
            Ok((getter, setter)) => Ok(
                (CursorQuery { prepared: sql, setter }, Fetcher { name: name.to_owned(), getter }),
            ),
            Err(e) => Err(e),
        }
    }
}

impl IntoSql for SelectBuilder {
    open spec fn sql(&self, idx: nat) -> Seq<char> {
        select_text(*self, idx)
    }

    open spec fn slots(&self) -> Seq<Slot> {
        select_slots(*self)
    }

    open spec fn row_slots(&self) -> Seq<Slot> {
        Seq::empty()
    }

    open spec fn reps(&self) -> nat {
        0
    }

    open spec fn filter_slots(&self) -> Seq<Slot> {
        where_slots(self.where_clause)
    }

    open spec fn limit_arg(&self) -> bool {
        self.limit == Limiting::Placeholder
    }

    open spec fn offset_arg(&self) -> bool {
        self.offset == Offsetting::Placeholder
    }

    open spec fn fields(&self) -> Seq<Field> {
        select_fields(*self)
    }

    open spec fn problem(&self, idx: nat) -> Option<SqlError> {
        select_problem(*self)
    }

    open spec fn rendered(&self) -> bool {
        select_rendered(*self)
    }

    fn check(&self, idx: usize) -> (r: Result<(), SqlError>) {
        self.check_select()
    }

    fn count(&self) -> (r: Option<usize>) {
        self.count_select()
    }

    fn push_sql(self, buf: &mut String, idx: usize) -> (r: (SelectBuilder, usize)) {
        self.push_select(buf, idx)
    }

    fn into_types(&self) -> (r: Result<(Getter, SqlInput), SqlError>) {
        let r = self.select_types();
        assert(r matches Ok((_, i)) ==> i.values@ =~= Seq::<Slot>::empty());
        r
    }
}

/// A cursor declaration: `DECLARE <name> CURSOR FOR <select>`, already rendered from `$1`,
/// with the SELECT's parameter shape. It renders only as a whole statement.
#[derive(Debug)]
pub struct CursorQuery {
    pub prepared: String,
    pub setter: SqlInput,
}

/// Reads the rows of a declared cursor in batches.
#[derive(Debug)]
pub struct Fetcher {
    pub name: String,
    pub getter: Getter,
}

/// `FETCH <count> FROM <name>`: one batch of a cursor's rows.
#[derive(Debug)]
pub struct Batch {
    pub name: String,
    pub getter: Getter,
    pub count: usize,
}

impl IntoSql for CursorQuery {
    open spec fn sql(&self, idx: nat) -> Seq<char> {
        self.prepared@
    }

    open spec fn slots(&self) -> Seq<Slot> {
        self.setter.slots()
    }

    open spec fn row_slots(&self) -> Seq<Slot> {
        self.setter.values@
    }

    open spec fn reps(&self) -> nat {
        self.setter.reps as nat
    }

    open spec fn filter_slots(&self) -> Seq<Slot> {
        self.setter.where_clause@
    }

    open spec fn limit_arg(&self) -> bool {
        self.setter.limit
    }

    open spec fn offset_arg(&self) -> bool {
        self.setter.offset
    }

    open spec fn fields(&self) -> Seq<Field> {
        Seq::empty()
    }

    open spec fn problem(&self, idx: nat) -> Option<SqlError> {
        if idx != 1 {
            Some(SqlError::NestedCursor)
        } else {
            None
        }
    }

    open spec fn rendered(&self) -> bool {
        true
    }

    fn check(&self, idx: usize) -> (r: Result<(), SqlError>) {
        if idx != 1 {
            Err(SqlError::NestedCursor)
        } else {
            Ok(())
        }
    }

    fn count(&self) -> (r: Option<usize>) {
        self.setter.count()
    }

    fn push_sql(self, buf: &mut String, idx: usize) -> (r: (CursorQuery, usize)) {
        buf.append(self.prepared.as_str());
        let next = match self.setter.count() {
            Some(n) => idx + n,
            None => idx,
        };
        (self, next)
    }

    fn into_types(&self) -> (r: Result<(Getter, SqlInput), SqlError>) {
        Ok((Getter { fields: Vec::new() }, self.setter.duplicate()))
    }
}

impl Fetcher {
    /// The statement that fetches the next `count` rows.
    pub fn fetch(&self, count: usize) -> (r: Batch)
        ensures
            r.name@ == self.name@,
            r.getter.fields@ == self.getter.fields@,
            r.count == count,
    {
        Batch { name: self.name.clone(), getter: self.getter.duplicate(), count }
    }
}

impl IntoSql for Batch {
    open spec fn sql(&self, idx: nat) -> Seq<char> {
        "FETCH "@ + decimal(self.count as nat) + " FROM "@ + self.name@
    }

    open spec fn slots(&self) -> Seq<Slot> {
        Seq::empty()
    }

    open spec fn row_slots(&self) -> Seq<Slot> {
        Seq::empty()
    }

    open spec fn reps(&self) -> nat {
        0
    }

    open spec fn filter_slots(&self) -> Seq<Slot> {
        Seq::empty()
    }

    open spec fn limit_arg(&self) -> bool {
        false
    }

    open spec fn offset_arg(&self) -> bool {
        false
    }

    open spec fn fields(&self) -> Seq<Field> {
        self.getter.fields@
    }

    open spec fn problem(&self, idx: nat) -> Option<SqlError> {
        None
    }

    open spec fn rendered(&self) -> bool {
        true
    }

    fn check(&self, idx: usize) -> (r: Result<(), SqlError>) {
        Ok(())
    }

    fn count(&self) -> (r: Option<usize>) {
        Some(0)
    }

    fn push_sql(self, buf: &mut String, idx: usize) -> (r: (Batch, usize)) {
        buf.append("FETCH ");
        push_decimal(buf, self.count as u64);
        buf.append(" FROM ");
        buf.append(self.name.as_str());
        assert(buf@ =~= old(buf)@ + self.sql(idx as nat));
        (self, idx)
    }

    fn into_types(&self) -> (r: Result<(Getter, SqlInput), SqlError>) {
        let input = SqlInput {
            values: Vec::new(),
            reps: 0,
            where_clause: Vec::new(),
            limit: false,
            offset: false,
        };
        assert(input.slots() =~= Seq::<Slot>::empty());
        Ok((self.getter.duplicate(), input))
    }
}

} // verus!
