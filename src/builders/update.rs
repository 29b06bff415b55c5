//! UPDATE statements: `UPDATE <source> SET (<cols>) = ROW (<tuple>) [WHERE ..] [RETURNING ..]`.
use vstd::prelude::*;
use crate::filter::{
    where_fresh, where_ok, where_rendered, where_slots, where_text, Clause, WhereClause,
};
use crate::getters::{returning_fields, returning_ok, returning_text, Field, Getter, ReturningClause, Selection};
use crate::query::{repeat, IntoSql, Slot, SqlInput};
use crate::setters::{set_emits, set_names, set_ok, set_slots, set_values, ColumnsSetter};
use crate::source::Source;
use crate::types::SqlError;

verus! {

/// What an UPDATE writes: nothing yet, or a write-set.
#[derive(Debug)]
pub enum UpdValue {
    Nothing,
    Columns(ColumnsSetter),
}

/// An UPDATE under construction.
#[derive(Debug)]
pub struct UpdateBuilder {
    pub source: Source,
    pub values: UpdValue,
    pub selection: ReturningClause,
    pub where_clause: WhereClause,
}

/// The text of the `SET` part, its placeholders numbered from `idx`.
pub open spec fn upd_text(v: UpdValue, idx: nat) -> Seq<char> {
    match v {
        UpdValue::Nothing => Seq::empty(),
        UpdValue::Columns(s) => " SET ("@ + set_names(s) + ") = ROW ("@ + set_values(s, idx)
            + ")"@,
    }
}

/// The parameter shape of the `SET` part.
pub open spec fn upd_slots(v: UpdValue) -> Seq<Slot> {
    match v {
        UpdValue::Nothing => Seq::empty(),
        UpdValue::Columns(s) => set_slots(s),
    }
}

/// The text of an UPDATE, its first placeholder numbered `idx`: the `SET` part's
/// placeholders come first, then the filter's.
pub open spec fn update_text(q: UpdateBuilder, idx: nat) -> Seq<char> {
    "UPDATE "@ + q.source.name@ + upd_text(q.values, idx) + where_text(
        q.where_clause,
        idx + upd_slots(q.values).len(),
    ) + returning_text(q.selection)
}

/// Why an UPDATE may not be rendered.
pub open spec fn update_problem(q: UpdateBuilder) -> Option<SqlError> {
    match q.values {
        UpdValue::Nothing => Some(SqlError::EmptyColumns),
        UpdValue::Columns(s) => if !set_emits(s) {
            Some(SqlError::EmptyColumns)
        } else if !where_fresh(q.where_clause) {
            Some(SqlError::RenderedSubQuery)
        } else if !(set_ok(s, q.source.name@) && where_ok(q.where_clause, q.source.name@)
            && returning_ok(q.selection, q.source.name@)) {
            Some(SqlError::InvalidFragment)
        } else {
            None
        },
    }
}

impl Source {
    /// An UPDATE of this table with nothing attached.
    pub fn update(self) -> (r: UpdateBuilder)
        ensures
            r.source == self,
            r.values is Nothing,
            r.selection is Nothing,
            r.where_clause is Nothing,
    {
        UpdateBuilder {
            source: self,
            values: UpdValue::Nothing,
            selection: ReturningClause::Nothing,
            where_clause: WhereClause::Nothing,
        }
    }
}

impl UpdateBuilder {
    /// Attaches the write-set.
    pub fn setting(self, values: ColumnsSetter) -> (r: UpdateBuilder)
        ensures
            r == (UpdateBuilder { values: UpdValue::Columns(values), ..self }),
    {
        UpdateBuilder { values: UpdValue::Columns(values), ..self }
    }

    /// Attaches the `RETURNING` columns.
    pub fn returning(self, sel: Selection) -> (r: UpdateBuilder)
        ensures
            r == (UpdateBuilder { selection: ReturningClause::Returning(sel), ..self }),
    {
        UpdateBuilder { selection: ReturningClause::Returning(sel), ..self }
    }

    /// Attaches the filter.
    pub fn filter(self, cl: Clause) -> (r: UpdateBuilder)
        ensures
            r == (UpdateBuilder { where_clause: WhereClause::Where(cl), ..self }),
    {
        UpdateBuilder { where_clause: WhereClause::Where(cl), ..self }
    }
}

impl IntoSql for UpdateBuilder {
    open spec fn sql(&self, idx: nat) -> Seq<char> {
        update_text(*self, idx)
    }

    open spec fn slots(&self) -> Seq<Slot> {
        upd_slots(self.values) + where_slots(self.where_clause)
    }

    open spec fn row_slots(&self) -> Seq<Slot> {
        upd_slots(self.values)
    }

    open spec fn reps(&self) -> nat {
        match self.values {
            UpdValue::Nothing => 0,
            UpdValue::Columns(_) => 1,
        }
    }

    open spec fn filter_slots(&self) -> Seq<Slot> {
        where_slots(self.where_clause)
    }

    open spec fn limit_arg(&self) -> bool {
        false
    }

    open spec fn offset_arg(&self) -> bool {
        false
    }

    open spec fn fields(&self) -> Seq<Field> {
        returning_fields(self.selection)
    }

    open spec fn problem(&self, idx: nat) -> Option<SqlError> {
        update_problem(*self)
    }

    open spec fn rendered(&self) -> bool {
        where_rendered(self.where_clause)
    }

    fn check(&self, idx: usize) -> (r: Result<(), SqlError>) {
        match &self.values {
            UpdValue::Nothing => Err(SqlError::EmptyColumns),
            UpdValue::Columns(s) => {
                let mut scratch = String::new();
                if !s.push_selection(&mut scratch) {
                    Err(SqlError::EmptyColumns)
                } else if !self.where_clause.is_fresh() {
                    Err(SqlError::RenderedSubQuery)
                } else if !(s.belongs_to(&self.source) && self.where_clause.belongs_to(
                    &self.source,
                ) && self.selection.belongs_to(&self.source)) {
                    Err(SqlError::InvalidFragment)
                } else {
                    Ok(())
                }
            },
        }
    }

    fn count(&self) -> (r: Option<usize>) {
        let mut slots: Vec<Slot> = Vec::new();
        match &self.values {
            UpdValue::Nothing => {},
            UpdValue::Columns(s) => {
                s.push_slots(&mut slots);
            },
        }
        assert(slots@ =~= upd_slots(self.values));
        match self.where_clause.count() {
            Some(n) => slots.len().checked_add(n),
            None => None,
        }
    }

    fn push_sql(self, buf: &mut String, idx: usize) -> (r: (UpdateBuilder, usize)) {
        let ghost me = self;
        let UpdateBuilder { source, values, selection, where_clause } = self;
        buf.append("UPDATE ");
        source.push_source(buf);
        let mid = match &values {
            UpdValue::Nothing => idx,
            UpdValue::Columns(s) => {
                buf.append(" SET (");
                s.push_selection(buf);
                buf.append(") = ROW (");
                let (next, _) = s.push_values(buf, idx);
                buf.append(")");
                next
            },
        };
        let (where_clause, next) = where_clause.push_where_clause(buf, mid);
        selection.push_returning(buf);
        assert(buf@ =~= old(buf)@ + update_text(me, idx as nat));
        (UpdateBuilder { source, values, selection, where_clause }, next)
    }

    fn into_types(&self) -> (r: Result<(Getter, SqlInput), SqlError>) {
        let mut filter: Vec<Slot> = Vec::new();
        if !self.where_clause.push_slots(&mut filter) {
            return Err(SqlError::UnrenderedSubQuery);
        }
        let getter = Getter { fields: self.selection.fields() };
        let mut slots: Vec<Slot> = Vec::new();
        let reps: usize = match &self.values {
            UpdValue::Nothing => 0,
            UpdValue::Columns(s) => {
                s.push_slots(&mut slots);
                1
            },
        };
        let input = SqlInput { values: slots, reps, where_clause: filter, limit: false, offset: false };
        proof {
            let row = input.values@;
            assert(repeat(row, 0) =~= Seq::<Slot>::empty());
            assert(repeat(row, 1) == repeat(row, 0) + row);
            assert(repeat(row, 1) =~= row);
        }
        assert(input.values@ =~= self.row_slots());
        assert(input.where_clause@ =~= self.filter_slots());
        assert(input.slots() =~= self.slots());
        Ok((getter, input))
    }
}

} // verus!
