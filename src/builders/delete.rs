//! DELETE statements: `DELETE FROM <source> [WHERE ..] [RETURNING ..]`.
use vstd::prelude::*;
use crate::filter::{
    where_fresh, where_ok, where_rendered, where_slots, where_text, Clause, WhereClause,
};
use crate::getters::{returning_fields, returning_ok, returning_text, Field, Getter, ReturningClause, Selection};
use crate::query::{IntoSql, Slot, SqlInput};
use crate::source::Source;
use crate::types::SqlError;

verus! {

/// A DELETE under construction.
#[derive(Debug)]
pub struct DeleteBuilder {
    pub source: Source,
    pub selection: ReturningClause,
    pub where_clause: WhereClause,
}

/// The text of a DELETE, its first placeholder numbered `idx`.
pub open spec fn delete_text(q: DeleteBuilder, idx: nat) -> Seq<char> {
    "DELETE FROM "@ + q.source.name@ + where_text(q.where_clause, idx) + returning_text(
        q.selection,
    )
}

/// Why a DELETE may not be rendered.
pub open spec fn delete_problem(q: DeleteBuilder) -> Option<SqlError> {
    if !where_fresh(q.where_clause) {
        Some(SqlError::RenderedSubQuery)
    } else if !(where_ok(q.where_clause, q.source.name@) && returning_ok(
        q.selection,
        q.source.name@,
    )) {
        Some(SqlError::InvalidFragment)
    } else {
        None
    }
}

impl Source {
    /// A DELETE from this table with nothing attached.
    pub fn delete(self) -> (r: DeleteBuilder)
        ensures
            r.source == self,
            r.selection is Nothing,
            r.where_clause is Nothing,
    {
        DeleteBuilder {
            source: self,
            selection: ReturningClause::Nothing,
            where_clause: WhereClause::Nothing,
        }
    }
}

impl DeleteBuilder {
    /// Attaches the `RETURNING` columns.
    pub fn returning(self, sel: Selection) -> (r: DeleteBuilder)
        ensures
            r == (DeleteBuilder { selection: ReturningClause::Returning(sel), ..self }),
    {
        DeleteBuilder { selection: ReturningClause::Returning(sel), ..self }
    }

    /// Attaches the filter.
    pub fn filter(self, cl: Clause) -> (r: DeleteBuilder)
        ensures
            r == (DeleteBuilder { where_clause: WhereClause::Where(cl), ..self }),
    {
        DeleteBuilder { where_clause: WhereClause::Where(cl), ..self }
    }
}

impl IntoSql for DeleteBuilder {
    open spec fn sql(&self, idx: nat) -> Seq<char> {
        delete_text(*self, idx)
    }

    open spec fn slots(&self) -> Seq<Slot> {
        where_slots(self.where_clause)
    }

    open spec fn row_slots(&self) -> Seq<Slot> {
        Seq::empty()
    }

    open spec fn reps(&self) -> nat {
        0
    }

    open spec fn filter_slots(&self) -> Seq<Slot> {
        where_slots(self.where_clause)
    }

    open spec fn limit_arg(&self) -> bool {
        false
    }

    open spec fn offset_arg(&self) -> bool {
        false
    }

    open spec fn fields(&self) -> Seq<Field> {
        returning_fields(self.selection)
    }

    open spec fn problem(&self, idx: nat) -> Option<SqlError> {
        delete_problem(*self)
    }

    open spec fn rendered(&self) -> bool {
        where_rendered(self.where_clause)
    }

    fn check(&self, idx: usize) -> (r: Result<(), SqlError>) {
        if !self.where_clause.is_fresh() {
            Err(SqlError::RenderedSubQuery)
        } else if !(self.where_clause.belongs_to(&self.source) && self.selection.belongs_to(
            &self.source,
        )) {
            Err(SqlError::InvalidFragment)
        } else {
            Ok(())
        }
    }

    fn count(&self) -> (r: Option<usize>) {
        self.where_clause.count()
    }

    fn push_sql(self, buf: &mut String, idx: usize) -> (r: (DeleteBuilder, usize)) {
        let ghost me = self;
        let DeleteBuilder { source, selection, where_clause } = self;
        buf.append("DELETE FROM ");
        source.push_source(buf);
        let (where_clause, next) = where_clause.push_where_clause(buf, idx);
        selection.push_returning(buf);
        assert(buf@ =~= old(buf)@ + delete_text(me, idx as nat));
        (DeleteBuilder { source, selection, where_clause }, next)
    }

    fn into_types(&self) -> (r: Result<(Getter, SqlInput), SqlError>) {
        let mut filter: Vec<Slot> = Vec::new();
        if !self.where_clause.push_slots(&mut filter) {
            return Err(SqlError::UnrenderedSubQuery);
        }
        let getter = Getter { fields: self.selection.fields() };
        let input = SqlInput {
            values: Vec::new(),
            reps: 0,
            where_clause: filter,
            limit: false,
            offset: false,
        };
        assert(input.values@ =~= self.row_slots());
        assert(input.slots() =~= self.slots());
        Ok((getter, input))
    }
}

} // verus!
