//! INSERT statements: one or several rows of a write-set, or `DEFAULT VALUES`, with an
//! optional `ON CONFLICT` action and `RETURNING` suffix.
use vstd::prelude::*;
use crate::getters::{returning_fields, returning_ok, returning_text, Field, Getter, ReturningClause, Selection};
use crate::query::{lemma_repeat_len, repeat, IntoSql, Slot, SqlInput};
use crate::setters::{
    lemma_set_values_list, placeholder_list, set_emits, set_names, set_ok, set_slots, set_values,
    ColumnsSetter,
};
use crate::source::Source;
use crate::types::SqlError;

verus! {

/// An optional `ON CONFLICT <action>` clause.
#[derive(Clone, Debug)]
pub enum Conflict {
    Nothing,
    Action(String),
}

/// What an INSERT writes: `DEFAULT VALUES`, or a write-set.
#[derive(Debug)]
pub enum InsValue {
    DefaultValues,
    Columns(ColumnsSetter),
}

/// An INSERT under construction. Without a repeat count it writes one row.
#[derive(Debug)]
pub struct InsertBuilder {
    pub source: Source,
    pub values: InsValue,
    pub selection: ReturningClause,
    pub reps: Option<usize>,
    pub conflict: Conflict,
}

/// The text of an `ON CONFLICT` clause.
pub open spec fn conflict_text(c: Conflict) -> Seq<char> {
    match c {
        Conflict::Nothing => Seq::empty(),
        Conflict::Action(a) => " ON CONFLICT "@ + a@,
    }
}

/// The number of rows an INSERT writes.
pub open spec fn insert_reps(q: InsertBuilder) -> nat {
    match q.reps {
        Some(n) => n as nat,
        None => 1,
    }
}

/// The `i`-th value tuple of a multi-row write, its placeholders numbered on from `idx`.
pub open spec fn tuple_text(s: ColumnsSetter, idx: nat, i: nat) -> Seq<char> {
    "("@ + set_values(s, idx + i * set_slots(s).len()) + ")"@
}

/// The first `n` value tuples, comma-joined.
pub open spec fn tuples_text(s: ColumnsSetter, idx: nat, n: nat) -> Seq<char>
    decreases n,
{
    if n == 0 {
        Seq::empty()
    } else if n == 1 {
        tuple_text(s, idx, 0)
    } else {
        tuples_text(s, idx, (n - 1) as nat) + ", "@ + tuple_text(s, idx, (n - 1) as nat)
    }
}

/// The text of what an INSERT writes, with `n` rows.
pub open spec fn ins_text(v: InsValue, idx: nat, n: nat) -> Seq<char> {
    match v {
        InsValue::DefaultValues => " DEFAULT VALUES"@,
        InsValue::Columns(s) => " ("@ + set_names(s) + ") VALUES "@ + tuples_text(s, idx, n),
    }
}

/// The parameter shape of what an INSERT writes, with `n` rows.
pub open spec fn ins_slots(v: InsValue, n: nat) -> Seq<Slot> {
    match v {
        InsValue::DefaultValues => Seq::empty(),
        InsValue::Columns(s) => repeat(set_slots(s), n),
    }
}

/// `INSERT INTO <source> (<cols>) VALUES (<tuple>), ... | DEFAULT VALUES [ON CONFLICT ..]
/// [RETURNING ..]`, its first placeholder numbered `idx`.
pub open spec fn insert_text(q: InsertBuilder, idx: nat) -> Seq<char> {
    "INSERT INTO "@ + q.source.name@ + ins_text(q.values, idx, insert_reps(q)) + conflict_text(
        q.conflict,
    ) + returning_text(q.selection)
}

/// Why an INSERT may not be rendered.
pub open spec fn insert_problem(q: InsertBuilder) -> Option<SqlError> {
    match q.values {
        InsValue::DefaultValues => if insert_reps(q) != 1 {
            Some(SqlError::DefaultValuesRepeat)
        } else if !returning_ok(q.selection, q.source.name@) {
            Some(SqlError::InvalidFragment)
        } else {
            None
        },
        InsValue::Columns(s) => if insert_reps(q) == 0 {
            Some(SqlError::ZeroRepeat)
        } else if !set_emits(s) {
            Some(SqlError::EmptyColumns)
        } else if !(set_ok(s, q.source.name@) && returning_ok(q.selection, q.source.name@)) {
            Some(SqlError::InvalidFragment)
        } else {
            None
        },
    }
}

/// An INSERT of default values, with no conflict action and no `RETURNING`, renders
/// exactly `INSERT INTO <source> DEFAULT VALUES` with no placeholder when it writes one
/// row, and is refused for any other repeat count.
pub proof fn lemma_default_values(q: InsertBuilder, idx: nat)
    requires
        q.values is DefaultValues,
        q.conflict is Nothing,
        q.selection is Nothing,
    ensures
        insert_reps(q) == 1 ==> insert_problem(q) is None && insert_text(q, idx) == "INSERT INTO "@
            + q.source.name@ + " DEFAULT VALUES"@ && q.slots().len() == 0,
        insert_reps(q) != 1 ==> insert_problem(q) == Some(SqlError::DefaultValuesRepeat),
{
    assert(insert_text(q, idx) =~= "INSERT INTO "@ + q.source.name@ + " DEFAULT VALUES"@);
}

/// In a multi-row INSERT of a write-set asking for `k` slots, tuple `i` holds exactly the
/// placeholders `$idx+i*k, ..., $idx+(i+1)*k-1`; the rows bound at execution are exactly as
/// many as the repeat count.
pub proof fn lemma_insert_tuples(q: InsertBuilder, idx: nat, i: nat)
    requires
        q.values is Columns,
    ensures
        ({
            let s = q.values->Columns_0;
            let k = set_slots(s).len();
            &&& tuple_text(s, idx, i) == "("@ + placeholder_list(idx + i * k, k) + ")"@
            &&& q.slots() == repeat(set_slots(s), insert_reps(q))
            &&& q.slots().len() == insert_reps(q) * k
            &&& q.reps() == insert_reps(q)
        }),
{
    let s = q.values->Columns_0;
    let k = set_slots(s).len();
    lemma_set_values_list(s, idx + i * k);
    lemma_repeat_len(set_slots(s), insert_reps(q));
}

impl Source {
    /// An INSERT of one row of default values into this table, with nothing attached.
    pub fn insert(self) -> (r: InsertBuilder)
        ensures
            r.source == self,
            r.values is DefaultValues,
            r.selection is Nothing,
            r.reps is None,
            r.conflict is Nothing,
    {
        InsertBuilder {
            source: self,
            values: InsValue::DefaultValues,
            selection: ReturningClause::Nothing,
            reps: None,
            conflict: Conflict::Nothing,
        }
    }
}

/// Appends `n` value tuples, their placeholders numbered from `idx`; returns the next free
/// number.
fn push_tuples(s: &ColumnsSetter, buf: &mut String, idx: usize, n: usize) -> (r: usize)
    requires
        idx + n * set_slots(*s).len() <= usize::MAX,
    ensures
        final(buf)@ == old(buf)@ + tuples_text(*s, idx as nat, n as nat),
        r == idx + n * set_slots(*s).len(),
{
    let ghost k = set_slots(*s).len();
    let mut cur = idx;
    let mut i: usize = 0;
    assert(buf@ =~= old(buf)@ + tuples_text(*s, idx as nat, 0));
    while i < n
        invariant
            i <= n,
            idx + n * k <= usize::MAX,
            k == set_slots(*s).len(),
            buf@ == old(buf)@ + tuples_text(*s, idx as nat, i as nat),
            cur == idx + i * k,
        decreases n - i,
    {
        assert(i * k + k == (i + 1) * k && (i + 1) * k <= n * k) by (nonlinear_arith)
            requires
                i < n,
        ;
        if i != 0 {
            buf.append(", ");
        }
        buf.append("(");
        let (next, _) = s.push_values(buf, cur);
        buf.append(")");
        assert(buf@ =~= old(buf)@ + tuples_text(*s, idx as nat, (i + 1) as nat));
        cur = next;
        i = i + 1;
    }
    cur
}

impl InsertBuilder {
    /// Attaches the write-set.
    pub fn setting(self, values: ColumnsSetter) -> (r: InsertBuilder)
        ensures
            r == (InsertBuilder { values: InsValue::Columns(values), ..self }),
    {
        InsertBuilder { values: InsValue::Columns(values), ..self }
    }

    /// Attaches the `RETURNING` columns.
    pub fn returning(self, sel: Selection) -> (r: InsertBuilder)
        ensures
            r == (InsertBuilder { selection: ReturningClause::Returning(sel), ..self }),
    {
        InsertBuilder { selection: ReturningClause::Returning(sel), ..self }
    }

    /// Makes the statement write `reps` rows.
    pub fn repeating(self, reps: usize) -> (r: InsertBuilder)
        ensures
            r == (InsertBuilder { reps: Some(reps), ..self }),
    {
        InsertBuilder { reps: Some(reps), ..self }
    }

    /// Attaches an `ON CONFLICT` action.
    pub fn conflicting(self, action: &str) -> (r: InsertBuilder)
        ensures
            r.conflict matches Conflict::Action(a) && a@ == action@,
            r.source == self.source,
            r.values == self.values,
            r.selection == self.selection,
            r.reps == self.reps,
    {
        InsertBuilder { conflict: Conflict::Action(action.to_owned()), ..self }
    }
}

impl IntoSql for InsertBuilder {
    open spec fn sql(&self, idx: nat) -> Seq<char> {
        insert_text(*self, idx)
    }

    open spec fn slots(&self) -> Seq<Slot> {
        ins_slots(self.values, insert_reps(*self))
    }

    open spec fn row_slots(&self) -> Seq<Slot> {
        match self.values {
            InsValue::DefaultValues => Seq::empty(),
            InsValue::Columns(s) => set_slots(s),
        }
    }

    open spec fn reps(&self) -> nat {
        match self.values {
            InsValue::DefaultValues => 0,
            InsValue::Columns(_) => insert_reps(*self),
        }
    }

    open spec fn filter_slots(&self) -> Seq<Slot> {
        Seq::empty()
    }

    open spec fn limit_arg(&self) -> bool {
        false
    }

    open spec fn offset_arg(&self) -> bool {
        false
    }

    open spec fn fields(&self) -> Seq<Field> {
        returning_fields(self.selection)
    }

    open spec fn rendered(&self) -> bool {
        true
    }

    open spec fn problem(&self, idx: nat) -> Option<SqlError> {
        insert_problem(*self)
    }

    fn check(&self, idx: usize) -> (r: Result<(), SqlError>) {
        let reps = match self.reps {
            Some(n) => n,
            None => 1,
        };
        match &self.values {
            InsValue::DefaultValues => {
                if reps != 1 {
                    Err(SqlError::DefaultValuesRepeat)
                } else if !self.selection.belongs_to(&self.source) {
                    Err(SqlError::InvalidFragment)
                } else {
                    Ok(())
                }
            },
            InsValue::Columns(s) => {
                if reps == 0 {
                    return Err(SqlError::ZeroRepeat);
                }
                let mut scratch = String::new();
                if !s.push_selection(&mut scratch) {
                    Err(SqlError::EmptyColumns)
                } else if !(s.belongs_to(&self.source) && self.selection.belongs_to(&self.source)) {
                    Err(SqlError::InvalidFragment)
                } else {
                    Ok(())
                }
            },
        }
    }

    fn count(&self) -> (r: Option<usize>) {
        match &self.values {
            InsValue::DefaultValues => Some(0),
            InsValue::Columns(s) => {
                let reps = match self.reps {
                    Some(n) => n,
                    None => 1,
                };
                let mut slots: Vec<Slot> = Vec::new();
                s.push_slots(&mut slots);
                assert(slots@ =~= set_slots(*s));
                proof {
                    lemma_repeat_len(set_slots(*s), reps as nat);
                }
                let k = slots.len();
                let n = k.checked_mul(reps);
                proof {
                    if let Some(m) = n {
                        assert(m == reps * k) by (nonlinear_arith)
                            requires
                                m == k * reps,
                        ;
                    } else {
                        assert(k * reps == reps * k) by (nonlinear_arith);
                    }
                }
                n
            },
        }
    }

    fn push_sql(self, buf: &mut String, idx: usize) -> (r: (InsertBuilder, usize)) {
        let reps = match self.reps {
            Some(n) => n,
            None => 1,
        };
        buf.append("INSERT INTO ");
        self.source.push_source(buf);
        let next = match &self.values {
            InsValue::DefaultValues => {
                buf.append(" DEFAULT VALUES");
                idx
            },
            InsValue::Columns(s) => {
                proof {
                    lemma_repeat_len(set_slots(*s), reps as nat);
                }
                buf.append(" (");
                s.push_selection(buf);
                buf.append(") VALUES ");
                push_tuples(s, buf, idx, reps)
            },
        };
        match &self.conflict {
            Conflict::Nothing => {},
            Conflict::Action(a) => {
                buf.append(" ON CONFLICT ");
                buf.append(a.as_str());
            },
        }
        self.selection.push_returning(buf);
        assert(buf@ =~= old(buf)@ + insert_text(self, idx as nat));
        (self, next)
    }

    fn into_types(&self) -> (r: Result<(Getter, SqlInput), SqlError>) {
        let getter = Getter { fields: self.selection.fields() };
        let input = match &self.values {
            InsValue::DefaultValues => SqlInput {
                values: Vec::new(),
                reps: 0,
                where_clause: Vec::new(),
                limit: false,
                offset: false,
            },
            InsValue::Columns(s) => {
                let mut slots: Vec<Slot> = Vec::new();
                s.push_slots(&mut slots);
                assert(slots@ =~= set_slots(*s));
                SqlInput {
                    values: slots,
                    reps: match self.reps {
                        Some(n) => n,
                        None => 1,
                    },
                    where_clause: Vec::new(),
                    limit: false,
                    offset: false,
                }
            },
        };
        assert(input.slots() =~= self.slots());
        assert(input.values@ =~= self.row_slots());
        assert(input.where_clause@ =~= self.filter_slots());
        Ok((getter, input))
    }
}

} // verus!
