//! What a statement reads: column lists, `RETURNING` suffixes, and decoding of result rows.
use vstd::prelude::*;
use crate::source::{ColWrap, Source};
use crate::types::{has_type, SqlError, SqlType, SqlValue};

verus! {

/// A list of columns to read. Each leaf renders as `table.column`.
#[derive(Debug)]
pub enum Selection {
    Column(ColWrap),
    Optional(OptionalSelection),
    Pair(Box<Selection>, Box<Selection>),
}

/// A column that is read only when its flag is set.
#[derive(Clone, Debug)]
pub struct OptionalSelection(pub ColWrap, pub bool);

/// One position of a result shape: the type decoded there, and whether a row column backs it.
#[derive(Clone, Copy, Debug, PartialEq, Eq, Structural)]
pub struct Field {
    pub ty: SqlType,
    pub present: bool,
}

/// The text a selection renders.
pub open spec fn sel_text(s: Selection) -> Seq<char>
    decreases s,
{
    match s {
        Selection::Column(c) => c.0.qualified(),
        Selection::Optional(o) => if o.1 { o.0.0.qualified() } else { Seq::empty() },
        Selection::Pair(a, b) => sel_text(*a) + (if sel_emits(*a) && sel_emits(*b) {
            seq![',', ' ']
        } else {
            Seq::empty()
        }) + sel_text(*b),
    }
}

/// Whether a selection renders at least one column.
pub open spec fn sel_emits(s: Selection) -> bool
    decreases s,
{
    match s {
        Selection::Column(_) => true,
        Selection::Optional(o) => o.1,
        Selection::Pair(a, b) => sel_emits(*a) || sel_emits(*b),
    }
}

/// The result shape of a selection, one field per leaf in order.
pub open spec fn sel_fields(s: Selection) -> Seq<Field>
    decreases s,
{
    match s {
        Selection::Column(c) => seq![Field { ty: c.0.ty, present: true }],
        Selection::Optional(o) => seq![Field { ty: o.0.0.ty, present: o.1 }],
        Selection::Pair(a, b) => sel_fields(*a) + sel_fields(*b),
    }
}

/// Whether every column of the selection belongs to the table named `table`.
pub open spec fn sel_ok(s: Selection, table: Seq<char>) -> bool
    decreases s,
{
    match s {
        Selection::Column(c) => c.0.belongs(table),
        Selection::Optional(o) => o.0.0.belongs(table),
        Selection::Pair(a, b) => sel_ok(*a, table) && sel_ok(*b, table),
    }
}

impl ColWrap {
    /// The column as a selection leaf.
    pub fn select(self) -> (r: Selection)
        ensures
            r == Selection::Column(self),
    {
        Selection::Column(self)
    }

    /// The column as a selection leaf that is read only when `assignment` holds.
    pub fn select_if(self, assignment: bool) -> (r: Selection)
        ensures
            r == Selection::Optional(OptionalSelection(self, assignment)),
    {
        Selection::Optional(OptionalSelection(self, assignment))
    }
}

impl Selection {
    /// This selection followed by `other`.
    pub fn and(self, other: Selection) -> (r: Selection)
        ensures
            r == Selection::Pair(Box::new(self), Box::new(other)),
    {
        Selection::Pair(Box::new(self), Box::new(other))
    }

    /// Appends the comma-joined column list; returns whether any column was written.
    pub fn push_selection(&self, buf: &mut String) -> (r: bool)
        ensures
            final(buf)@ == old(buf)@ + sel_text(*self),
            r == sel_emits(*self),
        decreases self,
    {
        match self {
            Selection::Column(c) => {
                c.0.push_qualified(buf);
                true
            },
            Selection::Optional(o) => {
                if o.1 {
                    o.0.0.push_qualified(buf);
                }
                assert(buf@ =~= old(buf)@ + sel_text(*self));
                o.1
            },
            Selection::Pair(a, b) => {
                let did_a = a.push_selection(buf);
                let mut rest = String::new();
                let did_b = b.push_selection(&mut rest);
                if did_a && did_b {
                    proof {
                        reveal_strlit(", ");
                    }
                    buf.append(", ");
                }
                buf.append(rest.as_str());
                assert(buf@ =~= old(buf)@ + sel_text(*self));
                did_a || did_b
            },
        }
    }

    /// Appends the selection's result shape.
    pub fn push_fields(&self, out: &mut Vec<Field>)
        ensures
            final(out)@ == old(out)@ + sel_fields(*self),
        decreases self,
    {
        match self {
            Selection::Column(c) => {
                out.push(Field { ty: c.0.ty, present: true });
                assert(out@ =~= old(out)@ + sel_fields(*self));
            },
            Selection::Optional(o) => {
                out.push(Field { ty: o.0.0.ty, present: o.1 });
                assert(out@ =~= old(out)@ + sel_fields(*self));
            },
            Selection::Pair(a, b) => {
                a.push_fields(out);
                b.push_fields(out);
                assert(out@ =~= old(out)@ + sel_fields(*self));
            },
        }
    }

    /// Whether every column belongs to `src`.
    pub fn belongs_to(&self, src: &Source) -> (r: bool)
        ensures
            r == sel_ok(*self, src.name@),
        decreases self,
    {
        match self {
            Selection::Column(c) => c.0.belongs_to(src),
            Selection::Optional(o) => o.0.0.belongs_to(src),
            Selection::Pair(a, b) => a.belongs_to(src) && b.belongs_to(src),
        }
    }
}

/// An optional `RETURNING` suffix of a write statement.
#[derive(Debug)]
pub enum ReturningClause {
    Nothing,
    Returning(Selection),
}

/// The text a `RETURNING` suffix renders.
pub open spec fn returning_text(r: ReturningClause) -> Seq<char> {
    match r {
        ReturningClause::Nothing => Seq::empty(),
        ReturningClause::Returning(s) => " RETURNING "@ + sel_text(s),
    }
}

/// The result shape of a `RETURNING` suffix.
pub open spec fn returning_fields(r: ReturningClause) -> Seq<Field> {
    match r {
        ReturningClause::Nothing => Seq::empty(),
        ReturningClause::Returning(s) => sel_fields(s),
    }
}

/// Whether the suffix reads only columns of the table named `table`.
pub open spec fn returning_ok(r: ReturningClause, table: Seq<char>) -> bool {
    match r {
        ReturningClause::Nothing => true,
        ReturningClause::Returning(s) => sel_ok(s, table),
    }
}

impl ReturningClause {
    /// Appends the suffix.
    pub fn push_returning(&self, buf: &mut String)
        ensures
            final(buf)@ == old(buf)@ + returning_text(*self),
    {
        match self {
            ReturningClause::Nothing => {
                assert(buf@ =~= old(buf)@ + returning_text(*self));
            },
            ReturningClause::Returning(s) => {
                buf.append(" RETURNING ");
                s.push_selection(buf);
                assert(buf@ =~= old(buf)@ + returning_text(*self));
            },
        }
    }

    /// The suffix's result shape.
    pub fn fields(&self) -> (r: Vec<Field>)
        ensures
            r@ == returning_fields(*self),
    {
        let mut out: Vec<Field> = Vec::new();
        match self {
            ReturningClause::Nothing => {},
            ReturningClause::Returning(s) => {
                s.push_fields(&mut out);
            },
        }
        assert(out@ =~= returning_fields(*self));
        out
    }

    /// Whether the suffix reads only columns of `src`.
    pub fn belongs_to(&self, src: &Source) -> (r: bool)
        ensures
            r == returning_ok(*self, src.name@),
    {
        match self {
            ReturningClause::Nothing => true,
            ReturningClause::Returning(s) => s.belongs_to(src),
        }
    }
}

/// A result row as the transport hands it over: one value per column.
#[derive(Clone, Debug)]
pub struct Row {
    pub values: Vec<SqlValue>,
}

/// Decoding of `row` along `fields`: a present field takes the next column, which must fit
/// its type; an absent one yields `None` and takes no column; every column must be taken.
pub open spec fn decode(fields: Seq<Field>, row: Seq<SqlValue>) -> Option<Seq<Option<SqlValue>>>
    decreases fields.len(),
{
    if fields.len() == 0 {
        if row.len() == 0 {
            Some(Seq::empty())
        } else {
            None
        }
    } else if !fields[0].present {
        match decode(fields.drop_first(), row) {
            Some(rest) => Some(seq![None] + rest),
            None => None,
        }
    } else if row.len() > 0 && has_type(row[0], fields[0].ty) {
        match decode(fields.drop_first(), row.drop_first()) {
            Some(rest) => Some(seq![Some(row[0])] + rest),
            None => None,
        }
    } else {
        None
    }
}

/// The types of the row columns that back the present fields, in order.
pub open spec fn column_types(fields: Seq<Field>) -> Seq<SqlType>
    decreases fields.len(),
{
    if fields.len() == 0 {
        Seq::empty()
    } else {
        let rest = column_types(fields.drop_last());
        if fields.last().present {
            rest.push(fields.last().ty)
        } else {
            rest
        }
    }
}

/// A successful decoding has one entry per field, and an absent field, wherever it stands,
/// decodes to `None`; skipping it takes no column, so the fields after it read the same
/// columns as if it were not there.
pub proof fn lemma_decode_absent(fields: Seq<Field>, row: Seq<SqlValue>, i: int)
    requires
        decode(fields, row) is Some,
        0 <= i < fields.len(),
        !fields[i].present,
    ensures
        decode(fields, row).unwrap().len() == fields.len(),
        decode(fields, row).unwrap()[i] is None,
        decode(fields.remove(i), row) is Some,
    decreases fields.len(),
{
    let rest_row = if fields[0].present { row.drop_first() } else { row };
    assert(fields.drop_first().len() < fields.len());
    if i == 0 {
        assert(fields.remove(0) =~= fields.drop_first());
        lemma_decode_len(fields.drop_first(), rest_row);
    } else {
        lemma_decode_absent(fields.drop_first(), rest_row, i - 1);
        assert(fields.remove(i).drop_first() =~= fields.drop_first().remove(i - 1));
        assert(fields.remove(i)[0] == fields[0]);
    }
}

/// A successful decoding has one entry per field.
pub proof fn lemma_decode_len(fields: Seq<Field>, row: Seq<SqlValue>)
    requires
        decode(fields, row) is Some,
    ensures
        decode(fields, row).unwrap().len() == fields.len(),
    decreases fields.len(),
{
    if fields.len() > 0 {
        let rest_row = if fields[0].present { row.drop_first() } else { row };
        lemma_decode_len(fields.drop_first(), rest_row);
    }
}

/// The result shape of a statement: how each of its rows is decoded.
#[derive(Clone, Debug)]
pub struct Getter {
    pub fields: Vec<Field>,
}

impl Getter {
    /// An equal copy of this shape.
    pub fn duplicate(&self) -> (r: Getter)
        ensures
            r.fields@ == self.fields@,
    {
        let mut out: Vec<Field> = Vec::new();
        let mut i: usize = 0;
        while i < self.fields.len()
            invariant
                i <= self.fields@.len(),
                out@ == self.fields@.subrange(0, i as int),
            decreases self.fields@.len() - i,
        {
            out.push(self.fields[i]);
            i = i + 1;
            assert(out@ =~= self.fields@.subrange(0, i as int));
        }
        assert(self.fields@.subrange(0, i as int) =~= self.fields@);
        Getter { fields: out }
    }

    /// The types of the columns a row of this shape holds, in order.
    pub fn columns(&self) -> (r: Vec<SqlType>)
        ensures
            r@ == column_types(self.fields@),
    {
        let mut out: Vec<SqlType> = Vec::new();
        let mut i: usize = 0;
        while i < self.fields.len()
            invariant
                i <= self.fields@.len(),
                out@ == column_types(self.fields@.subrange(0, i as int)),
            decreases self.fields@.len() - i,
        {
            let f = self.fields[i];
            proof {
                let next = self.fields@.subrange(0, i + 1);
                assert(next.drop_last() =~= self.fields@.subrange(0, i as int));
                assert(next.last() == f);
            }
            if f.present {
                out.push(f.ty);
            }
            i = i + 1;
        }
        assert(self.fields@.subrange(0, i as int) =~= self.fields@);
        out
    }

    /// Decodes `row`: one entry per field, `None` for an absent one.
    pub fn get(&self, row: &Row) -> (r: Result<Vec<Option<SqlValue>>, SqlError>)
        ensures
            match decode(self.fields@, row.values@) {
                Some(d) => r matches Ok(v) && v@ == d,
                None => r == Err::<Vec<Option<SqlValue>>, SqlError>(SqlError::RowMismatch),
            },
    {
        let mut out: Vec<Option<SqlValue>> = Vec::new();
        let mut i: usize = 0;
        let mut j: usize = 0;
        proof {
            assert(self.fields@.skip(0) =~= self.fields@);
            assert(row.values@.skip(0) =~= row.values@);
            if let Some(d) = decode(self.fields@, row.values@) {
                assert(out@ + d =~= d);
            }
        }
        while i < self.fields.len()
            invariant
                i <= self.fields@.len(),
                j <= row.values@.len(),
                decode(self.fields@, row.values@) == match decode(
                    self.fields@.skip(i as int),
                    row.values@.skip(j as int),
                ) {
                    Some(rest) => Some(out@ + rest),
                    None => None::<Seq<Option<SqlValue>>>,
                },
            decreases self.fields@.len() - i,
        {
            let f = self.fields[i];
            proof {
                let fs = self.fields@.skip(i as int);
                let rs = row.values@.skip(j as int);
                assert(fs.drop_first() =~= self.fields@.skip(i + 1));
                assert(rs.len() > 0 ==> rs.drop_first() =~= row.values@.skip(j + 1));
                assert(fs[0] == f);
                assert(rs.len() > 0 ==> rs[0] == row.values@[j as int]);
            }
            if !f.present {
                proof {
                    let rest = decode(self.fields@.skip(i + 1), row.values@.skip(j as int));
                    if rest is Some {
                        assert(out@ + (seq![None] + rest.unwrap()) =~= out@.push(None)
                            + rest.unwrap());
                    }
                }
                out.push(None);
            } else if j < row.values.len() && row.values[j].fits(f.ty) {
                let v = row.values[j].duplicate();
                proof {
                    let rest = decode(self.fields@.skip(i + 1), row.values@.skip(j + 1));
                    if rest is Some {
                        assert(out@ + (seq![Some(v)] + rest.unwrap()) =~= out@.push(Some(v))
                            + rest.unwrap());
                    }
                }
                out.push(Some(v));
                j = j + 1;
            } else {
                return Err(SqlError::RowMismatch);
            }
            i = i + 1;
        }
        proof {
            assert(self.fields@.skip(i as int).len() == 0);
            assert(out@ + Seq::<Option<SqlValue>>::empty() =~= out@);
        }
        if j < row.values.len() {
            return Err(SqlError::RowMismatch);
        }
        proof {
            assert(row.values@.skip(j as int).len() == 0);
        }
        Ok(out)
    }
}

} // verus!
