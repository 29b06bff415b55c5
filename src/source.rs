//! Tables and their columns: the leaves of every statement.
use vstd::prelude::*;
use crate::types::SqlType;

verus! {

/// A table that statements read from or write to. It renders as its name.
#[derive(Clone, Debug)]
pub struct Source {
    pub name: String,
}

/// A column of a table: the table it belongs to, its name and its type.
#[derive(Clone, Debug)]
pub struct Column {
    pub table: String,
    pub name: String,
    pub ty: SqlType,
}

/// A column in its role as a fragment: a selection leaf, a write target, a filter operand.
#[derive(Clone, Debug)]
pub struct ColWrap(pub Column);

impl Source {
    /// The table named `name`.
    pub fn new(name: &str) -> (r: Source)
        ensures
            r.name@ == name@,
    {
        Source { name: name.to_owned() }
    }

    /// The column `name`, of type `ty`, of this table.
    pub fn column(&self, name: &str, ty: SqlType) -> (r: ColWrap)
        ensures
            r.0.table@ == self.name@,
            r.0.name@ == name@,
            r.0.ty == ty,
    {
        ColWrap(Column { table: self.name.clone(), name: name.to_owned(), ty })
    }

    /// Appends the table's name.
    pub fn push_source(&self, buf: &mut String)
        ensures
            final(buf)@ == old(buf)@ + self.name@,
    {
        buf.append(self.name.as_str());
    }

    /// An equal copy of this table.
    pub fn duplicate(&self) -> (r: Source)
        ensures
            r == *self,
    {
        Source { name: self.name.clone() }
    }
}

impl Column {
    /// Whether the column belongs to the table named `table`.
    pub open spec fn belongs(&self, table: Seq<char>) -> bool {
        self.table@ == table
    }

    /// The column as a selection leaf: `table.column`.
    pub open spec fn qualified(&self) -> Seq<char> {
        self.table@ + seq!['.'] + self.name@
    }

    /// Appends the bare column name.
    pub fn push_name(&self, buf: &mut String)
        ensures
            final(buf)@ == old(buf)@ + self.name@,
    {
        buf.append(self.name.as_str());
    }

    /// Appends `table.column`.
    pub fn push_qualified(&self, buf: &mut String)
        ensures
            final(buf)@ == old(buf)@ + self.qualified(),
    {
        proof {
            reveal_strlit(".");
        }
        buf.append(self.table.as_str());
        buf.append(".");
        buf.append(self.name.as_str());
        assert(buf@ =~= old(buf)@ + self.qualified());
    }

    /// Whether the column belongs to `src`.
    pub fn belongs_to(&self, src: &Source) -> (r: bool)
        ensures
            r == self.belongs(src.name@),
    {
        self.table == src.name
    }

    /// An equal copy of this column.
    pub fn duplicate(&self) -> (r: Column)
        ensures
            r == *self,
    {
        Column { table: self.table.clone(), name: self.name.clone(), ty: self.ty }
    }
}

} // verus!
