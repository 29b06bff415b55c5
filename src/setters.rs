//! What a statement writes: the columns assigned and the placeholders that carry their values.
use vstd::prelude::*;
use crate::query::Slot;
use crate::source::{ColWrap, Source};
use crate::text::{placeholder, push_placeholder};
use crate::types::{has_type, SqlValue};

verus! {

/// A list of columns to write. A leaf renders its bare name on the left-hand side and a
/// placeholder on the right-hand side.
#[derive(Debug)]
pub enum ColumnsSetter {
    /// A column whose value is supplied when the statement is executed.
    Column(ColWrap),
    /// A column whose value was given when the fragment was built.
    Taking(ColWrap, SqlValue),
    /// A column written only when a value was given when the fragment was built.
    Optional(OptValue),
    Pair(Box<ColumnsSetter>, Box<ColumnsSetter>),
}

/// A column together with the value it may be written with.
#[derive(Clone, Debug)]
pub struct OptValue(pub ColWrap, pub Option<SqlValue>);

/// Whether the write-set emits at least one column.
pub open spec fn set_emits(s: ColumnsSetter) -> bool
    decreases s,
{
    match s {
        ColumnsSetter::Column(_) => true,
        ColumnsSetter::Taking(_, _) => true,
        ColumnsSetter::Optional(o) => o.1 is Some,
        ColumnsSetter::Pair(a, b) => set_emits(*a) || set_emits(*b),
    }
}

/// The separator between two parts of a list: a comma only when both parts emitted.
pub open spec fn sep(left: bool, right: bool) -> Seq<char> {
    if left && right {
        seq![',', ' ']
    } else {
        Seq::empty()
    }
}

/// The comma-joined names of the written columns.
pub open spec fn set_names(s: ColumnsSetter) -> Seq<char>
    decreases s,
{
    match s {
        ColumnsSetter::Column(c) => c.0.name@,
        ColumnsSetter::Taking(c, _) => c.0.name@,
        ColumnsSetter::Optional(o) => if o.1 is Some { o.0.0.name@ } else { Seq::empty() },
        ColumnsSetter::Pair(a, b) => set_names(*a) + sep(set_emits(*a), set_emits(*b)) + set_names(*b),
    }
}

/// The parameter shape of the write-set: one slot per written column, in order.
pub open spec fn set_slots(s: ColumnsSetter) -> Seq<Slot>
    decreases s,
{
    match s {
        ColumnsSetter::Column(c) => seq![Slot::Arg(c.0.ty)],
        ColumnsSetter::Taking(_, v) => seq![Slot::Fixed(v)],
        ColumnsSetter::Optional(o) => match o.1 {
            Some(v) => seq![Slot::Fixed(v)],
            None => Seq::empty(),
        },
        ColumnsSetter::Pair(a, b) => set_slots(*a) + set_slots(*b),
    }
}

/// The comma-joined placeholders of the written columns, numbered from `idx`.
pub open spec fn set_values(s: ColumnsSetter, idx: nat) -> Seq<char>
    decreases s,
{
    match s {
        ColumnsSetter::Column(_) => placeholder(idx),
        ColumnsSetter::Taking(_, _) => placeholder(idx),
        ColumnsSetter::Optional(o) => if o.1 is Some { placeholder(idx) } else { Seq::empty() },
        ColumnsSetter::Pair(a, b) => set_values(*a, idx) + sep(set_emits(*a), set_emits(*b))
            + set_values(*b, idx + set_slots(*a).len()),
    }
}

/// Whether every column belongs to the table named `table` and every value given at build
/// time fits its column.
pub open spec fn set_ok(s: ColumnsSetter, table: Seq<char>) -> bool
    decreases s,
{
    match s {
        ColumnsSetter::Column(c) => c.0.belongs(table),
        ColumnsSetter::Taking(c, v) => c.0.belongs(table) && has_type(v, c.0.ty),
        ColumnsSetter::Optional(o) => o.0.0.belongs(table) && match o.1 {
            Some(v) => has_type(v, o.0.0.ty),
            None => true,
        },
        ColumnsSetter::Pair(a, b) => set_ok(*a, table) && set_ok(*b, table),
    }
}

/// A write-set emits a column exactly when it asks for a slot.
pub proof fn lemma_set_emits_slots(s: ColumnsSetter)
    ensures
        set_emits(s) <==> set_slots(s).len() > 0,
    decreases s,
{
    if let ColumnsSetter::Pair(a, b) = s {
        lemma_set_emits_slots(*a);
        lemma_set_emits_slots(*b);
    }
}

/// The placeholders `$a, $a+1, ..., $a+n-1`, comma-joined.
pub open spec fn placeholder_list(a: nat, n: nat) -> Seq<char>
    decreases n,
{
    if n == 0 {
        Seq::empty()
    } else if n == 1 {
        placeholder(a)
    } else {
        placeholder_list(a, (n - 1) as nat) + seq![',', ' '] + placeholder((a + n - 1) as nat)
    }
}

/// Two consecutive runs of placeholders, comma-joined, are one run.
pub proof fn lemma_placeholder_list_concat(a: nat, m: nat, n: nat)
    ensures
        placeholder_list(a, m) + sep(m > 0, n > 0) + placeholder_list(a + m, n)
            == placeholder_list(a, m + n),
    decreases n,
{
    if n == 0 {
        assert(placeholder_list(a, m) + sep(m > 0, n > 0) + placeholder_list(a + m, n)
            =~= placeholder_list(a, m + n));
    } else if n == 1 {
        if m == 0 {
            assert(placeholder_list(a, m) + sep(m > 0, n > 0) + placeholder_list(a + m, n)
                =~= placeholder_list(a, m + n));
        }
    } else {
        lemma_placeholder_list_concat(a, m, (n - 1) as nat);
        let left = placeholder_list(a, m) + sep(m > 0, true);
        assert(placeholder_list(a + m, n) == placeholder_list(a + m, (n - 1) as nat) + seq![',', ' ']
            + placeholder((a + m + n - 1) as nat));
        assert(placeholder_list(a, m + n) == placeholder_list(a, (m + n - 1) as nat) + seq![',', ' ']
            + placeholder((a + (m + n) - 1) as nat));
        assert(left + placeholder_list(a + m, n) =~= (left + placeholder_list(
            a + m,
            (n - 1) as nat,
        )) + seq![',', ' '] + placeholder((a + m + n - 1) as nat));
    }
}

/// The value side of any write-set rendered from `idx` is exactly the comma-joined run of
/// placeholders `$idx, ..., $idx+k-1`, one per slot: a column left out writes nothing and
/// leaves no stray comma.
pub proof fn lemma_set_values_list(s: ColumnsSetter, idx: nat)
    ensures
        set_values(s, idx) == placeholder_list(idx, set_slots(s).len()),
    decreases s,
{
    if let ColumnsSetter::Pair(a, b) = s {
        lemma_set_values_list(*a, idx);
        lemma_set_values_list(*b, idx + set_slots(*a).len());
        lemma_set_emits_slots(*a);
        lemma_set_emits_slots(*b);
        lemma_placeholder_list_concat(idx, set_slots(*a).len(), set_slots(*b).len());
    } else {
        assert(set_values(s, idx) =~= placeholder_list(idx, set_slots(s).len()));
    }
}

impl ColWrap {
    /// The column as a write target whose value is supplied at execution.
    pub fn set(self) -> (r: ColumnsSetter)
        ensures
            r == ColumnsSetter::Column(self),
    {
        ColumnsSetter::Column(self)
    }

    /// The column as a write target with the value `assignment`.
    pub fn taking(self, assignment: SqlValue) -> (r: ColumnsSetter)
        ensures
            r == ColumnsSetter::Taking(self, assignment),
    {
        ColumnsSetter::Taking(self, assignment)
    }

    /// The column as a write target written only when `assignment` holds a value.
    pub fn if_some(self, assignment: Option<SqlValue>) -> (r: ColumnsSetter)
        ensures
            r == ColumnsSetter::Optional(OptValue(self, assignment)),
    {
        ColumnsSetter::Optional(OptValue(self, assignment))
    }
}

impl ColumnsSetter {
    /// This write-set followed by `other`.
    pub fn and(self, other: ColumnsSetter) -> (r: ColumnsSetter)
        ensures
            r == ColumnsSetter::Pair(Box::new(self), Box::new(other)),
    {
        ColumnsSetter::Pair(Box::new(self), Box::new(other))
    }

    /// Appends the written column names; returns whether any was written.
    pub fn push_selection(&self, buf: &mut String) -> (r: bool)
        ensures
            final(buf)@ == old(buf)@ + set_names(*self),
            r == set_emits(*self),
        decreases self,
    {
        match self {
            ColumnsSetter::Column(c) => {
                c.0.push_name(buf);
                true
            },
            ColumnsSetter::Taking(c, _) => {
                c.0.push_name(buf);
                true
            },
            ColumnsSetter::Optional(o) => {
                let some = o.1.is_some();
                if some {
                    o.0.0.push_name(buf);
                }
                assert(buf@ =~= old(buf)@ + set_names(*self));
                some
            },
            ColumnsSetter::Pair(a, b) => {
                let did_a = a.push_selection(buf);
                let mut rest = String::new();
                let did_b = b.push_selection(&mut rest);
                if did_a && did_b {
                    proof {
                        reveal_strlit(", ");
                    }
                    buf.append(", ");
                }
                buf.append(rest.as_str());
                assert(buf@ =~= old(buf)@ + set_names(*self));
                did_a || did_b
            },
        }
    }

    /// Appends the placeholders, numbered from `idx`; returns the next free number and
    /// whether any placeholder was written.
    pub fn push_values(&self, buf: &mut String, idx: usize) -> (r: (usize, bool))
        requires
            idx + set_slots(*self).len() <= usize::MAX,
        ensures
            final(buf)@ == old(buf)@ + set_values(*self, idx as nat),
            r.0 == idx + set_slots(*self).len(),
            r.1 == set_emits(*self),
        decreases self,
    {
        match self {
            ColumnsSetter::Column(_) => {
                push_placeholder(buf, idx);
                (idx + 1, true)
            },
            ColumnsSetter::Taking(_, _) => {
                push_placeholder(buf, idx);
                (idx + 1, true)
            },
            ColumnsSetter::Optional(o) => {
                if o.1.is_some() {
                    push_placeholder(buf, idx);
                    (idx + 1, true)
                } else {
                    assert(buf@ =~= old(buf)@ + set_values(*self, idx as nat));
                    (idx, false)
                }
            },
            ColumnsSetter::Pair(a, b) => {
                let (next, did_a) = a.push_values(buf, idx);
                let mut rest = String::new();
                let (last, did_b) = b.push_values(&mut rest, next);
                if did_a && did_b {
                    proof {
                        reveal_strlit(", ");
                    }
                    buf.append(", ");
                }
                buf.append(rest.as_str());
                assert(buf@ =~= old(buf)@ + set_values(*self, idx as nat));
                (last, did_a || did_b)
            },
        }
    }

    /// Appends the write-set's parameter shape.
    pub fn push_slots(&self, out: &mut Vec<Slot>)
        ensures
            final(out)@ == old(out)@ + set_slots(*self),
        decreases self,
    {
        match self {
            ColumnsSetter::Column(c) => {
                out.push(Slot::Arg(c.0.ty));
            },
            ColumnsSetter::Taking(_, v) => {
                out.push(Slot::Fixed(v.duplicate()));
            },
            ColumnsSetter::Optional(o) => {
                match &o.1 {
                    Some(v) => {
                        out.push(Slot::Fixed(v.duplicate()));
                    },
                    None => {},
                }
            },
            ColumnsSetter::Pair(a, b) => {
                a.push_slots(out);
                b.push_slots(out);
            },
        }
        assert(out@ =~= old(out)@ + set_slots(*self));
    }

    /// Whether every column belongs to `src` and every value given fits its column.
    pub fn belongs_to(&self, src: &Source) -> (r: bool)
        ensures
            r == set_ok(*self, src.name@),
        decreases self,
    {
        match self {
            ColumnsSetter::Column(c) => c.0.belongs_to(src),
            ColumnsSetter::Taking(c, v) => c.0.belongs_to(src) && v.fits(c.0.ty),
            ColumnsSetter::Optional(o) => o.0.0.belongs_to(src) && match &o.1 {
                Some(v) => v.fits(o.0.0.ty),
                None => true,
            },
            ColumnsSetter::Pair(a, b) => a.belongs_to(src) && b.belongs_to(src),
        }
    }
}

} // verus!
