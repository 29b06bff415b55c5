//! Parameter shapes, the binding of arguments to them, and the common interface of statements.
use vstd::prelude::*;
use crate::builders::value::ValueBuilder;
use crate::getters::{Field, Getter};
use crate::types::{has_type, SqlError, SqlType, SqlValue};

verus! {

/// One placeholder of a parameter shape: a value supplied at execution, of the given type,
/// or a value fixed when the statement was built.
#[derive(Debug)]
pub enum Slot {
    Arg(SqlType),
    Fixed(SqlValue),
}

/// Whether `v` may be bound to the placeholder `s`.
pub open spec fn slot_accepts(s: Slot, v: SqlValue) -> bool {
    match s {
        Slot::Arg(t) => has_type(v, t),
        Slot::Fixed(w) => v == w,
    }
}

} // verus!

verus! {

/// The placeholders `s` asks for, numbered from `idx`: the `i`-th is `(idx + i, s[i])`.
pub open spec fn numbered(s: Seq<Slot>, idx: nat) -> Seq<(nat, Slot)> {
    Seq::new(s.len(), |i: int| ((idx + i) as nat, s[i]))
}

impl Slot {
    /// An equal copy of this slot.
    pub fn duplicate(&self) -> (r: Slot)
        ensures
            r == *self,
    {
        match self {
            Slot::Arg(t) => Slot::Arg(*t),
            Slot::Fixed(v) => Slot::Fixed(v.duplicate()),
        }
    }
}

} // verus!

verus! {

/// `n` copies of `s`, one after the other.
pub open spec fn repeat(s: Seq<Slot>, n: nat) -> Seq<Slot>
    decreases n,
{
    if n == 0 {
        Seq::empty()
    } else {
        repeat(s, (n - 1) as nat) + s
    }
}

/// `n` copies of `s` are `n * |s|` slots long.
pub proof fn lemma_repeat_len(s: Seq<Slot>, n: nat)
    ensures
        repeat(s, n).len() == n * s.len(),
    decreases n,
{
    let k = s.len();
    if n > 0 {
        let m = (n - 1) as nat;
        lemma_repeat_len(s, m);
        assert(repeat(s, n) == repeat(s, m) + s);
        assert(n * k == m * k + k) by (nonlinear_arith)
            requires
                m + 1 == n,
        ;
    } else {
        assert(n * k == 0) by (nonlinear_arith)
            requires
                n == 0,
        ;
    }
}

/// The one-slot shape of a placeholder-backed limit or offset, or nothing.
pub open spec fn bigint_if(b: bool) -> Seq<Slot> {
    if b {
        seq![Slot::Arg(SqlType::BigInt)]
    } else {
        Seq::empty()
    }
}

/// Whether `vals` fill the placeholders `slots` one for one.
pub open spec fn fills(slots: Seq<Slot>, vals: Seq<SqlValue>) -> bool {
    &&& vals.len() == slots.len()
    &&& forall|i: int| 0 <= i < slots.len() ==> slot_accepts(#[trigger] slots[i], vals[i])
}

/// Binding one row of arguments to `slots`: a fixed slot yields its own value, an argument
/// slot takes the next argument, which must fit its type; every argument must be taken.
pub open spec fn bind_row(slots: Seq<Slot>, args: Seq<SqlValue>) -> Option<Seq<SqlValue>>
    decreases slots.len(),
{
    if slots.len() == 0 {
        if args.len() == 0 {
            Some(Seq::empty())
        } else {
            None
        }
    } else {
        match slots[0] {
            Slot::Fixed(v) => match bind_row(slots.drop_first(), args) {
                Some(rest) => Some(seq![v] + rest),
                None => None,
            },
            Slot::Arg(t) => if args.len() > 0 && has_type(args[0], t) {
                match bind_row(slots.drop_first(), args.drop_first()) {
                    Some(rest) => Some(seq![args[0]] + rest),
                    None => None,
                }
            } else {
                None
            },
        }
    }
}

/// Binding several rows to the same row shape, one after the other.
pub open spec fn bind_rows(slots: Seq<Slot>, rows: Seq<Seq<SqlValue>>) -> Option<Seq<SqlValue>>
    decreases rows.len(),
{
    if rows.len() == 0 {
        Some(Seq::empty())
    } else {
        match (bind_rows(slots, rows.drop_last()), bind_row(slots, rows.last())) {
            (Some(a), Some(b)) => Some(a + b),
            _ => None,
        }
    }
}

/// Binding the argument of a limit or offset: present exactly when it is placeholder-backed,
/// and small enough for the server's `bigint`.
pub open spec fn bind_opt(placeholder: bool, arg: Option<u64>) -> Option<Seq<SqlValue>> {
    match arg {
        Some(n) => if placeholder && n <= i64::MAX {
            Some(seq![SqlValue::BigInt(n as i64)])
        } else {
            None
        },
        None => if placeholder {
            None
        } else {
            Some(Seq::empty())
        },
    }
}

/// The rows of an argument set as sequences of values.
pub open spec fn rows_of(args: ValueBuilder) -> Seq<Seq<SqlValue>> {
    args.values@.map_values(|r: Vec<SqlValue>| r@)
}

/// The parameter shape of a rendered statement, kept by part: the slots of one write-set
/// row and how many rows there are, the filter's slots, and whether the limit and the
/// offset are placeholder-backed.
#[derive(Debug)]
pub struct SqlInput {
    pub values: Vec<Slot>,
    pub reps: usize,
    pub where_clause: Vec<Slot>,
    pub limit: bool,
    pub offset: bool,
}

impl SqlInput {
    /// All placeholders, in the order they are numbered in the statement's text.
    pub open spec fn slots(&self) -> Seq<Slot> {
        repeat(self.values@, self.reps as nat) + self.where_clause@ + bigint_if(self.limit)
            + bigint_if(self.offset)
    }

    /// The flat list of values bound for `args`, in placeholder order, or `None` when the
    /// arguments do not have this shape.
    pub open spec fn bind(&self, args: ValueBuilder) -> Option<Seq<SqlValue>> {
        if args.values@.len() != self.reps {
            None
        } else {
            match (
                bind_rows(self.values@, rows_of(args)),
                bind_row(self.where_clause@, args.where_clause@),
                bind_opt(self.limit, args.limit),
                bind_opt(self.offset, args.offset),
            ) {
                (Some(a), Some(b), Some(c), Some(d)) => Some(a + b + c + d),
                _ => None,
            }
        }
    }

    /// The number of placeholders, when a `usize` can hold it.
    pub fn count(&self) -> (r: Option<usize>)
        ensures
            r == (if self.slots().len() <= usize::MAX {
                Some(self.slots().len() as usize)
            } else {
                None::<usize>
            }),
    {
        proof {
            lemma_repeat_len(self.values@, self.reps as nat);
        }
        let k = self.values.len();
        let rows = match k.checked_mul(self.reps) {
            Some(n) => n,
            None => {
                assert(k * self.reps > usize::MAX);
                return None;
            },
        };
        assert(rows == self.reps * k) by (nonlinear_arith)
            requires rows == k * self.reps;
        let extra: usize = (if self.limit { 1usize } else { 0usize }) + (if self.offset {
            1usize
        } else {
            0usize
        });
        match rows.checked_add(self.where_clause.len()) {
            Some(n) => match n.checked_add(extra) {
                Some(m) => Some(m),
                None => None,
            },
            None => None,
        }
    }

    /// Binds `args`: the flat list of values for the placeholders `$1, $2, ...` in order.
    pub fn push_values(&self, args: &ValueBuilder) -> (r: Result<Vec<SqlValue>, SqlError>)
        ensures
            match self.bind(*args) {
                Some(vals) => r matches Ok(v) && v@ == vals,
                None => r == Err::<Vec<SqlValue>, SqlError>(SqlError::ArgumentMismatch),
            },
    {
        if args.values.len() != self.reps {
            return Err(SqlError::ArgumentMismatch);
        }
        let mut out: Vec<SqlValue> = Vec::new();
        let ok_rows = push_rows(&self.values, &args.values, &mut out);
        if !ok_rows {
            return Err(SqlError::ArgumentMismatch);
        }
        let ok_where = push_row(&self.where_clause, &args.where_clause, &mut out);
        if !ok_where {
            return Err(SqlError::ArgumentMismatch);
        }
        let ok_limit = push_opt(self.limit, args.limit, &mut out);
        if !ok_limit {
            return Err(SqlError::ArgumentMismatch);
        }
        let ok_offset = push_opt(self.offset, args.offset, &mut out);
        if !ok_offset {
            return Err(SqlError::ArgumentMismatch);
        }
        Ok(out)
    }

    /// An equal copy of this shape.
    pub fn duplicate(&self) -> (r: SqlInput)
        ensures
            r.values@ == self.values@,
            r.reps == self.reps,
            r.where_clause@ == self.where_clause@,
            r.limit == self.limit,
            r.offset == self.offset,
    {
        SqlInput {
            values: copy_slots(&self.values),
            reps: self.reps,
            where_clause: copy_slots(&self.where_clause),
            limit: self.limit,
            offset: self.offset,
        }
    }
}

/// An equal copy of a list of slots.
pub fn copy_slots(v: &Vec<Slot>) -> (r: Vec<Slot>)
    ensures
        r@ == v@,
{
    let mut out: Vec<Slot> = Vec::new();
    let mut i: usize = 0;
    while i < v.len()
        invariant
            i <= v@.len(),
            out@ == v@.subrange(0, i as int),
        decreases v@.len() - i,
    {
        out.push(v[i].duplicate());
        i = i + 1;
        assert(out@ =~= v@.subrange(0, i as int));
    }
    assert(v@.subrange(0, i as int) =~= v@);
    out
}

/// Appends the binding of one row; returns whether it succeeded, and on success appends
/// exactly `bind_row(slots, args)`.
pub(crate) fn push_row(slots: &Vec<Slot>, args: &Vec<SqlValue>, out: &mut Vec<SqlValue>) -> (r: bool)
    ensures
        r == (bind_row(slots@, args@) is Some),
        r ==> final(out)@ == old(out)@ + bind_row(slots@, args@).unwrap(),
{
    let ghost start = out@;
    let mut i: usize = 0;
    let mut j: usize = 0;
    proof {
        assert(slots@.skip(0) =~= slots@);
        assert(args@.skip(0) =~= args@);
        if let Some(d) = bind_row(slots@, args@) {
            assert(start + d =~= out@ + d);
        }
    }
    while i < slots.len()
        invariant
            i <= slots@.len(),
            j <= args@.len(),
            out@.len() >= start.len(),
            match bind_row(slots@, args@) {
                Some(d) => bind_row(slots@.skip(i as int), args@.skip(j as int)) matches Some(
                    rest,
                ) && start + d == out@ + rest,
                None => bind_row(slots@.skip(i as int), args@.skip(j as int)) is None,
            },
        decreases slots@.len() - i,
    {
        proof {
            let ss = slots@.skip(i as int);
            let rs = args@.skip(j as int);
            assert(ss.drop_first() =~= slots@.skip(i + 1));
            assert(rs.len() > 0 ==> rs.drop_first() =~= args@.skip(j + 1));
            assert(rs.len() > 0 ==> rs[0] == args@[j as int]);
        }
        match &slots[i] {
            Slot::Fixed(v) => {
                let w = v.duplicate();
                proof {
                    if let Some(rest) = bind_row(slots@.skip(i + 1), args@.skip(j as int)) {
                        assert(out@ + (seq![w] + rest) =~= out@.push(w) + rest);
                    }
                }
                out.push(w);
            },
            Slot::Arg(t) => {
                if j < args.len() && args[j].fits(*t) {
                    let w = args[j].duplicate();
                    proof {
                        if let Some(rest) = bind_row(slots@.skip(i + 1), args@.skip(j + 1)) {
                            assert(out@ + (seq![w] + rest) =~= out@.push(w) + rest);
                        }
                    }
                    out.push(w);
                    j = j + 1;
                } else {
                    return false;
                }
            },
        }
        i = i + 1;
    }
    proof {
        assert(slots@.skip(i as int).len() == 0);
    }
    if j < args.len() {
        return false;
    }
    proof {
        assert(args@.skip(j as int).len() == 0);
        assert(out@ + Seq::<SqlValue>::empty() =~= out@);
    }
    true
}

/// Appends the binding of several rows to the same row shape.
fn push_rows(slots: &Vec<Slot>, rows: &Vec<Vec<SqlValue>>, out: &mut Vec<SqlValue>) -> (r: bool)
    ensures
        r == (bind_rows(slots@, rows@.map_values(|v: Vec<SqlValue>| v@)) is Some),
        r ==> final(out)@ == old(out)@ + bind_rows(
            slots@,
            rows@.map_values(|v: Vec<SqlValue>| v@),
        ).unwrap(),
{
    let ghost all = rows@.map_values(|v: Vec<SqlValue>| v@);
    let mut i: usize = 0;
    proof {
        assert(all.subrange(0, 0).len() == 0);
        assert(old(out)@ + Seq::<SqlValue>::empty() =~= out@);
    }
    while i < rows.len()
        invariant
            i <= rows@.len(),
            all == rows@.map_values(|v: Vec<SqlValue>| v@),
            bind_rows(slots@, all.subrange(0, i as int)) matches Some(done) && out@ == old(out)@
                + done,
        decreases rows@.len() - i,
    {
        let ghost done = bind_rows(slots@, all.subrange(0, i as int)).unwrap();
        let ok = push_row(slots, &rows[i], out);
        proof {
            let next = all.subrange(0, i + 1);
            assert(next.drop_last() =~= all.subrange(0, i as int));
            assert(next.last() == rows@[i as int]@);
            if !ok {
                assert(bind_rows(slots@, next) is None);
                lemma_bind_rows_prefix(slots@, all, i + 1);
            }
        }
        if !ok {
            return false;
        }
        proof {
            let row = bind_row(slots@, rows@[i as int]@).unwrap();
            assert(out@ == old(out)@ + (done + row));
        }
        i = i + 1;
    }
    proof {
        assert(all.subrange(0, i as int) =~= all);
    }
    true
}

/// A failure to bind the first `n` rows is a failure to bind them all.
proof fn lemma_bind_rows_prefix(slots: Seq<Slot>, rows: Seq<Seq<SqlValue>>, n: int)
    requires
        0 <= n <= rows.len(),
        bind_rows(slots, rows.subrange(0, n)) is None,
    ensures
        bind_rows(slots, rows) is None,
    decreases rows.len() - n,
{
    if n < rows.len() {
        let next = rows.subrange(0, n + 1);
        assert(next.drop_last() =~= rows.subrange(0, n));
        lemma_bind_rows_prefix(slots, rows, n + 1);
    } else {
        assert(rows.subrange(0, n) =~= rows);
    }
}

/// Appends the binding of a limit or offset argument.
fn push_opt(placeholder: bool, arg: Option<u64>, out: &mut Vec<SqlValue>) -> (r: bool)
    ensures
        r == (bind_opt(placeholder, arg) is Some),
        r ==> final(out)@ == old(out)@ + bind_opt(placeholder, arg).unwrap(),
{
    match arg {
        Some(n) => {
            if placeholder && n <= i64::MAX as u64 {
                out.push(SqlValue::BigInt(n as i64));
                assert(out@ =~= old(out)@ + bind_opt(placeholder, arg).unwrap());
                true
            } else {
                false
            }
        },
        None => {
            if !placeholder {
                assert(out@ =~= old(out)@ + bind_opt(placeholder, arg).unwrap());
            }
            !placeholder
        },
    }
}

} // verus!

verus! {

/// A value bound by a successful binding fills the placeholder at its position.
pub proof fn lemma_bind_row_fills(slots: Seq<Slot>, args: Seq<SqlValue>)
    requires
        bind_row(slots, args) is Some,
    ensures
        fills(slots, bind_row(slots, args).unwrap()),
    decreases slots.len(),
{
    if slots.len() > 0 {
        let rest_args = match slots[0] {
            Slot::Fixed(_) => args,
            Slot::Arg(_) => args.drop_first(),
        };
        lemma_bind_row_fills(slots.drop_first(), rest_args);
        let vals = bind_row(slots, args).unwrap();
        let rest = bind_row(slots.drop_first(), rest_args).unwrap();
        assert forall|i: int| 0 <= i < slots.len() implies slot_accepts(
            #[trigger] slots[i],
            vals[i],
        ) by {
            if i > 0 {
                assert(slots[i] == slots.drop_first()[i - 1]);
                assert(vals[i] == rest[i - 1]);
            }
        }
    }
}

/// Values that fill two shapes, one after the other, fill the two shapes joined.
pub proof fn lemma_fills_concat(s1: Seq<Slot>, v1: Seq<SqlValue>, s2: Seq<Slot>, v2: Seq<SqlValue>)
    requires
        fills(s1, v1),
        fills(s2, v2),
    ensures
        fills(s1 + s2, v1 + v2),
{
    assert forall|i: int| 0 <= i < (s1 + s2).len() implies slot_accepts(
        #[trigger] (s1 + s2)[i],
        (v1 + v2)[i],
    ) by {
        if i >= s1.len() {
            assert((s1 + s2)[i] == s2[i - s1.len()]);
            assert((v1 + v2)[i] == v2[i - v1.len()]);
        }
    }
}

/// Binding `n` rows fills `n` copies of the row shape.
pub proof fn lemma_bind_rows_fills(slots: Seq<Slot>, rows: Seq<Seq<SqlValue>>)
    requires
        bind_rows(slots, rows) is Some,
    ensures
        fills(repeat(slots, rows.len()), bind_rows(slots, rows).unwrap()),
    decreases rows.len(),
{
    if rows.len() > 0 {
        lemma_bind_rows_fills(slots, rows.drop_last());
        lemma_bind_row_fills(slots, rows.last());
        lemma_fills_concat(
            repeat(slots, rows.drop_last().len()),
            bind_rows(slots, rows.drop_last()).unwrap(),
            slots,
            bind_row(slots, rows.last()).unwrap(),
        );
    } else {
        assert(repeat(slots, 0) =~= Seq::<Slot>::empty());
    }
}

/// Whatever a successful binding returns lines up with the statement's placeholders: the
/// `i`-th value is the one for the `i`-th placeholder (`$i+1`) and fits it.
pub proof fn lemma_bind_fills(inp: SqlInput, args: ValueBuilder)
    requires
        inp.bind(args) is Some,
    ensures
        fills(inp.slots(), inp.bind(args).unwrap()),
{
    let rows = rows_of(args);
    assert(rows.len() == inp.reps);
    lemma_bind_rows_fills(inp.values@, rows);
    lemma_bind_row_fills(inp.where_clause@, args.where_clause@);
    let a = bind_rows(inp.values@, rows).unwrap();
    let b = bind_row(inp.where_clause@, args.where_clause@).unwrap();
    let c = bind_opt(inp.limit, args.limit).unwrap();
    let d = bind_opt(inp.offset, args.offset).unwrap();
    assert(fills(bigint_if(inp.limit), c));
    assert(fills(bigint_if(inp.offset), d));
    lemma_fills_concat(repeat(inp.values@, inp.reps as nat), a, inp.where_clause@, b);
    lemma_fills_concat(
        repeat(inp.values@, inp.reps as nat) + inp.where_clause@,
        a + b,
        bigint_if(inp.limit),
        c,
    );
    lemma_fills_concat(
        repeat(inp.values@, inp.reps as nat) + inp.where_clause@ + bigint_if(inp.limit),
        a + b + c,
        bigint_if(inp.offset),
        d,
    );
}

/// A statement that can be rendered: its text, its parameter shape and its result shape.
/// Rendering consumes the statement and gives it back with its sub-queries bound; only then
/// may its shapes be taken.
pub trait IntoSql: Sized {
    /// The text, its first placeholder numbered `idx`.
    spec fn sql(&self, idx: nat) -> Seq<char>;

    /// The parameter shape: one slot per placeholder, in numbering order.
    spec fn slots(&self) -> Seq<Slot>;

    /// The slots of one row of the write-set.
    spec fn row_slots(&self) -> Seq<Slot>;

    /// How many write-set rows are bound.
    spec fn reps(&self) -> nat;

    /// The slots of the filter, sub-queries included.
    spec fn filter_slots(&self) -> Seq<Slot>;

    /// Whether the limit is placeholder-backed.
    spec fn limit_arg(&self) -> bool;

    /// Whether the offset is placeholder-backed.
    spec fn offset_arg(&self) -> bool;

    /// The result shape: one field per value decoded from a row.
    spec fn fields(&self) -> Seq<Field>;

    /// Why the statement may not be rendered with its first placeholder numbered `idx`.
    spec fn problem(&self, idx: nat) -> Option<SqlError>;

    /// Whether every sub-query has been rendered, so that the shapes may be taken.
    spec fn rendered(&self) -> bool;

    /// Tells whether the statement may be rendered from `idx`, and if not, why.
    fn check(&self, idx: usize) -> (r: Result<(), SqlError>)
        ensures
            r == match self.problem(idx as nat) {
                None => Ok(()),
                Some(e) => Err(e),
            },
    ;

    /// The number of placeholders, when a `usize` can hold it.
    fn count(&self) -> (r: Option<usize>)
        ensures
            r == (if self.slots().len() <= usize::MAX {
                Some(self.slots().len() as usize)
            } else {
                None::<usize>
            }),
    ;

    /// Renders the statement, its first placeholder numbered `idx`, appending its text;
    /// returns the statement with its sub-queries bound, and the next free number.
    fn push_sql(self, buf: &mut String, idx: usize) -> (r: (Self, usize))
        requires
            self.problem(idx as nat) is None,
            idx + self.slots().len() <= usize::MAX,
        ensures
            final(buf)@ == old(buf)@ + self.sql(idx as nat),
            r.1 == idx + self.slots().len(),
            r.0.rendered(),
            r.0.slots() == self.slots(),
            r.0.row_slots() == self.row_slots(),
            r.0.reps() == self.reps(),
            r.0.filter_slots() == self.filter_slots(),
            r.0.limit_arg() == self.limit_arg(),
            r.0.offset_arg() == self.offset_arg(),
            r.0.fields() == self.fields(),
    ;

    /// The result shape and the parameter shape, part by part; an error before rendering.
    fn into_types(&self) -> (r: Result<(Getter, SqlInput), SqlError>)
        ensures
            match r {
                Ok((g, i)) => {
                    &&& self.rendered()
                    &&& g.fields@ == self.fields()
                    &&& i.slots() == self.slots()
                    &&& i.values@ == self.row_slots()
                    &&& i.reps as nat == self.reps()
                    &&& i.where_clause@ == self.filter_slots()
                    &&& i.limit == self.limit_arg()
                    &&& i.offset == self.offset_arg()
                },
                Err(e) => !self.rendered() && e == SqlError::UnrenderedSubQuery,
            },
    ;
}

/// A finished statement: its text, its result shape, its parameter shape and its number of
/// placeholders.
#[derive(Debug)]
pub struct Rendered {
    pub sql: String,
    pub getter: Getter,
    pub setter: SqlInput,
    pub count: usize,
}

/// Finishes a statement: renders it with its placeholders numbered from `$1`, then takes
/// its shapes.
pub fn render<Q: IntoSql>(q: Q) -> (r: Result<Rendered, SqlError>)
    ensures
        match q.problem(1) {
            Some(e) => r == Err::<Rendered, SqlError>(e),
            None => if q.slots().len() < usize::MAX {
                r matches Ok(x) && {
                    &&& x.sql@ == q.sql(1)
                    &&& x.getter.fields@ == q.fields()
                    &&& x.setter.slots() == q.slots()
                    &&& x.setter.values@ == q.row_slots()
                    &&& x.setter.reps as nat == q.reps()
                    &&& x.setter.where_clause@ == q.filter_slots()
                    &&& x.setter.limit == q.limit_arg()
                    &&& x.setter.offset == q.offset_arg()
                    &&& x.count == q.slots().len()
                }
            } else {
                r == Err::<Rendered, SqlError>(SqlError::TooManyPlaceholders)
            },
        },
{
    match q.check(1) {
        Ok(()) => {},
        Err(e) => {
            return Err(e);
        },
    }
    let count = match q.count() {
        Some(n) => n,
        None => {
            return Err(SqlError::TooManyPlaceholders);
        },
    };
    if count == usize::MAX {
        return Err(SqlError::TooManyPlaceholders);
    }
    let mut sql = String::new();
    let (done, _) = q.push_sql(&mut sql, 1);
    match done.into_types() {
        Ok((getter, setter)) => Ok(Rendered { sql, getter, setter, count }),
        Err(e) => Err(e),
    }
}

} // verus!

verus! {

/// The shape `slots` takes once `vals` are given for its argument slots at build time:
/// every slot becomes fixed to the value it would be bound to. When `vals` do not fit, the
/// shape is left as it is.
pub open spec fn fixed_slots(slots: Seq<Slot>, vals: Seq<SqlValue>) -> Seq<Slot> {
    match bind_row(slots, vals) {
        Some(b) => b.map_values(|v: SqlValue| Slot::Fixed(v)),
        None => slots,
    }
}

/// Fixing values keeps the number of slots.
pub proof fn lemma_fixed_len(slots: Seq<Slot>, vals: Seq<SqlValue>)
    ensures
        fixed_slots(slots, vals).len() == slots.len(),
{
    if bind_row(slots, vals) is Some {
        lemma_bind_row_fills(slots, vals);
    }
}

/// Appends `fixed_slots(slots, vals)`.
pub fn push_fixed(slots: &Vec<Slot>, vals: &Vec<SqlValue>, out: &mut Vec<Slot>)
    ensures
        final(out)@ == old(out)@ + fixed_slots(slots@, vals@),
{
    let mut bound: Vec<SqlValue> = Vec::new();
    let ok = push_row(slots, vals, &mut bound);
    if ok {
        let ghost b = bind_row(slots@, vals@).unwrap();
        assert(bound@ =~= b);
        let mut i: usize = 0;
        while i < bound.len()
            invariant
                i <= bound@.len(),
                bound@ == b,
                out@ == old(out)@ + b.map_values(|v: SqlValue| Slot::Fixed(v)).subrange(0, i as int),
            decreases bound@.len() - i,
        {
            out.push(Slot::Fixed(bound[i].duplicate()));
            i = i + 1;
            assert(out@ =~= old(out)@ + b.map_values(|v: SqlValue| Slot::Fixed(v)).subrange(
                0,
                i as int,
            ));
        }
        assert(b.map_values(|v: SqlValue| Slot::Fixed(v)).subrange(0, i as int) =~= b.map_values(
            |v: SqlValue| Slot::Fixed(v),
        ));
    } else {
        let mut i: usize = 0;
        while i < slots.len()
            invariant
                i <= slots@.len(),
                out@ == old(out)@ + slots@.subrange(0, i as int),
            decreases slots@.len() - i,
        {
            out.push(slots[i].duplicate());
            i = i + 1;
            assert(out@ =~= old(out)@ + slots@.subrange(0, i as int));
        }
        assert(slots@.subrange(0, i as int) =~= slots@);
    }
}

} // verus!
