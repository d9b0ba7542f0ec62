//! Ordered tables keyed by name, as sequences of rows. Where a name has
//! several rows the first one counts.

use vstd::prelude::*;

verus! {

/// The first row of `table` named `name`, or `table.len()` when no row is.
pub open spec fn row_of<V>(table: Seq<(Seq<char>, V)>, name: Seq<char>) -> int
    decreases table.len(),
{
    if table.len() == 0 {
        0
    } else if table[0].0 == name {
        0
    } else {
        1 + row_of(table.drop_first(), name)
    }
}

/// What `name` resolves to in `table`: the value of its first row.
pub open spec fn resolve<V>(table: Seq<(Seq<char>, V)>, name: Seq<char>) -> Option<V> {
    let row = row_of(table, name);
    if row < table.len() {
        Some(table[row].1)
    } else {
        None
    }
}

/// `table` with the first row of `name` given `value`; `table` itself when
/// it has no such row.
pub open spec fn redirect<V>(table: Seq<(Seq<char>, V)>, name: Seq<char>, value: V) -> Seq<
    (Seq<char>, V),
> {
    let row = row_of(table, name);
    if row < table.len() {
        table.update(row, (name, value))
    } else {
        table
    }
}

/// `table` with `name` bound to `value`: in place where it has a row, in a
/// new last row where it has none.
pub open spec fn bind<V>(table: Seq<(Seq<char>, V)>, name: Seq<char>, value: V) -> Seq<
    (Seq<char>, V),
> {
    let row = row_of(table, name);
    if row < table.len() {
        table.update(row, (name, value))
    } else {
        table.push((name, value))
    }
}

/// The first row of a name lies within the table or at its end, carries the
/// name where it lies within, and has no row of the name before it.
pub proof fn lemma_row_of<V>(table: Seq<(Seq<char>, V)>, name: Seq<char>)
    ensures
        0 <= row_of(table, name) <= table.len(),
        row_of(table, name) < table.len() ==> table[row_of(table, name)].0 == name,
        forall|j: int| 0 <= j < row_of(table, name) ==> (#[trigger] table[j]).0 != name,
    decreases table.len(),
{
    if table.len() != 0 && table[0].0 != name {
        let rest = table.drop_first();
        lemma_row_of(rest, name);
        assert forall|j: int| 0 <= j < row_of(table, name) implies (#[trigger] table[j]).0
            != name by {
            if j > 0 {
                assert(rest[j - 1] == table[j]);
            }
        }
    }
}

/// A row that carries `name` and has none before it is the first row of `name`.
pub proof fn lemma_row_of_is<V>(table: Seq<(Seq<char>, V)>, name: Seq<char>, row: int)
    requires
        0 <= row <= table.len(),
        row < table.len() ==> table[row].0 == name,
        forall|j: int| 0 <= j < row ==> (#[trigger] table[j]).0 != name,
    ensures
        row_of(table, name) == row,
{
    lemma_row_of(table, name);
    let found = row_of(table, name);
    if found < row {
        assert(table[found].0 == name);
    }
}

/// A redirected name resolves to the new value, every other name resolves
/// as before, and the table keeps its length.
pub proof fn lemma_redirect_resolves<V>(
    table: Seq<(Seq<char>, V)>,
    name: Seq<char>,
    value: V,
    other: Seq<char>,
)
    requires
        resolve(table, name) is Some,
    ensures
        redirect(table, name, value).len() == table.len(),
        resolve(redirect(table, name, value), name) == Some(value),
        other != name ==> resolve(redirect(table, name, value), other) == resolve(table, other),
{
    let row = row_of(table, name);
    let after = redirect(table, name, value);
    lemma_row_of(table, name);
    lemma_row_of_is(after, name, row);
    lemma_row_of(table, other);
    if other != name {
        let other_row = row_of(table, other);
        assert(other_row != row);
        lemma_row_of_is(after, other, other_row);
    }
}

/// A bound name resolves to the value it was bound to, and every other name
/// resolves as before.
pub proof fn lemma_bind_resolves<V>(
    table: Seq<(Seq<char>, V)>,
    name: Seq<char>,
    value: V,
    other: Seq<char>,
)
    ensures
        resolve(bind(table, name, value), name) == Some(value),
        other != name ==> resolve(bind(table, name, value), other) == resolve(table, other),
{
    let row = row_of(table, name);
    let after = bind(table, name, value);
    lemma_row_of(table, name);
    lemma_row_of(table, other);
    if row < table.len() {
        lemma_redirect_resolves(table, name, value, other);
    } else {
        lemma_row_of_is(after, name, row);
        if other != name {
            let other_row = row_of(table, other);
            if other_row < table.len() {
                lemma_row_of_is(after, other, other_row);
            } else {
                assert forall|j: int| 0 <= j < after.len() implies (#[trigger] after[j]).0
                    != other by {
                    if j < table.len() {
                        assert(after[j] == table[j]);
                    }
                }
                lemma_row_of_is(after, other, after.len() as int);
            }
        }
    }
}

} // verus!
