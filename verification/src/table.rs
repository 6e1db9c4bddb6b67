//! The mathematical model of a table: a sequence of rows, each with an
//! identifier, in the order in which the rows were created.

use vstd::prelude::*;

verus! {

/// A row of a table: an identifier and what is stored under it.
#[verifier::ext_equal]
pub struct Row<D> {
    pub id: int,
    pub data: D,
}

/// Whether the identifiers of the rows are positive, fit an `i64` and grow
/// from each row to the next. No identifier then occurs twice.
pub open spec fn ascending<D>(rows: Seq<Row<D>>) -> bool {
    &&& forall|i: int| 0 <= i < rows.len() ==> 1 <= (#[trigger] rows[i]).id <= i64::MAX
    &&& forall|i: int, j: int|
        0 <= i < j < rows.len() ==> (#[trigger] rows[i]).id < (#[trigger] rows[j]).id
}

/// Whether the table has a row with this identifier.
pub open spec fn holds<D>(rows: Seq<Row<D>>, id: int) -> bool {
    exists|i: int| 0 <= i < rows.len() && (#[trigger] rows[i]).id == id
}

/// The place of the row with this identifier, where the table has one.
pub open spec fn index_of<D>(rows: Seq<Row<D>>, id: int) -> int {
    choose|i: int| 0 <= i < rows.len() && (#[trigger] rows[i]).id == id
}

/// The row with this identifier, if the table has one.
pub open spec fn find<D>(rows: Seq<Row<D>>, id: int) -> Option<Row<D>> {
    if holds(rows, id) {
        Some(rows[index_of(rows, id)])
    } else {
        None
    }
}

/// The identifier that the next new row gets: one more than the last. As no
/// row is ever removed, it has never been used before.
pub open spec fn next_id<D>(rows: Seq<Row<D>>) -> int {
    if rows.len() == 0 {
        1
    } else {
        rows.last().id + 1
    }
}

/// The table with one more row, which holds `data` under the next
/// identifier.
pub open spec fn insert<D>(rows: Seq<Row<D>>, data: D) -> Seq<Row<D>> {
    rows.push(Row { id: next_id(rows), data })
}

/// The table with `data` stored under `id` in place of what was there.
pub open spec fn replace<D>(rows: Seq<Row<D>>, id: int, data: D) -> Seq<Row<D>> {
    rows.update(index_of(rows, id), Row { id, data })
}

/// In a table with ascending identifiers a row is found at its own place.
pub proof fn lemma_index_of<D>(rows: Seq<Row<D>>, i: int)
    requires
        ascending(rows),
        0 <= i < rows.len(),
    ensures
        holds(rows, rows[i].id),
        index_of(rows, rows[i].id) == i,
        find(rows, rows[i].id) == Some(rows[i]),
{
    let j = index_of(rows, rows[i].id);
    assert(0 <= j < rows.len() && rows[j].id == rows[i].id);
    if j < i {
        assert(rows[j].id < rows[i].id);
    } else if i < j {
        assert(rows[i].id < rows[j].id);
    }
}

/// A new row gets an identifier that the table did not hold. The row is
/// found under it afterwards, every other row is found as before, and the
/// identifiers are still ascending.
pub proof fn lemma_insert<D>(rows: Seq<Row<D>>, data: D)
    requires
        ascending(rows),
        next_id(rows) <= i64::MAX,
    ensures
        1 <= next_id(rows),
        !holds(rows, next_id(rows)),
        ascending(insert(rows, data)),
        find(insert(rows, data), next_id(rows)) == Some(Row { id: next_id(rows), data }),
        forall|other: int|
            other != next_id(rows) ==> #[trigger] find(insert(rows, data), other) == find(
                rows,
                other,
            ),
{
    let id = next_id(rows);
    let longer = insert(rows, data);
    assert forall|i: int| 0 <= i < rows.len() implies (#[trigger] rows[i]).id < id by {
        if i < rows.len() - 1 {
            assert(rows[i].id < rows[rows.len() - 1].id);
        }
    }
    assert(ascending(longer));
    lemma_index_of(longer, rows.len() as int);
    assert forall|other: int| other != id implies #[trigger] find(longer, other) == find(
        rows,
        other,
    ) by {
        if holds(rows, other) {
            let i = index_of(rows, other);
            lemma_index_of(rows, i);
            assert(longer[i] == rows[i]);
            lemma_index_of(longer, i);
        } else if holds(longer, other) {
            let i = index_of(longer, other);
            assert(rows[i].id == other);
        }
    }
}

/// New content under an identifier of the table changes that row and no
/// other, and leaves the identifiers as they were.
pub proof fn lemma_replace<D>(rows: Seq<Row<D>>, id: int, data: D)
    requires
        ascending(rows),
        holds(rows, id),
    ensures
        ascending(replace(rows, id, data)),
        replace(rows, id, data).len() == rows.len(),
        find(replace(rows, id, data), id) == Some(Row { id, data }),
        forall|other: int|
            other != id ==> #[trigger] find(replace(rows, id, data), other) == find(rows, other),
        forall|other: int| #[trigger] holds(replace(rows, id, data), other) == holds(rows, other),
{
    let i = index_of(rows, id);
    let changed = replace(rows, id, data);
    assert forall|k: int| 0 <= k < rows.len() implies (#[trigger] changed[k]).id == rows[k].id by {}
    assert(ascending(changed)) by {
        assert forall|a: int, b: int| 0 <= a < b < changed.len() implies (#[trigger] changed[a]).id
            < (#[trigger] changed[b]).id by {
            assert(rows[a].id < rows[b].id);
        }
    }
    lemma_index_of(changed, i);
    assert forall|other: int| #[trigger] holds(changed, other) == holds(rows, other) by {
        if holds(rows, other) {
            let k = index_of(rows, other);
            assert(changed[k].id == other);
        }
        if holds(changed, other) {
            let k = index_of(changed, other);
            assert(rows[k].id == other);
        }
    }
    assert forall|other: int| other != id implies #[trigger] find(changed, other) == find(
        rows,
        other,
    ) by {
        if holds(rows, other) {
            let k = index_of(rows, other);
            lemma_index_of(rows, k);
            assert(changed[k] == rows[k]);
            lemma_index_of(changed, k);
        }
    }
}

/// A value that stands for a row of a table.
pub trait Record: Sized {
    /// What a row of this kind holds besides its identifier.
    type Content;

    /// The row that the value stands for.
    spec fn row(&self) -> Row<Self::Content>;

    /// The identifier of the row.
    fn key(&self) -> (id: i64)
        ensures
            id == self.row().id,
    ;

    /// A copy of the value: it stands for the same row.
    fn duplicate(&self) -> (copy: Self)
        ensures
            copy.row() == self.row(),
    ;
}

/// The rows that a list of values stands for.
pub open spec fn rows_of<T: Record>(list: Seq<T>) -> Seq<Row<T::Content>> {
    list.map_values(|value: T| value.row())
}

/// A table in memory: its rows in the order of their identifiers.
pub(crate) struct Table<T> {
    rows: Vec<T>,
}

impl<T: Record> View for Table<T> {
    type V = Seq<Row<T::Content>>;

    closed spec fn view(&self) -> Seq<Row<T::Content>> {
        rows_of(self.rows@)
    }
}

impl<T: Record> Table<T> {
    /// The invariant of the type.
    pub open spec fn wf(&self) -> bool {
        ascending(self@)
    }

    /// A table without rows.
    pub fn new() -> (table: Table<T>)
        ensures
            table.wf(),
            table@ == Seq::<Row<T::Content>>::empty(),
    {
        let table = Table { rows: Vec::new() };
        assert(table@ =~= Seq::<Row<T::Content>>::empty());
        table
    }

    /// The table of the given rows, if their identifiers are ascending.
    pub fn load(rows: Vec<T>) -> (table: Option<Table<T>>)
        ensures
            table is Some <==> ascending(rows_of(rows@)),
            table is Some ==> table.unwrap().wf() && table.unwrap()@ == rows_of(rows@),
    {
        let ghost all = rows_of(rows@);
        let mut i: usize = 0;
        while i < rows.len()
            invariant
                i <= rows.len(),
                all == rows_of(rows@),
                ascending(all.take(i as int)),
            decreases rows.len() - i,
        {
            let id = rows[i].key();
            if id < 1 {
                assert(!(1 <= all[i as int].id));
                return None;
            }
            if i > 0 && rows[i - 1].key() >= id {
                assert(!(all[i - 1].id < all[i as int].id));
                return None;
            }
            proof {
                let shorter = all.take(i as int);
                let longer = all.take(i + 1);
                assert forall|a: int, b: int| 0 <= a < b < longer.len() implies (
                #[trigger] longer[a]).id < (#[trigger] longer[b]).id by {
                    if b < i {
                        assert(shorter[a].id < shorter[b].id);
                    } else if a < i - 1 {
                        assert(shorter[a].id < shorter[i - 1].id);
                    }
                }
                assert forall|a: int| 0 <= a < longer.len() implies 1 <= (#[trigger] longer[a]).id
                    <= i64::MAX by {
                    if a < i {
                        assert(1 <= shorter[a].id);
                    }
                }
            }
            i += 1;
        }
        assert(all.take(i as int) =~= all);
        Some(Table { rows })
    }

    /// The number of rows.
    pub fn len(&self) -> (n: usize)
        ensures
            n == self@.len(),
    {
        self.rows.len()
    }

    /// The row at a place.
    pub fn at(&self, place: usize) -> (value: &T)
        requires
            place < self@.len(),
        ensures
            value.row() == self@[place as int],
    {
        &self.rows[place]
    }

    /// The place of the row with this identifier, if the table has one.
    pub fn find(&self, id: i64) -> (place: Option<usize>)
        requires
            self.wf(),
        ensures
            place is Some <==> holds(self@, id as int),
            place is Some ==> place.unwrap() == index_of(self@, id as int),
            place is Some ==> place.unwrap() < self@.len(),
    {
        let mut i: usize = 0;
        while i < self.rows.len()
            invariant
                i <= self.rows.len(),
                self.wf(),
                forall|k: int| 0 <= k < i ==> (#[trigger] self@[k]).id != id,
            decreases self.rows.len() - i,
        {
            if self.rows[i].key() == id {
                proof {
                    lemma_index_of(self@, i as int);
                }
                return Some(i);
            }
            i += 1;
        }
        None
    }

    /// A copy of the row with this identifier, if the table has one.
    pub fn get(&self, id: i64) -> (value: Option<T>)
        requires
            self.wf(),
        ensures
            match find(self@, id as int) {
                Some(row) => value is Some && value.unwrap().row() == row,
                None => value is None,
            },
    {
        match self.find(id) {
            Some(place) => Some(self.rows[place].duplicate()),
            None => None,
        }
    }

    /// Copies of all rows, in the order of the table.
    pub fn all(&self) -> (values: Vec<T>)
        ensures
            rows_of(values@) == self@,
    {
        let mut values: Vec<T> = Vec::new();
        let mut i: usize = 0;
        while i < self.rows.len()
            invariant
                i <= self.rows.len(),
                values@.len() == i,
                forall|k: int| 0 <= k < i ==> (#[trigger] values@[k]).row() == self@[k],
            decreases self.rows.len() - i,
        {
            values.push(self.rows[i].duplicate());
            i += 1;
        }
        assert(rows_of(values@) =~= self@);
        values
    }

    /// The identifier that the next new row gets, if one is left.
    pub fn next_id(&self) -> (id: Option<i64>)
        requires
            self.wf(),
        ensures
            match id {
                Some(id) => id == next_id(self@),
                None => next_id(self@) > i64::MAX,
            },
    {
        let count = self.rows.len();
        if count == 0 {
            Some(1)
        } else {
            let last = self.rows[count - 1].key();
            assert(last == self@[count - 1].id);
            if last == i64::MAX {
                None
            } else {
                Some(last + 1)
            }
        }
    }

    /// Appends a row that bears the next identifier.
    pub fn push(&mut self, value: T)
        requires
            old(self).wf(),
            value.row().id == next_id(old(self)@),
            next_id(old(self)@) <= i64::MAX,
        ensures
            final(self).wf(),
            final(self)@ == insert(old(self)@, value.row().data),
    {
        proof {
            lemma_insert(self@, value.row().data);
        }
        self.rows.push(value);
        assert(self@ =~= insert(old(self)@, value.row().data));
    }

    /// Puts a value in the place of another that bears the same identifier.
    pub fn set(&mut self, place: usize, value: T)
        requires
            old(self).wf(),
            place < old(self)@.len(),
            value.row().id == old(self)@[place as int].id,
        ensures
            final(self).wf(),
            final(self)@ == old(self)@.update(place as int, value.row()),
            final(self)@ == replace(old(self)@, value.row().id, value.row().data),
    {
        proof {
            lemma_index_of(self@, place as int);
            lemma_replace(self@, value.row().id, value.row().data);
        }
        self.rows[place] = value;
        assert(self@ =~= old(self)@.update(place as int, value.row()));
    }
}

} // verus!
