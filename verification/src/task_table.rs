//! The persisted task table: a single logical table of task rows keyed by an
//! auto-assigned integer identifier. The table assigns identifiers
//! monotonically, stamps rows with the supplied clock text, applies partial
//! patches, and answers the aggregate counts. Every operation is specified by
//! a transition function on the table model.

use vstd::prelude::*;
use vstd::string::*;
use crate::todo_entity::{CreateModel, EntryTodoEntity, NewTodoEntity, PatchModel, TaskModel,
    UpdateTodoEntity};

verus! {

/// Model of the whole table: the rows in storage order and the next
/// identifier the backend will assign.
pub ghost struct TableModel {
    pub rows: Seq<TaskModel>,
    pub next_id: int,
}

/// The model of the empty table.
pub open spec fn empty_table() -> TableModel {
    TableModel { rows: Seq::empty(), next_id: 1 }
}

/// Well-formedness of the rows against a bound on assigned identifiers:
/// identifiers are at least 1, below the bound, strictly increasing in
/// storage order (hence unique), and no row has empty text.
pub open spec fn rows_wf(rows: Seq<TaskModel>, next_id: int) -> bool {
    &&& forall|i: int| 0 <= i < rows.len() ==> 1 <= (#[trigger] rows[i]).id < next_id
    &&& forall|i: int, j: int| 0 <= i < j < rows.len() ==> rows[i].id < rows[j].id
    &&& forall|i: int|
        0 <= i < rows.len() ==> (#[trigger] rows[i]).title.len() > 0
            && rows[i].description.len() > 0
}

/// Well-formedness of the table.
pub open spec fn table_wf(t: TableModel) -> bool {
    &&& 1 <= t.next_id <= i32::MAX
    &&& t.rows.len() < t.next_id
    &&& rows_wf(t.rows, t.next_id)
}

/// Whether some row carries the identifier.
pub open spec fn has_id(rows: Seq<TaskModel>, id: int) -> bool {
    exists|i: int| 0 <= i < rows.len() && (#[trigger] rows[i]).id == id
}

/// The position of the row carrying the identifier (unique in a well-formed
/// table).
pub open spec fn idx_of(rows: Seq<TaskModel>, id: int) -> int {
    choose|i: int| 0 <= i < rows.len() && (#[trigger] rows[i]).id == id
}

/// The row carrying the identifier.
pub open spec fn row_with_id(rows: Seq<TaskModel>, id: int) -> TaskModel {
    rows[idx_of(rows, id)]
}

/// The row an insert produces: the next identifier, the request's content,
/// both timestamps set to the clock text.
pub open spec fn created_row(t: TableModel, c: CreateModel, now: Seq<char>) -> TaskModel {
    TaskModel {
        id: t.next_id,
        title: c.title,
        description: c.description,
        is_done: c.is_done,
        created_at: Some(now),
        updated_at: Some(now),
    }
}

/// The table after an insert.
pub open spec fn spec_insert(t: TableModel, c: CreateModel, now: Seq<char>) -> TableModel {
    TableModel { rows: t.rows.push(created_row(t, c, now)), next_id: t.next_id + 1 }
}

/// One row after a partial patch: present fields replace the old values,
/// absent fields keep them; the updated timestamp is refreshed, everything
/// else is untouched.
pub open spec fn patched_row(r: TaskModel, p: PatchModel, now: Seq<char>) -> TaskModel {
    TaskModel {
        id: r.id,
        title: match p.title {
            Some(tl) => tl,
            None => r.title,
        },
        description: match p.description {
            Some(d) => d,
            None => r.description,
        },
        is_done: match p.is_done {
            Some(b) => b,
            None => r.is_done,
        },
        created_at: r.created_at,
        updated_at: Some(now),
    }
}

/// The table after patching the row with the identifier (meaningful when the
/// identifier is present).
pub open spec fn spec_update(t: TableModel, id: int, p: PatchModel, now: Seq<char>) -> TableModel {
    TableModel {
        rows: t.rows.update(idx_of(t.rows, id), patched_row(row_with_id(t.rows, id), p, now)),
        next_id: t.next_id,
    }
}

/// The table after deleting the row with the identifier (meaningful when the
/// identifier is present).
pub open spec fn spec_delete(t: TableModel, id: int) -> TableModel {
    TableModel { rows: t.rows.remove(idx_of(t.rows, id)), next_id: t.next_id }
}

/// How many rows have the given completion flag.
pub open spec fn count_flag(rows: Seq<TaskModel>, done: bool) -> int
    decreases rows.len(),
{
    if rows.len() == 0 {
        0
    } else {
        count_flag(rows.drop_last(), done) + if rows.last().is_done == done {
            1int
        } else {
            0int
        }
    }
}

/// The completed and the incomplete rows together are all the rows.
pub proof fn lemma_count_flag_partition(rows: Seq<TaskModel>)
    ensures
        count_flag(rows, true) + count_flag(rows, false) == rows.len(),
    decreases rows.len(),
{
    if rows.len() > 0 {
        lemma_count_flag_partition(rows.drop_last());
    }
}

/// A count never exceeds the number of rows and is never negative.
pub proof fn lemma_count_flag_bounds(rows: Seq<TaskModel>, done: bool)
    ensures
        0 <= count_flag(rows, done) <= rows.len(),
    decreases rows.len(),
{
    if rows.len() > 0 {
        lemma_count_flag_bounds(rows.drop_last(), done);
    }
}

/// In a strictly ordered row sequence the matching position is unique, so the
/// chosen index is the found one.
pub proof fn lemma_idx_of_unique(rows: Seq<TaskModel>, next_id: int, id: int, k: int)
    requires
        rows_wf(rows, next_id),
        0 <= k < rows.len(),
        rows[k].id == id,
    ensures
        has_id(rows, id),
        idx_of(rows, id) == k,
        row_with_id(rows, id) == rows[k],
{
    assert(has_id(rows, id));
    let i = idx_of(rows, id);
    assert(0 <= i < rows.len() && rows[i].id == id);
    if i < k {
        assert(rows[i].id < rows[k].id);
    } else if k < i {
        assert(rows[k].id < rows[i].id);
    }
}

/// The model of a row vector.
pub open spec fn rows_model(v: Seq<EntryTodoEntity>) -> Seq<TaskModel> {
    v.map_values(|e: EntryTodoEntity| e@)
}

/// The task table itself. The executable state stands for the authoritative
/// storage the connection pool reaches.
pub struct TaskTable {
    rows: Vec<EntryTodoEntity>,
    next_id: i32,
}

impl View for TaskTable {
    type V = TableModel;

    closed spec fn view(&self) -> TableModel {
        TableModel { rows: rows_model(self.rows@), next_id: self.next_id as int }
    }
}

impl TaskTable {
    /// A fresh, empty table; the first assigned identifier is 1.
    pub fn new() -> (t: Self)
        ensures
            t@ == empty_table(),
            table_wf(t@),
    {
        let t = TaskTable { rows: Vec::new(), next_id: 1 };
        proof {
            assert(t@.rows =~= empty_table().rows);
        }
        t
    }

    /// Inserts a new row: the backend assigns the next identifier and both
    /// timestamps, and returns the stored row. Fails only when the identifier
    /// space is exhausted.
    pub fn insert_row(&mut self, entity: NewTodoEntity, now: &str) -> (r: Option<EntryTodoEntity>)
        requires
            table_wf(old(self)@),
            entity@.valid(),
        ensures
            table_wf(final(self)@),
            old(self)@.next_id < i32::MAX ==> (r matches Some(row) && row@ == created_row(
                old(self)@,
                entity@,
                now@,
            ) && final(self)@ == spec_insert(old(self)@, entity@, now@)),
            old(self)@.next_id == i32::MAX ==> r is None && final(self)@ == old(self)@,
    {
        if self.next_id == i32::MAX {
            return None;
        }
        let id = self.next_id;
        self.next_id = id + 1;
        let row = EntryTodoEntity {
            id,
            title: entity.title,
            description: entity.description,
            is_done: entity.is_done,
            created_at: Some(String::from_str(now)),
            updated_at: Some(String::from_str(now)),
        };
        let stored = row.clone();
        self.rows.push(stored);
        proof {
            let prev = old(self)@;
            assert(self@.rows =~= prev.rows.push(row@));
            assert(self@ == spec_insert(prev, entity@, now@));
            assert forall|i: int| 0 <= i < self@.rows.len() implies 1 <= (
            #[trigger] self@.rows[i]).id < self@.next_id by {
                if i < prev.rows.len() {
                    assert(prev.rows[i] == self@.rows[i]);
                }
            }
            assert forall|i: int, j: int| 0 <= i < j < self@.rows.len() implies self@.rows[i].id
                < self@.rows[j].id by {
                if j < prev.rows.len() {
                    assert(prev.rows[i] == self@.rows[i]);
                    assert(prev.rows[j] == self@.rows[j]);
                } else {
                    assert(prev.rows[i] == self@.rows[i]);
                    assert(self@.rows[j].id == prev.next_id);
                }
            }
            assert forall|i: int|
                0 <= i < self@.rows.len() implies (#[trigger] self@.rows[i]).title.len() > 0
                && self@.rows[i].description.len() > 0 by {
                if i < prev.rows.len() {
                    assert(prev.rows[i] == self@.rows[i]);
                }
            }
        }
        Some(row)
    }

    /// The position of the row carrying the identifier, if any.
    fn find_index(&self, id: i32) -> (r: Option<usize>)
        requires
            table_wf(self@),
        ensures
            match r {
                Some(k) => has_id(self@.rows, id as int) && k == idx_of(self@.rows, id as int)
                    && k < self@.rows.len(),
                None => !has_id(self@.rows, id as int),
            },
    {
        let n = self.rows.len();
        let mut k: usize = 0;
        while k < n
            invariant
                n == self.rows.len(),
                k <= n,
                table_wf(self@),
                forall|j: int| 0 <= j < k ==> (#[trigger] self@.rows[j]).id != id as int,
            decreases n - k,
        {
            if self.rows[k].id == id {
                proof {
                    lemma_idx_of_unique(self@.rows, self@.next_id, id as int, k as int);
                }
                return Some(k);
            }
            k = k + 1;
        }
        proof {
            assert forall|i: int|
                0 <= i < self@.rows.len() implies (#[trigger] self@.rows[i]).id != id as int by {}
        }
        None
    }

    /// The first row matching the identifier, as a copy; `None` when no row
    /// matches.
    pub fn first_by_id(&self, id: i32) -> (r: Option<EntryTodoEntity>)
        requires
            table_wf(self@),
        ensures
            match r {
                Some(row) => has_id(self@.rows, id as int) && row@ == row_with_id(
                    self@.rows,
                    id as int,
                ),
                None => !has_id(self@.rows, id as int),
            },
    {
        match self.find_index(id) {
            Some(k) => Some(self.rows[k].clone()),
            None => None,
        }
    }

    /// All rows in storage order, as copies.
    pub fn load_all(&self) -> (r: Vec<EntryTodoEntity>)
        requires
            table_wf(self@),
        ensures
            rows_model(r@) == self@.rows,
    {
        let n = self.rows.len();
        let mut out: Vec<EntryTodoEntity> = Vec::new();
        let mut k: usize = 0;
        while k < n
            invariant
                n == self.rows.len(),
                k <= n,
                out@.len() == k,
                forall|j: int| 0 <= j < k ==> (#[trigger] out@[j])@ == self@.rows[j],
            decreases n - k,
        {
            out.push(self.rows[k].clone());
            k = k + 1;
        }
        proof {
            assert(rows_model(out@) =~= self@.rows);
        }
        out
    }

    /// Applies a partial patch to the row with the identifier and refreshes
    /// its updated timestamp. Returns how many rows matched: 1, or 0 when the
    /// identifier is absent (and then nothing changes).
    pub fn update_row(&mut self, id: i32, patch: UpdateTodoEntity, now: &str) -> (n: usize)
        requires
            table_wf(old(self)@),
            patch@.valid(),
        ensures
            table_wf(final(self)@),
            has_id(old(self)@.rows, id as int) ==> n == 1 && final(self)@ == spec_update(
                old(self)@,
                id as int,
                patch@,
                now@,
            ),
            !has_id(old(self)@.rows, id as int) ==> n == 0 && final(self)@ == old(self)@,
    {
        let found = self.find_index(id);
        match found {
            None => 0,
            Some(k) => {
                let prev_row = self.rows.remove(k);
                let new_row = EntryTodoEntity {
                    id: prev_row.id,
                    title: match patch.title {
                        Some(tl) => tl,
                        None => prev_row.title,
                    },
                    description: match patch.description {
                        Some(d) => d,
                        None => prev_row.description,
                    },
                    is_done: match patch.is_done {
                        Some(b) => b,
                        None => prev_row.is_done,
                    },
                    created_at: prev_row.created_at,
                    updated_at: Some(String::from_str(now)),
                };
                self.rows.insert(k, new_row);
                proof {
                    let prev = old(self)@;
                    let ki = k as int;
                    assert(self@.rows =~= prev.rows.update(
                        ki,
                        patched_row(prev.rows[ki], patch@, now@),
                    ));
                    assert(self@ == spec_update(prev, id as int, patch@, now@));
                    assert forall|i: int|
                        0 <= i < self@.rows.len() implies 1 <= (#[trigger] self@.rows[i]).id
                        < self@.next_id && self@.rows[i].title.len() > 0
                        && self@.rows[i].description.len() > 0 by {
                        if i != ki {
                            assert(self@.rows[i] == prev.rows[i]);
                        }
                    }
                    assert forall|i: int, j: int| 0 <= i < j < self@.rows.len() implies self@.rows[i].id < self@.rows[j].id by {
                        assert(self@.rows[i].id == prev.rows[i].id);
                        assert(self@.rows[j].id == prev.rows[j].id);
                    }
                }
                1
            },
        }
    }

    /// Deletes the row with the identifier. Returns how many rows matched: 1,
    /// or 0 when the identifier is absent (and then nothing changes).
    pub fn delete_rows(&mut self, id: i32) -> (n: usize)
        requires
            table_wf(old(self)@),
        ensures
            table_wf(final(self)@),
            has_id(old(self)@.rows, id as int) ==> n == 1 && final(self)@ == spec_delete(
                old(self)@,
                id as int,
            ),
            !has_id(old(self)@.rows, id as int) ==> n == 0 && final(self)@ == old(self)@,
    {
        let found = self.find_index(id);
        match found {
            None => 0,
            Some(k) => {
                self.rows.remove(k);
                proof {
                    let prev = old(self)@;
                    let ki = k as int;
                    assert(self@.rows =~= prev.rows.remove(ki));
                    assert(self@ == spec_delete(prev, id as int));
                    assert forall|i: int|
                        0 <= i < self@.rows.len() implies 1 <= (#[trigger] self@.rows[i]).id
                        < self@.next_id && self@.rows[i].title.len() > 0
                        && self@.rows[i].description.len() > 0 by {
                        if i < ki {
                            assert(self@.rows[i] == prev.rows[i]);
                        } else {
                            assert(self@.rows[i] == prev.rows[i + 1]);
                        }
                    }
                    assert forall|i: int, j: int| 0 <= i < j < self@.rows.len() implies self@.rows[i].id < self@.rows[j].id by {
                        if i < ki && j < ki {
                        } else if i < ki {
                            assert(self@.rows[j] == prev.rows[j + 1]);
                        } else {
                            assert(self@.rows[i] == prev.rows[i + 1]);
                            assert(self@.rows[j] == prev.rows[j + 1]);
                        }
                    }
                }
                1
            },
        }
    }

    /// How many rows the table holds.
    pub fn count_rows(&self) -> (r: i64)
        requires
            table_wf(self@),
        ensures
            r == self@.rows.len(),
    {
        self.rows.len() as i64
    }

    /// How many rows have the given completion flag.
    pub fn count_flag_rows(&self, done: bool) -> (r: i64)
        requires
            table_wf(self@),
        ensures
            r == count_flag(self@.rows, done),
    {
        let n = self.rows.len();
        let mut acc: i64 = 0;
        let mut k: usize = 0;
        while k < n
            invariant
                n == self.rows.len(),
                k <= n,
                n == self@.rows.len(),
                n < 0x8000_0000,
                acc == count_flag(self@.rows.take(k as int), done),
                0 <= acc <= k,
                forall|j: int| 0 <= j < n ==> (#[trigger] self@.rows[j]) == self.rows@[j]@,
            decreases n - k,
        {
            proof {
                assert(self@.rows.take(k as int + 1).drop_last() =~= self@.rows.take(k as int));
                assert(self@.rows.take(k as int + 1).last() == self@.rows[k as int]);
            }
            if self.rows[k].is_done == done {
                acc = acc + 1;
            }
            k = k + 1;
        }
        proof {
            assert(self@.rows.take(n as int) =~= self@.rows);
        }
        acc
    }
}

} // verus!
