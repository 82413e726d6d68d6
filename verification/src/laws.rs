//! The laws the service keeps, stated over the table model and the boundary
//! outcome functions that every adapter contract is written with, and proved
//! once for all states and inputs.

use vstd::prelude::*;
use crate::task_table::{TableModel, created_row, has_id, idx_of, lemma_idx_of_unique, patched_row,
    row_with_id, rows_wf, spec_delete, spec_insert, spec_update, table_wf};
use crate::todo_dto::UpdateModel;
use crate::todo_entity::{CreateModel, PatchModel, task_view_of};
use crate::todo_usecase::{boundary_create_ok, boundary_create_table, boundary_delete_ok,
    boundary_delete_table, boundary_get_ok, boundary_update_ok, boundary_update_table};

verus! {

/// An insert into a well-formed table leaves a well-formed table.
pub proof fn lemma_insert_wf(t: TableModel, c: CreateModel, now: Seq<char>)
    requires
        table_wf(t),
        c.valid(),
        t.next_id < i32::MAX,
    ensures
        table_wf(spec_insert(t, c, now)),
{
    let t2 = spec_insert(t, c, now);
    assert forall|i: int| 0 <= i < t2.rows.len() implies 1 <= (#[trigger] t2.rows[i]).id
        < t2.next_id by {
        if i < t.rows.len() {
            assert(t2.rows[i] == t.rows[i]);
        }
    }
    assert forall|i: int, j: int| 0 <= i < j < t2.rows.len() implies t2.rows[i].id
        < t2.rows[j].id by {
        assert(t2.rows[i] == t.rows[i]);
        if j < t.rows.len() {
            assert(t2.rows[j] == t.rows[j]);
        }
    }
    assert forall|i: int|
        0 <= i < t2.rows.len() implies (#[trigger] t2.rows[i]).title.len() > 0
        && t2.rows[i].description.len() > 0 by {
        if i < t.rows.len() {
            assert(t2.rows[i] == t.rows[i]);
        }
    }
}

/// A patch of a present row leaves a well-formed table.
pub proof fn lemma_update_wf(t: TableModel, id: int, p: PatchModel, now: Seq<char>)
    requires
        table_wf(t),
        p.valid(),
        has_id(t.rows, id),
    ensures
        table_wf(spec_update(t, id, p, now)),
{
    let t2 = spec_update(t, id, p, now);
    let k = idx_of(t.rows, id);
    assert(0 <= k < t.rows.len() && t.rows[k].id == id);
    assert forall|i: int|
        0 <= i < t2.rows.len() implies 1 <= (#[trigger] t2.rows[i]).id < t2.next_id
        && t2.rows[i].title.len() > 0 && t2.rows[i].description.len() > 0 by {
        if i != k {
            assert(t2.rows[i] == t.rows[i]);
        }
    }
    assert forall|i: int, j: int| 0 <= i < j < t2.rows.len() implies t2.rows[i].id
        < t2.rows[j].id by {
        assert(t2.rows[i].id == t.rows[i].id);
        assert(t2.rows[j].id == t.rows[j].id);
    }
}

/// Law: a valid create yields a view whose identifier is assigned and
/// non-empty (at least 1), and a get with that identifier finds a row with
/// the very title, description and completion flag that were sent.
pub proof fn lemma_create_then_get(t: TableModel, can: bool, c: CreateModel, now: Seq<char>)
    requires
        table_wf(t),
        boundary_create_ok(t, can, c),
    ensures
        ({
            let row = created_row(t, c, now);
            let t2 = boundary_create_table(t, can, c, now);
            &&& task_view_of(row).id >= 1
            &&& table_wf(t2)
            &&& has_id(t2.rows, row.id)
            &&& boundary_get_ok(t2, can, row.id)
            &&& row_with_id(t2.rows, row.id) == row
            &&& row.title == c.title
            &&& row.description == c.description
            &&& row.is_done == c.is_done
        }),
{
    let row = created_row(t, c, now);
    let t2 = boundary_create_table(t, can, c, now);
    lemma_insert_wf(t, c, now);
    assert(t2.rows[t.rows.len() as int] == row);
    lemma_idx_of_unique(t2.rows, t2.next_id, row.id, t.rows.len() as int);
}

/// Law: an update patches exactly the present fields of the addressed row,
/// keeps every omitted field and every other row, and an empty patch is a
/// no-op on content — it changes no identifier, text, flag or creation stamp.
pub proof fn lemma_update_partial(t: TableModel, id: int, p: PatchModel, now: Seq<char>)
    requires
        table_wf(t),
        p.valid(),
        has_id(t.rows, id),
    ensures
        ({
            let prev = row_with_id(t.rows, id);
            let t2 = spec_update(t, id, p, now);
            let cur = row_with_id(t2.rows, id);
            &&& table_wf(t2)
            &&& t2.rows.len() == t.rows.len()
            &&& has_id(t2.rows, id)
            &&& cur == patched_row(prev, p, now)
            &&& cur.id == prev.id
            &&& cur.created_at == prev.created_at
            &&& (p.title is None ==> cur.title == prev.title)
            &&& (p.description is None ==> cur.description == prev.description)
            &&& (p.is_done is None ==> cur.is_done == prev.is_done)
            &&& (p.title matches Some(tl) ==> cur.title == tl)
            &&& (p.description matches Some(d) ==> cur.description == d)
            &&& (p.is_done matches Some(b) ==> cur.is_done == b)
            &&& forall|j: int|
                0 <= j < t.rows.len() && j != idx_of(t.rows, id) ==> t2.rows[j] == t.rows[j]
        }),
{
    let t2 = spec_update(t, id, p, now);
    let k = idx_of(t.rows, id);
    assert(0 <= k < t.rows.len() && t.rows[k].id == id);
    lemma_update_wf(t, id, p, now);
    assert(t2.rows[k].id == id);
    lemma_idx_of_unique(t2.rows, t2.next_id, id, k);
}

/// Law: an update or delete addressed to an identifier no row carries fails
/// at every boundary and never mutates storage.
pub proof fn lemma_missing_id_never_mutates(
    t: TableModel,
    can: bool,
    u: UpdateModel,
    id: int,
    now: Seq<char>,
)
    requires
        !has_id(t.rows, u.id),
        !has_id(t.rows, id),
    ensures
        boundary_update_table(t, can, u, now) == t,
        !boundary_update_ok(t, can, u),
        boundary_delete_table(t, can, id) == t,
        !boundary_delete_ok(t, can, id),
{
}

/// Law: after a delete of an identifier, a get with the same identifier finds
/// nothing.
pub proof fn lemma_delete_then_get(t: TableModel, can: bool, id: int)
    requires
        table_wf(t),
        can,
        has_id(t.rows, id),
    ensures
        ({
            let t2 = boundary_delete_table(t, can, id);
            &&& !has_id(t2.rows, id)
            &&& !boundary_get_ok(t2, can, id)
        }),
{
    let t2 = spec_delete(t, id);
    let k = idx_of(t.rows, id);
    assert(0 <= k < t.rows.len() && t.rows[k].id == id);
    assert forall|j: int| 0 <= j < t2.rows.len() implies (#[trigger] t2.rows[j]).id != id by {
        if j < k {
            assert(t2.rows[j] == t.rows[j]);
            assert(t.rows[j].id < t.rows[k].id);
        } else {
            assert(t2.rows[j] == t.rows[j + 1]);
            assert(t.rows[k].id < t.rows[j + 1].id);
        }
    }
    assert(boundary_delete_table(t, can, id) == t2);
}

/// Law (cross-transport consistency, create): the HTTP handler's contract and
/// the tool handler's contract pin the next table and the success condition
/// to the same outcome functions, so for the same state and arguments the two
/// transports agree.
pub proof fn lemma_transport_equivalence_create(
    t: TableModel,
    can: bool,
    c: CreateModel,
    now: Seq<char>,
    http_table: TableModel,
    http_ok: bool,
    tool_table: TableModel,
    tool_ok: bool,
)
    requires
        http_table == boundary_create_table(t, can, c, now),
        http_ok == boundary_create_ok(t, can, c),
        tool_table == boundary_create_table(t, can, c, now),
        tool_ok == boundary_create_ok(t, can, c),
    ensures
        http_table == tool_table,
        http_ok == tool_ok,
{
}

/// Law (cross-transport consistency, update): as for create.
pub proof fn lemma_transport_equivalence_update(
    t: TableModel,
    can: bool,
    u: UpdateModel,
    now: Seq<char>,
    http_table: TableModel,
    http_ok: bool,
    tool_table: TableModel,
    tool_ok: bool,
)
    requires
        http_table == boundary_update_table(t, can, u, now),
        http_ok == boundary_update_ok(t, can, u),
        tool_table == boundary_update_table(t, can, u, now),
        tool_ok == boundary_update_ok(t, can, u),
    ensures
        http_table == tool_table,
        http_ok == tool_ok,
{
}

/// Law (cross-transport consistency, delete): as for create.
pub proof fn lemma_transport_equivalence_delete(
    t: TableModel,
    can: bool,
    id: int,
    http_table: TableModel,
    http_ok: bool,
    tool_table: TableModel,
    tool_ok: bool,
)
    requires
        http_table == boundary_delete_table(t, can, id),
        http_ok == boundary_delete_ok(t, can, id),
        tool_table == boundary_delete_table(t, can, id),
        tool_ok == boundary_delete_ok(t, can, id),
    ensures
        http_table == tool_table,
        http_ok == tool_ok,
{
}

} // verus!
