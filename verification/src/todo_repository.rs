//! The repository contract: one operation per business action, each acquiring
//! one pooled connection for its duration, surfacing storage failures as
//! typed errors with operation-specific context.

use vstd::prelude::*;
use crate::task_table::{TableModel, count_flag, created_row, has_id, patched_row, row_with_id,
    spec_delete, spec_insert, spec_update};
use crate::text::dec_int;
use crate::todo_dto::{ReqCreateTodoDto, ReqUpdateTodoDto, ResEntryTodoDto};
use crate::todo_entity::{CreateModel, TaskModel, TaskViewModel, task_view_of};

verus! {

/// The kind of a storage failure.
#[derive(Debug, Clone, Copy, PartialEq, Eq, Structural)]
pub enum RepoErrorKind {
    /// The backend is unreachable or the pool is exhausted.
    ConnectionError,
    /// The identifier has no matching row on update, get or delete.
    NotFoundError,
    /// Any other backend failure on insert, update or query.
    PersistenceError,
}

/// A storage failure wrapped with operation-specific context.
#[derive(Debug)]
pub struct RepositoryError {
    pub kind: RepoErrorKind,
    pub context: String,
}

/// Context attached when no pooled connection can be had.
pub open spec fn msg_pool() -> Seq<char> {
    "Failed to get DB connection from pool"@
}

/// Context attached when an insert fails in the backend.
pub open spec fn msg_insert_failed() -> Seq<char> {
    "Failed to insert new todo into database"@
}

/// Context attached when an update or delete matches no row.
pub open spec fn msg_no_item(id: int) -> Seq<char> {
    "No todo item found with id "@ + dec_int(id)
}

/// Context attached when a get matches no row.
pub open spec fn msg_get_not_found(id: int) -> Seq<char> {
    "Todo with id "@ + dec_int(id) + " not found"@
}

/// The outward views of a row sequence.
pub open spec fn views_of(rows: Seq<TaskModel>) -> Seq<TaskViewModel> {
    rows.map_values(|m: TaskModel| task_view_of(m))
}

/// The models of a sequence of outward views.
pub open spec fn dtos_model(v: Seq<ResEntryTodoDto>) -> Seq<TaskViewModel> {
    v.map_values(|d: ResEntryTodoDto| d@)
}

/// Whether a create can take effect on a table reached through a pool.
pub open spec fn create_possible(t: TableModel, can: bool) -> bool {
    can && t.next_id < i32::MAX
}

/// The table after a repository create.
pub open spec fn repo_create_table(t: TableModel, can: bool, c: CreateModel, now: Seq<char>) -> TableModel {
    if create_possible(t, can) {
        spec_insert(t, c, now)
    } else {
        t
    }
}

/// The table after a repository update.
pub open spec fn repo_update_table(
    t: TableModel,
    can: bool,
    id: int,
    p: crate::todo_entity::PatchModel,
    now: Seq<char>,
) -> TableModel {
    if can && has_id(t.rows, id) {
        spec_update(t, id, p, now)
    } else {
        t
    }
}

/// The table after a repository delete.
pub open spec fn repo_delete_table(t: TableModel, can: bool, id: int) -> TableModel {
    if can && has_id(t.rows, id) {
        spec_delete(t, id)
    } else {
        t
    }
}

/// The model every repository carries: the table its connections reach and
/// whether a connection can be had at all.
pub trait TodoStorageModel {
    /// The model of the stored table. The default leaves it unconstrained, as
    /// for an outside backend whose state this crate cannot see.
    open spec fn table(&self) -> TableModel {
        arbitrary()
    }

    /// Whether the backend can lend a connection.
    open spec fn can_connect(&self) -> bool {
        arbitrary()
    }

    /// Validity of the repository state.
    open spec fn inv(&self) -> bool {
        arbitrary()
    }
}

/// The write-and-read operations of the repository.
pub trait TodoOperationRepository: TodoStorageModel {
    /// Inserts a task and returns the stored row's outward view, identifier
    /// and timestamps assigned by storage.
    fn create_task(&mut self, dto: ReqCreateTodoDto, now: &str) -> (r: Result<
        ResEntryTodoDto,
        RepositoryError,
    >)
        requires
            old(self).inv(),
            dto@.valid(),
        ensures
            final(self).inv(),
            final(self).can_connect() == old(self).can_connect(),
            final(self).table() == repo_create_table(
                old(self).table(),
                old(self).can_connect(),
                dto@,
                now@,
            ),
            match r {
                Ok(v) => create_possible(old(self).table(), old(self).can_connect()) && v@
                    == task_view_of(created_row(old(self).table(), dto@, now@)),
                Err(e) => {
                    &&& !create_possible(old(self).table(), old(self).can_connect())
                    &&& !old(self).can_connect() ==> e.kind == RepoErrorKind::ConnectionError
                        && e.context@ == msg_pool()
                    &&& old(self).can_connect() ==> e.kind == RepoErrorKind::PersistenceError
                        && e.context@ == msg_insert_failed()
                },
            },
    ;

    /// Applies the present fields of the request as a partial patch to the
    /// row with the identifier, then re-reads and returns the post-update
    /// row's view.
    fn update_task(&mut self, task_id: i32, dto: ReqUpdateTodoDto, now: &str) -> (r: Result<
        ResEntryTodoDto,
        RepositoryError,
    >)
        requires
            old(self).inv(),
            dto@.patch.valid(),
        ensures
            final(self).inv(),
            final(self).can_connect() == old(self).can_connect(),
            final(self).table() == repo_update_table(
                old(self).table(),
                old(self).can_connect(),
                task_id as int,
                dto@.patch,
                now@,
            ),
            match r {
                Ok(v) => old(self).can_connect() && has_id(old(self).table().rows, task_id as int)
                    && v@ == task_view_of(
                    patched_row(row_with_id(old(self).table().rows, task_id as int), dto@.patch, now@),
                ),
                Err(e) => {
                    &&& !(old(self).can_connect() && has_id(old(self).table().rows, task_id as int))
                    &&& !old(self).can_connect() ==> e.kind == RepoErrorKind::ConnectionError
                        && e.context@ == msg_pool()
                    &&& old(self).can_connect() ==> e.kind == RepoErrorKind::NotFoundError
                        && e.context@ == msg_no_item(task_id as int)
                },
            },
    ;

    /// Returns the view of the row with the identifier.
    fn get_by_id(&mut self, task_id: i32) -> (r: Result<ResEntryTodoDto, RepositoryError>)
        requires
            old(self).inv(),
        ensures
            final(self).inv(),
            final(self).can_connect() == old(self).can_connect(),
            final(self).table() == old(self).table(),
            match r {
                Ok(v) => old(self).can_connect() && has_id(old(self).table().rows, task_id as int)
                    && v@ == task_view_of(row_with_id(old(self).table().rows, task_id as int)),
                Err(e) => {
                    &&& !(old(self).can_connect() && has_id(old(self).table().rows, task_id as int))
                    &&& !old(self).can_connect() ==> e.kind == RepoErrorKind::ConnectionError
                        && e.context@ == msg_pool()
                    &&& old(self).can_connect() ==> e.kind == RepoErrorKind::NotFoundError
                        && e.context@ == msg_get_not_found(task_id as int)
                },
            },
    ;

    /// Returns the views of all rows in storage order; an empty table yields
    /// an empty sequence, not an error.
    fn get_all(&mut self) -> (r: Result<Vec<ResEntryTodoDto>, RepositoryError>)
        requires
            old(self).inv(),
        ensures
            final(self).inv(),
            final(self).can_connect() == old(self).can_connect(),
            final(self).table() == old(self).table(),
            match r {
                Ok(v) => old(self).can_connect() && dtos_model(v@) == views_of(
                    old(self).table().rows,
                ),
                Err(e) => !old(self).can_connect() && e.kind == RepoErrorKind::ConnectionError
                    && e.context@ == msg_pool(),
            },
    ;

    /// Deletes the row with the identifier.
    fn delete_task(&mut self, task_id: i32) -> (r: Result<(), RepositoryError>)
        requires
            old(self).inv(),
        ensures
            final(self).inv(),
            final(self).can_connect() == old(self).can_connect(),
            final(self).table() == repo_delete_table(
                old(self).table(),
                old(self).can_connect(),
                task_id as int,
            ),
            match r {
                Ok(u) => old(self).can_connect() && has_id(old(self).table().rows, task_id as int),
                Err(e) => {
                    &&& !(old(self).can_connect() && has_id(old(self).table().rows, task_id as int))
                    &&& !old(self).can_connect() ==> e.kind == RepoErrorKind::ConnectionError
                        && e.context@ == msg_pool()
                    &&& old(self).can_connect() ==> e.kind == RepoErrorKind::NotFoundError
                        && e.context@ == msg_no_item(task_id as int)
                },
            },
    ;
}

/// The aggregate queries of the repository.
pub trait TodoUtilityRepository: TodoStorageModel {
    /// How many tasks storage holds.
    fn count_all_task(&mut self) -> (r: Result<i32, RepositoryError>)
        requires
            old(self).inv(),
        ensures
            final(self).inv(),
            final(self).can_connect() == old(self).can_connect(),
            final(self).table() == old(self).table(),
            match r {
                Ok(c) => old(self).can_connect() && c == old(self).table().rows.len(),
                Err(e) => !old(self).can_connect() && e.kind == RepoErrorKind::ConnectionError
                    && e.context@ == msg_pool(),
            },
    ;

    /// How many tasks are marked done.
    fn count_done_task(&mut self) -> (r: Result<i32, RepositoryError>)
        requires
            old(self).inv(),
        ensures
            final(self).inv(),
            final(self).can_connect() == old(self).can_connect(),
            final(self).table() == old(self).table(),
            match r {
                Ok(c) => old(self).can_connect() && c == count_flag(old(self).table().rows, true),
                Err(e) => !old(self).can_connect() && e.kind == RepoErrorKind::ConnectionError
                    && e.context@ == msg_pool(),
            },
    ;

    /// How many tasks are not yet done.
    fn count_undone_task(&mut self) -> (r: Result<i32, RepositoryError>)
        requires
            old(self).inv(),
        ensures
            final(self).inv(),
            final(self).can_connect() == old(self).can_connect(),
            final(self).table() == old(self).table(),
            match r {
                Ok(c) => old(self).can_connect() && c == count_flag(old(self).table().rows, false),
                Err(e) => !old(self).can_connect() && e.kind == RepoErrorKind::ConnectionError
                    && e.context@ == msg_pool(),
            },
    ;
}

} // verus!
