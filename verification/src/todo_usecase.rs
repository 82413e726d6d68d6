//! The use-case service: the single orchestration point. It mirrors the
//! repository one operation per business action and normalizes every
//! repository failure into one coarse per-operation failure before any
//! protocol adapter sees it.

use vstd::prelude::*;
use vstd::string::*;
use crate::task_table::{TableModel, count_flag, created_row, has_id, patched_row, row_with_id};
use crate::todo_dto::{ReqCreateTodoDto, ReqUpdateTodoDto, ResEntryTodoDto};
use crate::todo_entity::task_view_of;
use crate::todo_repository::{TodoOperationRepository, TodoUtilityRepository, create_possible,
    dtos_model, repo_create_table, repo_delete_table, repo_update_table, views_of};

verus! {

/// A repository that offers both the operations and the aggregate queries.
pub trait TodoRepository: TodoOperationRepository + TodoUtilityRepository {

}

impl<T: TodoOperationRepository + TodoUtilityRepository> TodoRepository for T {

}

/// The one coarse failure each use-case operation surfaces; the underlying
/// storage cause is not part of the adapter-visible surface.
#[derive(Debug, Clone, Copy, PartialEq, Eq, Structural)]
pub enum UseCaseError {
    CreateFailed,
    UpdateFailed,
    RetrieveFailed,
    ListFailed,
    DeleteFailed,
    CountAllFailed,
    CountDoneFailed,
    CountUndoneFailed,
}

impl UseCaseError {
    /// The flat user message of the failure.
    pub open spec fn spec_message(self) -> Seq<char> {
        match self {
            UseCaseError::CreateFailed => "Fail to create"@,
            UseCaseError::UpdateFailed => "Fail to update"@,
            UseCaseError::RetrieveFailed => "Fail to retrive"@,
            UseCaseError::ListFailed => "Fail to get all tasks"@,
            UseCaseError::DeleteFailed => "Fail to delete"@,
            UseCaseError::CountAllFailed => "Fail to count all tasks"@,
            UseCaseError::CountDoneFailed => "Fail to count done task"@,
            UseCaseError::CountUndoneFailed => "Fail to count undone task"@,
        }
    }

    /// Renders the flat user message.
    pub fn message(&self) -> (r: String)
        ensures
            r@ == self.spec_message(),
    {
        match self {
            UseCaseError::CreateFailed => String::from_str("Fail to create"),
            UseCaseError::UpdateFailed => String::from_str("Fail to update"),
            UseCaseError::RetrieveFailed => String::from_str("Fail to retrive"),
            UseCaseError::ListFailed => String::from_str("Fail to get all tasks"),
            UseCaseError::DeleteFailed => String::from_str("Fail to delete"),
            UseCaseError::CountAllFailed => String::from_str("Fail to count all tasks"),
            UseCaseError::CountDoneFailed => String::from_str("Fail to count done task"),
            UseCaseError::CountUndoneFailed => String::from_str("Fail to count undone task"),
        }
    }
}

/// The table after a create request reaches a transport boundary: an invalid
/// request is rejected before the use-case and changes nothing.
pub open spec fn boundary_create_table(
    t: TableModel,
    can: bool,
    c: crate::todo_entity::CreateModel,
    now: Seq<char>,
) -> TableModel {
    if c.valid() {
        repo_create_table(t, can, c, now)
    } else {
        t
    }
}

/// Whether a create request succeeds at a transport boundary.
pub open spec fn boundary_create_ok(
    t: TableModel,
    can: bool,
    c: crate::todo_entity::CreateModel,
) -> bool {
    c.valid() && create_possible(t, can)
}

/// The table after an update request reaches a transport boundary.
pub open spec fn boundary_update_table(
    t: TableModel,
    can: bool,
    u: crate::todo_dto::UpdateModel,
    now: Seq<char>,
) -> TableModel {
    if u.patch.valid() {
        repo_update_table(t, can, u.id, u.patch, now)
    } else {
        t
    }
}

/// Whether an update request succeeds at a transport boundary.
pub open spec fn boundary_update_ok(
    t: TableModel,
    can: bool,
    u: crate::todo_dto::UpdateModel,
) -> bool {
    u.patch.valid() && can && has_id(t.rows, u.id)
}

/// The table after a delete request reaches a transport boundary.
pub open spec fn boundary_delete_table(t: TableModel, can: bool, id: int) -> TableModel {
    repo_delete_table(t, can, id)
}

/// Whether a delete request succeeds at a transport boundary.
pub open spec fn boundary_delete_ok(t: TableModel, can: bool, id: int) -> bool {
    can && has_id(t.rows, id)
}

/// Whether a get-by-identifier request succeeds at a transport boundary.
pub open spec fn boundary_get_ok(t: TableModel, can: bool, id: int) -> bool {
    can && has_id(t.rows, id)
}

/// The use-case service; holds the one repository instance every adapter
/// shares.
pub struct TodolistUseCase<R: TodoRepository> {
    todo_repo: R,
}

impl<R: TodoRepository> TodolistUseCase<R> {
    /// The model of the stored table the service orchestrates.
    pub closed spec fn table(&self) -> TableModel {
        self.todo_repo.table()
    }

    /// Whether the storage backend can lend a connection.
    pub closed spec fn can_connect(&self) -> bool {
        self.todo_repo.can_connect()
    }

    /// Validity of the service state.
    pub closed spec fn inv(&self) -> bool {
        self.todo_repo.inv()
    }

    /// Builds the service around the one shared repository.
    pub fn new(repo: R) -> (u: Self)
        ensures
            u.inv() == repo.inv(),
            u.table() == repo.table(),
            u.can_connect() == repo.can_connect(),
    {
        TodolistUseCase { todo_repo: repo }
    }

    /// Creates a task, returning its stored view.
    pub fn create_task(&mut self, dto: ReqCreateTodoDto, now: &str) -> (r: Result<
        ResEntryTodoDto,
        UseCaseError,
    >)
        requires
            old(self).inv(),
            dto@.valid(),
        ensures
            final(self).inv(),
            final(self).can_connect() == old(self).can_connect(),
            final(self).table() == repo_create_table(
                old(self).table(),
                old(self).can_connect(),
                dto@,
                now@,
            ),
            match r {
                Ok(v) => create_possible(old(self).table(), old(self).can_connect()) && v@
                    == task_view_of(created_row(old(self).table(), dto@, now@)),
                Err(e) => !create_possible(old(self).table(), old(self).can_connect()) && e
                    == UseCaseError::CreateFailed,
            },
    {
        match self.todo_repo.create_task(dto, now) {
            Ok(data) => Ok(data),
            Err(_) => Err(UseCaseError::CreateFailed),
        }
    }

    /// Applies a partial patch to the task with the identifier, returning the
    /// post-update view.
    pub fn update_task(&mut self, task_id: i32, dto: ReqUpdateTodoDto, now: &str) -> (r: Result<
        ResEntryTodoDto,
        UseCaseError,
    >)
        requires
            old(self).inv(),
            dto@.patch.valid(),
        ensures
            final(self).inv(),
            final(self).can_connect() == old(self).can_connect(),
            final(self).table() == repo_update_table(
                old(self).table(),
                old(self).can_connect(),
                task_id as int,
                dto@.patch,
                now@,
            ),
            match r {
                Ok(v) => old(self).can_connect() && has_id(old(self).table().rows, task_id as int)
                    && v@ == task_view_of(
                    patched_row(row_with_id(old(self).table().rows, task_id as int), dto@.patch, now@),
                ),
                Err(e) => !(old(self).can_connect() && has_id(
                    old(self).table().rows,
                    task_id as int,
                )) && e == UseCaseError::UpdateFailed,
            },
    {
        match self.todo_repo.update_task(task_id, dto, now) {
            Ok(data) => Ok(data),
            Err(_) => Err(UseCaseError::UpdateFailed),
        }
    }

    /// Returns the view of the task with the identifier.
    pub fn get_by_id(&mut self, task_id: i32) -> (r: Result<ResEntryTodoDto, UseCaseError>)
        requires
            old(self).inv(),
        ensures
            final(self).inv(),
            final(self).can_connect() == old(self).can_connect(),
            final(self).table() == old(self).table(),
            match r {
                Ok(v) => old(self).can_connect() && has_id(old(self).table().rows, task_id as int)
                    && v@ == task_view_of(row_with_id(old(self).table().rows, task_id as int)),
                Err(e) => !(old(self).can_connect() && has_id(
                    old(self).table().rows,
                    task_id as int,
                )) && e == UseCaseError::RetrieveFailed,
            },
    {
        match self.todo_repo.get_by_id(task_id) {
            Ok(data) => Ok(data),
            Err(_) => Err(UseCaseError::RetrieveFailed),
        }
    }

    /// Returns the views of all tasks in storage order.
    pub fn get_all(&mut self) -> (r: Result<Vec<ResEntryTodoDto>, UseCaseError>)
        requires
            old(self).inv(),
        ensures
            final(self).inv(),
            final(self).can_connect() == old(self).can_connect(),
            final(self).table() == old(self).table(),
            match r {
                Ok(v) => old(self).can_connect() && dtos_model(v@) == views_of(
                    old(self).table().rows,
                ),
                Err(e) => !old(self).can_connect() && e == UseCaseError::ListFailed,
            },
    {
        match self.todo_repo.get_all() {
            Ok(data) => Ok(data),
            Err(_) => Err(UseCaseError::ListFailed),
        }
    }

    /// Deletes the task with the identifier.
    pub fn delete_task(&mut self, task_id: i32) -> (r: Result<(), UseCaseError>)
        requires
            old(self).inv(),
        ensures
            final(self).inv(),
            final(self).can_connect() == old(self).can_connect(),
            final(self).table() == repo_delete_table(
                old(self).table(),
                old(self).can_connect(),
                task_id as int,
            ),
            match r {
                Ok(u) => old(self).can_connect() && has_id(old(self).table().rows, task_id as int),
                Err(e) => !(old(self).can_connect() && has_id(
                    old(self).table().rows,
                    task_id as int,
                )) && e == UseCaseError::DeleteFailed,
            },
    {
        match self.todo_repo.delete_task(task_id) {
            Ok(u) => Ok(u),
            Err(_) => Err(UseCaseError::DeleteFailed),
        }
    }

    /// How many tasks there are.
    pub fn count_all_task(&mut self) -> (r: Result<i32, UseCaseError>)
        requires
            old(self).inv(),
        ensures
            final(self).inv(),
            final(self).can_connect() == old(self).can_connect(),
            final(self).table() == old(self).table(),
            match r {
                Ok(c) => old(self).can_connect() && c == old(self).table().rows.len(),
                Err(e) => !old(self).can_connect() && e == UseCaseError::CountAllFailed,
            },
    {
        match self.todo_repo.count_all_task() {
            Ok(data) => Ok(data),
            Err(_) => Err(UseCaseError::CountAllFailed),
        }
    }

    /// How many tasks are marked done.
    pub fn count_done_task(&mut self) -> (r: Result<i32, UseCaseError>)
        requires
            old(self).inv(),
        ensures
            final(self).inv(),
            final(self).can_connect() == old(self).can_connect(),
            final(self).table() == old(self).table(),
            match r {
                Ok(c) => old(self).can_connect() && c == count_flag(old(self).table().rows, true),
                Err(e) => !old(self).can_connect() && e == UseCaseError::CountDoneFailed,
            },
    {
        match self.todo_repo.count_done_task() {
            Ok(data) => Ok(data),
            Err(_) => Err(UseCaseError::CountDoneFailed),
        }
    }

    /// How many tasks are not yet done.
    pub fn count_undone_task(&mut self) -> (r: Result<i32, UseCaseError>)
        requires
            old(self).inv(),
        ensures
            final(self).inv(),
            final(self).can_connect() == old(self).can_connect(),
            final(self).table() == old(self).table(),
            match r {
                Ok(c) => old(self).can_connect() && c == count_flag(old(self).table().rows, false),
                Err(e) => !old(self).can_connect() && e == UseCaseError::CountUndoneFailed,
            },
    {
        match self.todo_repo.count_undone_task() {
            Ok(data) => Ok(data),
            Err(_) => Err(UseCaseError::CountUndoneFailed),
        }
    }
}

} // verus!
