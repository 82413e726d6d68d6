//! The repository over the pooled storage engine: every operation acquires
//! exactly one pooled connection for its duration and releases it on every
//! exit path, and every storage failure is wrapped with operation context.

use vstd::prelude::*;
use vstd::string::*;
use crate::storage_pool::StoragePool;
use crate::task_table::{TaskTable, empty_table, has_id, idx_of, lemma_count_flag_bounds,
    lemma_idx_of_unique, rows_model, table_wf};
use crate::text::{concat2, concat3, i32_to_string};
use crate::todo_dto::{ReqCreateTodoDto, ReqUpdateTodoDto, ResEntryTodoDto};
use crate::todo_entity::{NewTodoEntity, TaskModel, UpdateTodoEntity, task_view_of};
use crate::todo_repository::{RepoErrorKind, RepositoryError, TodoOperationRepository,
    TodoStorageModel, TodoUtilityRepository, dtos_model, msg_get_not_found, msg_insert_failed,
    msg_no_item, msg_pool, views_of};

verus! {

fn pool_error() -> (e: RepositoryError)
    ensures
        e.kind == RepoErrorKind::ConnectionError,
        e.context@ == msg_pool(),
{
    RepositoryError {
        kind: RepoErrorKind::ConnectionError,
        context: String::from_str("Failed to get DB connection from pool"),
    }
}

fn insert_error() -> (e: RepositoryError)
    ensures
        e.kind == RepoErrorKind::PersistenceError,
        e.context@ == msg_insert_failed(),
{
    RepositoryError {
        kind: RepoErrorKind::PersistenceError,
        context: String::from_str("Failed to insert new todo into database"),
    }
}

fn no_item_error(id: i32) -> (e: RepositoryError)
    ensures
        e.kind == RepoErrorKind::NotFoundError,
        e.context@ == msg_no_item(id as int),
{
    let digits = i32_to_string(id);
    RepositoryError {
        kind: RepoErrorKind::NotFoundError,
        context: concat2("No todo item found with id ", digits.as_str()),
    }
}

fn get_not_found_error(id: i32) -> (e: RepositoryError)
    ensures
        e.kind == RepoErrorKind::NotFoundError,
        e.context@ == msg_get_not_found(id as int),
{
    let digits = i32_to_string(id);
    RepositoryError {
        kind: RepoErrorKind::NotFoundError,
        context: concat3("Todo with id ", digits.as_str(), " not found"),
    }
}

/// The repository over the bounded pool and the task table its connections
/// reach.
pub struct TodoListRepository {
    db_pool: StoragePool,
    table: TaskTable,
}

impl TodoListRepository {
    /// A repository over a fresh, empty backend reached through the given
    /// pool.
    pub fn new(db_pool: StoragePool) -> (r: Self)
        requires
            db_pool.inv(),
            db_pool.idle(),
        ensures
            r.inv(),
            r.table() == empty_table(),
            r.can_connect() == db_pool.can_connect(),
    {
        TodoListRepository { db_pool, table: TaskTable::new() }
    }
}

impl TodoStorageModel for TodoListRepository {
    closed spec fn table(&self) -> crate::task_table::TableModel {
        self.table@
    }

    closed spec fn can_connect(&self) -> bool {
        self.db_pool.can_connect()
    }

    closed spec fn inv(&self) -> bool {
        table_wf(self.table@) && self.db_pool.inv() && self.db_pool.idle()
    }
}

impl TodoOperationRepository for TodoListRepository {
    fn create_task(&mut self, dto: ReqCreateTodoDto, now: &str) -> (r: Result<
        ResEntryTodoDto,
        RepositoryError,
    >) {
        let c = match self.db_pool.acquire() {
            Some(c) => c,
            None => {
                return Err(pool_error());
            },
        };
        let entity = NewTodoEntity::from(dto);
        match self.table.insert_row(entity, now) {
            Some(row) => {
                self.db_pool.release(c);
                Ok(ResEntryTodoDto::from_entity(row))
            },
            None => {
                self.db_pool.release(c);
                Err(insert_error())
            },
        }
    }

    fn update_task(&mut self, task_id: i32, dto: ReqUpdateTodoDto, now: &str) -> (r: Result<
        ResEntryTodoDto,
        RepositoryError,
    >) {
        let c = match self.db_pool.acquire() {
            Some(c) => c,
            None => {
                return Err(pool_error());
            },
        };
        let patch = UpdateTodoEntity::from(dto);
        let n = self.table.update_row(task_id, patch, now);
        if n == 0 {
            self.db_pool.release(c);
            return Err(no_item_error(task_id));
        }
        proof {
            let prev_rows = old(self).table().rows;
            let k = idx_of(prev_rows, task_id as int);
            assert(0 <= k < prev_rows.len() && prev_rows[k].id == task_id as int);
            assert(self.table@.rows[k].id == task_id as int);
            lemma_idx_of_unique(self.table@.rows, self.table@.next_id, task_id as int, k);
        }
        // The two-step shape: write, then re-read the authoritative row.
        match self.table.first_by_id(task_id) {
            Some(row) => {
                self.db_pool.release(c);
                Ok(ResEntryTodoDto::from_entity(row))
            },
            None => {
                // The re-read cannot miss: the patched row kept its identifier.
                proof {
                    assert(false);
                }
                self.db_pool.release(c);
                Err(no_item_error(task_id))
            },
        }
    }

    fn get_by_id(&mut self, task_id: i32) -> (r: Result<ResEntryTodoDto, RepositoryError>) {
        let c = match self.db_pool.acquire() {
            Some(c) => c,
            None => {
                return Err(pool_error());
            },
        };
        let row_opt = self.table.first_by_id(task_id);
        self.db_pool.release(c);
        match row_opt {
            Some(row) => Ok(ResEntryTodoDto::from_entity(row)),
            None => Err(get_not_found_error(task_id)),
        }
    }

    fn get_all(&mut self) -> (r: Result<Vec<ResEntryTodoDto>, RepositoryError>) {
        let c = match self.db_pool.acquire() {
            Some(c) => c,
            None => {
                return Err(pool_error());
            },
        };
        let entities = self.table.load_all();
        self.db_pool.release(c);
        let ghost rows: Seq<TaskModel> = rows_model(entities@);
        let n = entities.len();
        let mut out: Vec<ResEntryTodoDto> = Vec::new();
        let mut k: usize = 0;
        while k < n
            invariant
                n == entities.len(),
                k <= n,
                out@.len() == k,
                rows == rows_model(entities@),
                forall|j: int| 0 <= j < k ==> (#[trigger] out@[j])@ == task_view_of(rows[j]),
            decreases n - k,
        {
            let e = entities[k].clone();
            out.push(ResEntryTodoDto::from_entity(e));
            k = k + 1;
        }
        proof {
            assert(dtos_model(out@) =~= views_of(rows));
        }
        Ok(out)
    }

    fn delete_task(&mut self, task_id: i32) -> (r: Result<(), RepositoryError>) {
        let c = match self.db_pool.acquire() {
            Some(c) => c,
            None => {
                return Err(pool_error());
            },
        };
        let n = self.table.delete_rows(task_id);
        self.db_pool.release(c);
        if n == 0 {
            Err(no_item_error(task_id))
        } else {
            Ok(())
        }
    }
}

impl TodoUtilityRepository for TodoListRepository {
    fn count_all_task(&mut self) -> (r: Result<i32, RepositoryError>) {
        let c = match self.db_pool.acquire() {
            Some(c) => c,
            None => {
                return Err(pool_error());
            },
        };
        let total = self.table.count_rows();
        self.db_pool.release(c);
        Ok(total as i32)
    }

    fn count_done_task(&mut self) -> (r: Result<i32, RepositoryError>) {
        let c = match self.db_pool.acquire() {
            Some(c) => c,
            None => {
                return Err(pool_error());
            },
        };
        let cnt = self.table.count_flag_rows(true);
        self.db_pool.release(c);
        proof {
            lemma_count_flag_bounds(self.table@.rows, true);
        }
        Ok(cnt as i32)
    }

    fn count_undone_task(&mut self) -> (r: Result<i32, RepositoryError>) {
        let c = match self.db_pool.acquire() {
            Some(c) => c,
            None => {
                return Err(pool_error());
            },
        };
        let cnt = self.table.count_flag_rows(false);
        self.db_pool.release(c);
        proof {
            lemma_count_flag_bounds(self.table@.rows, false);
        }
        Ok(cnt as i32)
    }
}

} // verus!
