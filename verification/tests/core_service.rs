use mcp_todolist::storage_pool::{StoragePool, conn};
use mcp_todolist::todo_dto::{ReqCreateTodoDto, ReqUpdateTodoDto};
use mcp_todolist::todo_usecase::{TodolistUseCase, UseCaseError};
use mcp_todolist::todolist_repository::TodoListRepository;

fn fresh_service() -> TodolistUseCase<TodoListRepository> {
    TodolistUseCase::new(TodoListRepository::new(conn("todolist.db")))
}

fn create_dto(title: &str, description: &str, is_done: bool) -> ReqCreateTodoDto {
    ReqCreateTodoDto { title: title.to_string(), description: description.to_string(), is_done }
}

fn patch_none(id: i32) -> ReqUpdateTodoDto {
    ReqUpdateTodoDto { id, title: None, description: None, is_done: None }
}

#[test]
fn create_assigns_identifiers_monotonically() {
    let mut uc = fresh_service();
    let a = uc.create_task(create_dto("first", "one", false), "t1").unwrap();
    let b = uc.create_task(create_dto("second", "two", true), "t2").unwrap();
    assert_eq!(a.id, 1);
    assert_eq!(b.id, 2);
    assert_eq!(a.created_at, "t1");
    assert_eq!(a.updated_at, "t1");
}

#[test]
fn create_then_get_returns_identical_content() {
    // For a valid create input, the view has a non-empty identifier and a
    // subsequent get finds the same title, description and flag.
    let mut uc = fresh_service();
    let created = uc.create_task(create_dto("Title", "Words", true), "now").unwrap();
    assert!(created.id >= 1);
    let got = uc.get_by_id(created.id as i32).unwrap();
    assert_eq!(got.title, "Title");
    assert_eq!(got.description, "Words");
    assert!(got.is_done);
    assert_eq!(got.id, created.id);
}

#[test]
fn update_patches_only_present_fields() {
    let mut uc = fresh_service();
    let created = uc.create_task(create_dto("keep", "also keep", false), "t1").unwrap();
    let id = created.id as i32;
    let patch = ReqUpdateTodoDto { id, title: None, description: None, is_done: Some(true) };
    let updated = uc.update_task(id, patch, "t2").unwrap();
    assert_eq!(updated.title, "keep");
    assert_eq!(updated.description, "also keep");
    assert!(updated.is_done);
    assert_eq!(updated.created_at, "t1");
    assert_eq!(updated.updated_at, "t2");
}

#[test]
fn empty_update_is_content_noop_but_succeeds() {
    let mut uc = fresh_service();
    let created = uc.create_task(create_dto("same", "unchanged", true), "t1").unwrap();
    let id = created.id as i32;
    let updated = uc.update_task(id, patch_none(id), "t9").unwrap();
    assert_eq!(updated.title, "same");
    assert_eq!(updated.description, "unchanged");
    assert!(updated.is_done);
    assert_eq!(updated.created_at, "t1");
    assert_eq!(updated.updated_at, "t9");
}

#[test]
fn update_missing_identifier_fails_and_mutates_nothing() {
    let mut uc = fresh_service();
    uc.create_task(create_dto("only", "row", false), "t1").unwrap();
    let err = uc.update_task(42, patch_none(42), "t2").unwrap_err();
    assert_eq!(err, UseCaseError::UpdateFailed);
    assert_eq!(err.message(), "Fail to update");
    let got = uc.get_by_id(1).unwrap();
    assert_eq!(got.title, "only");
    assert_eq!(got.updated_at, "t1");
    assert_eq!(uc.count_all_task().unwrap(), 1);
}

#[test]
fn delete_missing_identifier_fails_and_mutates_nothing() {
    let mut uc = fresh_service();
    uc.create_task(create_dto("only", "row", false), "t1").unwrap();
    let err = uc.delete_task(7).unwrap_err();
    assert_eq!(err, UseCaseError::DeleteFailed);
    assert_eq!(err.message(), "Fail to delete");
    assert_eq!(uc.count_all_task().unwrap(), 1);
}

#[test]
fn delete_then_get_fails_with_not_found_class_error() {
    let mut uc = fresh_service();
    let created = uc.create_task(create_dto("doomed", "to go", false), "t1").unwrap();
    let id = created.id as i32;
    uc.delete_task(id).unwrap();
    let err = uc.get_by_id(id).unwrap_err();
    assert_eq!(err, UseCaseError::RetrieveFailed);
    assert_eq!(err.message(), "Fail to retrive");
}

#[test]
fn counts_partition_after_mixed_operations() {
    // countAll == countCompleted + countIncomplete after any sequence of
    // create, update and delete operations.
    let mut uc = fresh_service();
    for k in 0..6 {
        let title = format!("task {}", k);
        uc.create_task(create_dto(&title, "body", k % 2 == 0), "t").unwrap();
    }
    uc.delete_task(2).unwrap();
    let flip = ReqUpdateTodoDto { id: 3, title: None, description: None, is_done: Some(false) };
    uc.update_task(3, flip, "t2").unwrap();
    uc.delete_task(5).unwrap();
    let all = uc.count_all_task().unwrap();
    let done = uc.count_done_task().unwrap();
    let undone = uc.count_undone_task().unwrap();
    assert_eq!(all, 4);
    assert_eq!(all, done + undone);
}

#[test]
fn concrete_scenario_buy_groceries() {
    let mut uc = fresh_service();
    let created = uc
        .create_task(create_dto("Buy groceries", "Milk, eggs, and bread", false), "2025-05-09T10:45:00Z")
        .unwrap();
    assert_eq!(created.title, "Buy groceries");
    assert_eq!(created.description, "Milk, eggs, and bread");
    assert!(!created.is_done);
    assert!(created.id >= 1);
    let done_before = uc.count_done_task().unwrap();
    let undone_before = uc.count_undone_task().unwrap();
    let patch = ReqUpdateTodoDto {
        id: created.id as i32,
        title: None,
        description: None,
        is_done: Some(true),
    };
    uc.update_task(created.id as i32, patch, "2025-05-09T11:00:00Z").unwrap();
    let done_after = uc.count_done_task().unwrap();
    let undone_after = uc.count_undone_task().unwrap();
    assert_eq!(done_after, done_before + 1);
    assert_eq!(undone_after, undone_before - 1);
}

#[test]
fn get_all_returns_storage_order_and_empty_list_is_not_an_error() {
    let mut uc = fresh_service();
    assert!(uc.get_all().unwrap().is_empty());
    uc.create_task(create_dto("a", "1", false), "t").unwrap();
    uc.create_task(create_dto("b", "2", true), "t").unwrap();
    uc.create_task(create_dto("c", "3", false), "t").unwrap();
    uc.delete_task(2).unwrap();
    let all = uc.get_all().unwrap();
    assert_eq!(all.len(), 2);
    assert_eq!(all[0].id, 1);
    assert_eq!(all[0].title, "a");
    assert_eq!(all[1].id, 3);
    assert_eq!(all[1].title, "c");
}

#[test]
fn exhausted_pool_surfaces_every_operation_as_its_own_failure() {
    let pool = StoragePool::new("unreachable.db".to_string(), 0);
    let repo = TodoListRepository::new(pool);
    let mut uc = TodolistUseCase::new(repo);
    assert_eq!(
        uc.create_task(create_dto("x", "y", false), "t").unwrap_err(),
        UseCaseError::CreateFailed
    );
    assert_eq!(uc.update_task(1, patch_none(1), "t").unwrap_err(), UseCaseError::UpdateFailed);
    assert_eq!(uc.get_by_id(1).unwrap_err(), UseCaseError::RetrieveFailed);
    assert_eq!(uc.get_all().unwrap_err(), UseCaseError::ListFailed);
    assert_eq!(uc.delete_task(1).unwrap_err(), UseCaseError::DeleteFailed);
    assert_eq!(uc.count_all_task().unwrap_err(), UseCaseError::CountAllFailed);
    assert_eq!(uc.count_done_task().unwrap_err(), UseCaseError::CountDoneFailed);
    assert_eq!(uc.count_undone_task().unwrap_err(), UseCaseError::CountUndoneFailed);
}

#[test]
fn use_case_messages_are_flat_per_operation_texts() {
    assert_eq!(UseCaseError::CreateFailed.message(), "Fail to create");
    assert_eq!(UseCaseError::UpdateFailed.message(), "Fail to update");
    assert_eq!(UseCaseError::RetrieveFailed.message(), "Fail to retrive");
    assert_eq!(UseCaseError::ListFailed.message(), "Fail to get all tasks");
    assert_eq!(UseCaseError::DeleteFailed.message(), "Fail to delete");
    assert_eq!(UseCaseError::CountAllFailed.message(), "Fail to count all tasks");
    assert_eq!(UseCaseError::CountDoneFailed.message(), "Fail to count done task");
    assert_eq!(UseCaseError::CountUndoneFailed.message(), "Fail to count undone task");
}
