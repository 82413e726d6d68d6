use mcp_todolist::http_handler::{HttpMethod, RouteOperation, count_all_task, count_done_task,
    count_undone, count_undone_task, create_todo, delete_todo, get_all, get_by_id, todolist_routes,
    update_todo};
use mcp_todolist::response_type::ErrorResponse;
use mcp_todolist::response_type::HttpStatus;
use mcp_todolist::storage_pool::conn;
use mcp_todolist::todo_dto::{ReqCreateTodoDto, ReqUpdateTodoDto};
use mcp_todolist::todo_usecase::TodolistUseCase;
use mcp_todolist::todolist_repository::TodoListRepository;

fn fresh_service() -> TodolistUseCase<TodoListRepository> {
    TodolistUseCase::new(TodoListRepository::new(conn("todolist.db")))
}

fn create_dto(title: &str, description: &str, is_done: bool) -> ReqCreateTodoDto {
    ReqCreateTodoDto { title: title.to_string(), description: description.to_string(), is_done }
}

#[test]
fn routes_cover_the_eight_operations() {
    let routes = todolist_routes();
    assert_eq!(routes.len(), 8);
    assert_eq!(routes[0].method, HttpMethod::Post);
    assert_eq!(routes[0].path, "/todo");
    assert_eq!(routes[0].operation, RouteOperation::CreateTodo);
    assert_eq!(routes[1].method, HttpMethod::Put);
    assert_eq!(routes[1].path, "/todo");
    assert_eq!(routes[2].path, "/todo/<todo_id>");
    assert_eq!(routes[3].method, HttpMethod::Get);
    assert_eq!(routes[3].path, "/todo");
    assert_eq!(routes[4].method, HttpMethod::Delete);
    assert_eq!(routes[4].path, "/todo/<todo_id>");
    assert_eq!(routes[5].path, "/todo/all");
    assert_eq!(routes[6].path, "/todo/done");
    assert_eq!(routes[7].path, "/todo/undone");
}

#[test]
fn create_route_answers_200_with_the_new_identifier() {
    let mut uc = fresh_service();
    let resp = create_todo(create_dto("t", "d", false), &mut uc, "now").unwrap();
    assert_eq!(resp.0.0.code, 200);
    assert_eq!(resp.0.1, "Task create succesfull id: 1");
}

#[test]
fn create_route_rejects_empty_title_with_400() {
    let mut uc = fresh_service();
    let err = create_todo(create_dto("", "d", false), &mut uc, "now").unwrap_err();
    assert_eq!(err.0.0.code, 400);
    assert_eq!(err.0.1, "Failed to create task please try again");
    // The rejected request never reached storage.
    let count = count_all_task(&mut uc).unwrap();
    assert_eq!(count.0.1, "all todo have 0 items");
}

#[test]
fn create_route_rejects_empty_description_with_400() {
    let mut uc = fresh_service();
    let err = create_todo(create_dto("t", "", true), &mut uc, "now").unwrap_err();
    assert_eq!(err.0.0.code, 400);
}

#[test]
fn update_route_patches_by_body_identifier() {
    let mut uc = fresh_service();
    create_todo(create_dto("before", "body", false), &mut uc, "t1").unwrap();
    let patch = ReqUpdateTodoDto {
        id: 1,
        title: Some("after".to_string()),
        description: None,
        is_done: None,
    };
    let resp = update_todo(patch, &mut uc, "t2").unwrap();
    assert_eq!(resp.0.0.code, 200);
    assert_eq!(resp.0.1, "Task Update Successfull");
    let got = get_by_id("1".to_string(), &mut uc).unwrap();
    assert_eq!(
        got.0.1,
        "id: 1, title: after, description: body, is_done: false, created_at: t1, updated_at: t2"
    );
}

#[test]
fn update_route_answers_400_on_missing_identifier() {
    let mut uc = fresh_service();
    let patch = ReqUpdateTodoDto { id: 9, title: None, description: None, is_done: Some(true) };
    let err = update_todo(patch, &mut uc, "t").unwrap_err();
    assert_eq!(err.0.0.code, 400);
    assert_eq!(err.0.1, "Failed to update the task");
}

#[test]
fn update_route_rejects_empty_present_title() {
    let mut uc = fresh_service();
    create_todo(create_dto("a", "b", false), &mut uc, "t").unwrap();
    let patch = ReqUpdateTodoDto {
        id: 1,
        title: Some(String::new()),
        description: None,
        is_done: None,
    };
    let err = update_todo(patch, &mut uc, "t2").unwrap_err();
    assert_eq!(err.0.0.code, 400);
    // The row kept its old title.
    let got = get_by_id("1".to_string(), &mut uc).unwrap();
    assert!(got.0.1.contains("title: a"));
}

#[test]
fn get_route_fails_fast_on_non_numeric_path_segment() {
    let mut uc = fresh_service();
    let err = get_by_id("abc".to_string(), &mut uc).unwrap_err();
    assert_eq!(err.0.0.code, 400);
    assert_eq!(err.0.1, "Fail to get todo by id : abc");
}

#[test]
fn get_route_answers_400_on_missing_identifier() {
    let mut uc = fresh_service();
    let err = get_by_id("5".to_string(), &mut uc).unwrap_err();
    assert_eq!(err.0.0.code, 400);
    assert_eq!(err.0.1, "Fail to get todo by id : 5");
}

#[test]
fn get_all_route_renders_the_whole_list() {
    let mut uc = fresh_service();
    let empty = get_all(&mut uc).unwrap();
    assert_eq!(empty.0.1, "[]");
    create_todo(create_dto("a", "1", false), &mut uc, "t").unwrap();
    create_todo(create_dto("b", "2", true), &mut uc, "t").unwrap();
    let listed = get_all(&mut uc).unwrap();
    assert_eq!(listed.0.0.code, 200);
    assert_eq!(
        listed.0.1,
        "[id: 1, title: a, description: 1, is_done: false, created_at: t, updated_at: t, \
         id: 2, title: b, description: 2, is_done: true, created_at: t, updated_at: t]"
    );
}

#[test]
fn delete_route_deletes_and_reports_the_identifier() {
    let mut uc = fresh_service();
    create_todo(create_dto("a", "1", false), &mut uc, "t").unwrap();
    let resp = delete_todo("1".to_string(), &mut uc).unwrap();
    assert_eq!(resp.0.0.code, 200);
    assert_eq!(resp.0.1, "Task id : 1 has deleted");
    let err = get_by_id("1".to_string(), &mut uc).unwrap_err();
    assert_eq!(err.0.0.code, 400);
}

#[test]
fn delete_route_answers_400_on_missing_or_malformed_identifier() {
    let mut uc = fresh_service();
    let missing = delete_todo("3".to_string(), &mut uc).unwrap_err();
    assert_eq!(missing.0.0.code, 400);
    assert_eq!(missing.0.1, "Fail to delte task id: 3");
    let malformed = delete_todo("x1".to_string(), &mut uc).unwrap_err();
    assert_eq!(malformed.0.0.code, 400);
    assert_eq!(malformed.0.1, "Fail to delte task id: x1");
}

#[test]
fn count_routes_render_their_tallies() {
    let mut uc = fresh_service();
    create_todo(create_dto("a", "1", true), &mut uc, "t").unwrap();
    create_todo(create_dto("b", "2", false), &mut uc, "t").unwrap();
    create_todo(create_dto("c", "3", true), &mut uc, "t").unwrap();
    assert_eq!(count_all_task(&mut uc).unwrap().0.1, "all todo have 3 items");
    assert_eq!(count_done_task(&mut uc).unwrap().0.1, "all todo have 2 task that mark as done");
    assert_eq!(
        count_undone_task(&mut uc).unwrap().0.1,
        "all todo have 1 task that mark as undone"
    );
    assert_eq!(count_undone(&mut uc).unwrap(), "You have 1 tasks, mark as undone");
}

#[test]
fn count_undone_surfaces_a_server_error_when_storage_is_unreachable() {
    let pool = mcp_todolist::storage_pool::StoragePool::new("x".to_string(), 0);
    let mut uc = TodolistUseCase::new(TodoListRepository::new(pool));
    let status = count_undone(&mut uc).unwrap_err();
    assert_eq!(status.code, 500);
}

#[test]
fn error_envelope_describes_itself() {
    let e = ErrorResponse((HttpStatus::bad_request(), "nope".to_string()));
    assert_eq!(e.describe(), "ErrorResponse: status = 400, message = nope");
}
