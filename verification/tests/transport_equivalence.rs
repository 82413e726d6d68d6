//! Cross-transport consistency: the same logical operations with the same
//! arguments, sent once through the HTTP adapter and once through the tool
//! adapter, produce business-equivalent results.

use mcp_todolist::http_handler::{count_all_task, count_done_task, create_todo, delete_todo,
    get_by_id, update_todo};
use mcp_todolist::mcp_handler::{MCPHandler, ToolOutput};
use mcp_todolist::storage_pool::conn;
use mcp_todolist::todo_dto::{GetTaskById, ReqCreateTodoDto, ReqUpdateTodoDto};
use mcp_todolist::todo_usecase::TodolistUseCase;
use mcp_todolist::todolist_repository::TodoListRepository;

fn create_dto(title: &str, description: &str, is_done: bool) -> ReqCreateTodoDto {
    ReqCreateTodoDto { title: title.to_string(), description: description.to_string(), is_done }
}

fn patch_done(id: i32) -> ReqUpdateTodoDto {
    ReqUpdateTodoDto { id, title: None, description: None, is_done: Some(true) }
}

#[test]
fn both_transports_agree_operation_by_operation() {
    // One service behind the HTTP adapter, one behind the tool adapter.
    let mut http_uc = TodolistUseCase::new(TodoListRepository::new(conn("todolist.db")));
    let mut tool = MCPHandler::new(TodolistUseCase::new(TodoListRepository::new(conn(
        "todolist.db",
    ))));

    // Same creates on both.
    assert!(create_todo(create_dto("a", "1", false), &mut http_uc, "t1").is_ok());
    assert!(tool.create_task(create_dto("a", "1", false), "t1").is_ok());
    assert!(create_todo(create_dto("b", "2", false), &mut http_uc, "t2").is_ok());
    assert!(tool.create_task(create_dto("b", "2", false), "t2").is_ok());

    // Same invalid create fails on both and mutates neither.
    assert!(create_todo(create_dto("", "x", false), &mut http_uc, "t3").is_err());
    assert!(tool.create_task(create_dto("", "x", false), "t3").is_err());

    // Same update on both.
    assert!(update_todo(patch_done(1), &mut http_uc, "t4").is_ok());
    assert!(tool.update_task(patch_done(1), "t4").is_ok());

    // Same failing update on both.
    assert!(update_todo(patch_done(9), &mut http_uc, "t5").is_err());
    assert!(tool.update_task(patch_done(9), "t5").is_err());

    // Same delete on both.
    assert!(delete_todo("2".to_string(), &mut http_uc).is_ok());
    assert!(tool.delete_task(GetTaskById { id: 2 }).is_ok());

    // The remaining state agrees field by field.
    let http_view = get_by_id("1".to_string(), &mut http_uc).unwrap();
    assert_eq!(
        http_view.0.1,
        "id: 1, title: a, description: 1, is_done: true, created_at: t1, updated_at: t4"
    );
    let tool_view = tool.get_by_id(GetTaskById { id: 1 }).unwrap();
    match &tool_view.content[0] {
        ToolOutput::TaskEntry(v) => {
            assert_eq!(v.id, 1);
            assert_eq!(v.title, "a");
            assert_eq!(v.description, "1");
            assert!(v.is_done);
            assert_eq!(v.created_at, "t1");
            assert_eq!(v.updated_at, "t4");
        },
        _ => panic!("expected one task view"),
    }

    // The tallies agree.
    assert_eq!(count_all_task(&mut http_uc).unwrap().0.1, "all todo have 1 items");
    match &tool.count_all_task().unwrap().content[0] {
        ToolOutput::Text(t) => assert_eq!(t, "Task have: 1 items"),
        _ => panic!("expected text"),
    }
    assert_eq!(
        count_done_task(&mut http_uc).unwrap().0.1,
        "all todo have 1 task that mark as done"
    );
    match &tool.count_done_task().unwrap().content[0] {
        ToolOutput::Text(t) => assert_eq!(t, "You have 1 tasks, mark as done"),
        _ => panic!("expected text"),
    }
}
