use mcp_todolist::mcp_handler::{MCPHandler, PromptRole, ToolErrorCode, ToolOutput};
use mcp_todolist::storage_pool::conn;
use mcp_todolist::todo_dto::{GetTaskById, ReqCreateTodoDto, ReqUpdateTodoDto};
use mcp_todolist::todo_usecase::TodolistUseCase;
use mcp_todolist::todolist_repository::TodoListRepository;

fn fresh_handler() -> MCPHandler<TodoListRepository> {
    MCPHandler::new(TodolistUseCase::new(TodoListRepository::new(conn("todolist.db"))))
}

fn create_dto(title: &str, description: &str, is_done: bool) -> ReqCreateTodoDto {
    ReqCreateTodoDto { title: title.to_string(), description: description.to_string(), is_done }
}

fn text_of(content: &ToolOutput) -> &str {
    match content {
        ToolOutput::Text(t) => t.as_str(),
        _ => panic!("expected text content"),
    }
}

#[test]
fn create_tool_answers_the_new_identifier() {
    let mut h = fresh_handler();
    let res = h.create_task(create_dto("Buy groceries", "Milk, eggs, and bread", false), "t1")
        .unwrap();
    assert_eq!(res.content.len(), 1);
    assert_eq!(text_of(&res.content[0]), "Task create succesfull id: 1");
}

#[test]
fn create_tool_fails_structuredly_on_invalid_input() {
    let mut h = fresh_handler();
    let err = h.create_task(create_dto("", "x", false), "t").unwrap_err();
    assert_eq!(err.code, ToolErrorCode::InternalError);
    assert_eq!(err.message, "Fail to create");
}

#[test]
fn get_by_id_tool_answers_the_task_view() {
    let mut h = fresh_handler();
    h.create_task(create_dto("a", "b", true), "t1").unwrap();
    let res = h.get_by_id(GetTaskById { id: 1 }).unwrap();
    match &res.content[0] {
        ToolOutput::TaskEntry(v) => {
            assert_eq!(v.id, 1);
            assert_eq!(v.title, "a");
            assert_eq!(v.description, "b");
            assert!(v.is_done);
            assert_eq!(v.created_at, "t1");
        },
        _ => panic!("expected one task view"),
    }
}

#[test]
fn get_by_id_tool_fails_structuredly_on_missing_identifier() {
    let mut h = fresh_handler();
    let err = h.get_by_id(GetTaskById { id: 12 }).unwrap_err();
    assert_eq!(err.code, ToolErrorCode::InternalError);
    assert_eq!(err.message, "Fail to retrive");
}

#[test]
fn get_all_tool_answers_the_whole_list() {
    let mut h = fresh_handler();
    h.create_task(create_dto("a", "1", false), "t").unwrap();
    h.create_task(create_dto("b", "2", true), "t").unwrap();
    let res = h.get_all().unwrap();
    match &res.content[0] {
        ToolOutput::TaskList(v) => {
            assert_eq!(v.len(), 2);
            assert_eq!(v[0].title, "a");
            assert_eq!(v[1].title, "b");
        },
        _ => panic!("expected a task list"),
    }
}

#[test]
fn delete_tool_answers_a_status_message() {
    let mut h = fresh_handler();
    h.create_task(create_dto("a", "1", false), "t").unwrap();
    let res = h.delete_task(GetTaskById { id: 1 }).unwrap();
    assert_eq!(text_of(&res.content[0]), "Task delete succesfull!!!");
    let err = h.delete_task(GetTaskById { id: 1 }).unwrap_err();
    assert_eq!(err.message, "Fail to delete");
}

#[test]
fn update_tool_patches_and_answers_a_status_message() {
    let mut h = fresh_handler();
    h.create_task(create_dto("a", "1", false), "t1").unwrap();
    let patch = ReqUpdateTodoDto { id: 1, title: None, description: None, is_done: Some(true) };
    let res = h.update_task(patch, "t2").unwrap();
    assert_eq!(text_of(&res.content[0]), "Task update succesfull!!!");
    let count = h.count_done_task().unwrap();
    assert_eq!(text_of(&count.content[0]), "You have 1 tasks, mark as done");
}

#[test]
fn update_tool_fails_structuredly_on_missing_identifier() {
    let mut h = fresh_handler();
    let patch = ReqUpdateTodoDto { id: 5, title: None, description: None, is_done: Some(true) };
    let err = h.update_task(patch, "t").unwrap_err();
    assert_eq!(err.code, ToolErrorCode::InternalError);
    assert_eq!(err.message, "Fail to update");
}

#[test]
fn count_tools_answer_text_tallies() {
    let mut h = fresh_handler();
    h.create_task(create_dto("a", "1", true), "t").unwrap();
    h.create_task(create_dto("b", "2", false), "t").unwrap();
    assert_eq!(text_of(&h.count_all_task().unwrap().content[0]), "Task have: 2 items");
    assert_eq!(
        text_of(&h.count_done_task().unwrap().content[0]),
        "You have 1 tasks, mark as done"
    );
    assert_eq!(
        text_of(&h.count_undone_task().unwrap().content[0]),
        "You have 1 tasks, mark as undone"
    );
}

#[test]
fn server_info_announces_capabilities() {
    let h = fresh_handler();
    let info = h.get_info();
    assert_eq!(info.protocol_version, "2024-11-05");
    assert!(info.prompts_enabled);
    assert!(info.resources_enabled);
    assert!(info.tools_enabled);
    assert_eq!(info.instructions, "Real personal financial analysis");
}

#[test]
fn resource_listing_offers_the_two_static_resources() {
    let h = fresh_handler();
    let listing = h.list_resources();
    assert_eq!(listing.resources.len(), 2);
    assert_eq!(listing.resources[0].uri, "str:////Users/to/some/path/");
    assert_eq!(listing.resources[0].name, "cwd");
    assert_eq!(listing.resources[1].uri, "memo://insights");
    assert_eq!(listing.resources[1].name, "memo-name");
    assert!(listing.next_cursor.is_none());
}

#[test]
fn read_resource_answers_contents_or_a_structured_not_found() {
    let h = fresh_handler();
    let cwd = h.read_resource("str:////Users/to/some/path/").unwrap();
    assert_eq!(cwd.contents[0].text, "/Users/to/some/path/");
    assert_eq!(cwd.contents[0].uri, "str:////Users/to/some/path/");
    let memo = h.read_resource("memo://insights").unwrap();
    assert!(memo.contents[0].text.starts_with("Business Intelligence Memo"));
    let err = h.read_resource("memo://other").unwrap_err();
    assert_eq!(err.code, ToolErrorCode::ResourceNotFound);
    assert_eq!(err.message, "resource_not_found");
}

#[test]
fn prompt_listing_offers_the_example_prompt() {
    let h = fresh_handler();
    let listing = h.list_prompts();
    assert_eq!(listing.prompts.len(), 1);
    assert_eq!(listing.prompts[0].name, "example_prompt");
    assert_eq!(listing.prompts[0].arguments.len(), 1);
    assert_eq!(listing.prompts[0].arguments[0].name, "message");
    assert_eq!(listing.prompts[0].arguments[0].required, Some(true));
}

#[test]
fn get_prompt_renders_the_message_or_fails_structuredly() {
    let h = fresh_handler();
    let args = vec![("message".to_string(), "hello there".to_string())];
    let res = h.get_prompt("example_prompt", Some(args)).unwrap();
    assert!(res.description.is_none());
    assert_eq!(res.messages.len(), 1);
    assert_eq!(res.messages[0].role, PromptRole::User);
    assert_eq!(
        res.messages[0].text,
        "This is an example prompt with your message here: 'hello there'"
    );
    let missing = h.get_prompt("example_prompt", Some(vec![])).unwrap_err();
    assert_eq!(missing.code, ToolErrorCode::InvalidParams);
    assert_eq!(missing.message, "No message provided to example_prompt");
    let none_at_all = h.get_prompt("example_prompt", None).unwrap_err();
    assert_eq!(none_at_all.message, "No message provided to example_prompt");
    let unknown = h.get_prompt("other_prompt", None).unwrap_err();
    assert_eq!(unknown.code, ToolErrorCode::InvalidParams);
    assert_eq!(unknown.message, "prompt not found");
}

#[test]
fn resource_template_listing_is_empty() {
    let h = fresh_handler();
    let listing = h.list_resource_templates();
    assert!(listing.resource_templates.is_empty());
    assert!(listing.next_cursor.is_none());
}

#[test]
fn get_by_id_tool_wraps_oversized_identifiers_into_the_signed_space() {
    let mut h = fresh_handler();
    h.create_task(create_dto("a", "b", false), "t").unwrap();
    // u32::MAX reinterprets as -1, which no row carries.
    let err = h.get_by_id(GetTaskById { id: u32::MAX }).unwrap_err();
    assert_eq!(err.code, ToolErrorCode::InternalError);
    assert_eq!(err.message, "Fail to retrive");
}
