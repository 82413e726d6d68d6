//! The HTTP adapter: one stateless handler per route. Each handler takes the
//! already-deserialized input, calls exactly one use-case method and maps the
//! outcome to a success envelope with status 200 or an error envelope with
//! status 400; no handler performs business logic itself.

use vstd::prelude::*;
use vstd::string::*;
use crate::response_type::{ErrorResponse, HttpStatus, Response, SuccessResponse};
use crate::task_table::{TableModel, count_flag, created_row, patched_row, row_with_id};
use crate::text::{concat2, dec_int, is_i32_numeral, numeral_val, parse_i32, u64_to_string};
use crate::todo_dto::{ReqCreateTodoDto, ReqUpdateTodoDto, ResEntryTodoDto};
use crate::todo_entity::{TaskViewModel, task_view_of};
use crate::todo_repository::{dtos_model, views_of};
use crate::todo_usecase::{TodoRepository, TodolistUseCase, boundary_create_ok,
    boundary_create_table, boundary_delete_ok, boundary_delete_table, boundary_get_ok,
    boundary_update_ok, boundary_update_table};

verus! {

// ---------------------------------------------------------------------------
// Logical routes
// ---------------------------------------------------------------------------
/// The verb of a logical route.
#[derive(Debug, Clone, Copy, PartialEq, Eq, Structural)]
pub enum HttpMethod {
    Get,
    Post,
    Put,
    Delete,
}

/// The business operation a route dispatches to.
#[derive(Debug, Clone, Copy, PartialEq, Eq, Structural)]
pub enum RouteOperation {
    CreateTodo,
    UpdateTodo,
    GetById,
    GetAll,
    DeleteTodo,
    CountAllTask,
    CountDoneTask,
    CountUndoneTask,
}

/// One logical route: a verb, a path, and the operation it serves.
#[derive(Debug)]
pub struct Route {
    pub method: HttpMethod,
    pub path: String,
    pub operation: RouteOperation,
}

fn route(method: HttpMethod, path: &str, operation: RouteOperation) -> (r: Route)
    ensures
        r.method == method,
        r.path@ == path@,
        r.operation == operation,
{
    Route { method, path: String::from_str(path), operation }
}

/// The eight routes of the task service, in mounting order.
pub fn todolist_routes() -> (r: Vec<Route>)
    ensures
        r@.len() == 8,
        r@[0].method == HttpMethod::Post && r@[0].path@ == "/todo"@ && r@[0].operation
            == RouteOperation::CreateTodo,
        r@[1].method == HttpMethod::Put && r@[1].path@ == "/todo"@ && r@[1].operation
            == RouteOperation::UpdateTodo,
        r@[2].method == HttpMethod::Get && r@[2].path@ == "/todo/<todo_id>"@ && r@[2].operation
            == RouteOperation::GetById,
        r@[3].method == HttpMethod::Get && r@[3].path@ == "/todo"@ && r@[3].operation
            == RouteOperation::GetAll,
        r@[4].method == HttpMethod::Delete && r@[4].path@ == "/todo/<todo_id>"@ && r@[4].operation
            == RouteOperation::DeleteTodo,
        r@[5].method == HttpMethod::Get && r@[5].path@ == "/todo/all"@ && r@[5].operation
            == RouteOperation::CountAllTask,
        r@[6].method == HttpMethod::Get && r@[6].path@ == "/todo/done"@ && r@[6].operation
            == RouteOperation::CountDoneTask,
        r@[7].method == HttpMethod::Get && r@[7].path@ == "/todo/undone"@ && r@[7].operation
            == RouteOperation::CountUndoneTask,
{
    let mut r: Vec<Route> = Vec::new();
    r.push(route(HttpMethod::Post, "/todo", RouteOperation::CreateTodo));
    r.push(route(HttpMethod::Put, "/todo", RouteOperation::UpdateTodo));
    r.push(route(HttpMethod::Get, "/todo/<todo_id>", RouteOperation::GetById));
    r.push(route(HttpMethod::Get, "/todo", RouteOperation::GetAll));
    r.push(route(HttpMethod::Delete, "/todo/<todo_id>", RouteOperation::DeleteTodo));
    r.push(route(HttpMethod::Get, "/todo/all", RouteOperation::CountAllTask));
    r.push(route(HttpMethod::Get, "/todo/done", RouteOperation::CountDoneTask));
    r.push(route(HttpMethod::Get, "/todo/undone", RouteOperation::CountUndoneTask));
    r
}

// ---------------------------------------------------------------------------
// Body rendering
// ---------------------------------------------------------------------------
/// The rendering of a truth value.
pub open spec fn bool_text(b: bool) -> Seq<char> {
    if b {
        "true"@
    } else {
        "false"@
    }
}

fn render_bool(b: bool) -> (r: &'static str)
    ensures
        r@ == bool_text(b),
{
    if b {
        "true"
    } else {
        "false"
    }
}

/// The rendering of one task view in a response body.
pub open spec fn entry_text(m: TaskViewModel) -> Seq<char> {
    "id: "@ + dec_int(m.id) + ", title: "@ + m.title + ", description: "@ + m.description
        + ", is_done: "@ + bool_text(m.is_done) + ", created_at: "@ + m.created_at
        + ", updated_at: "@ + m.updated_at
}

/// Renders one task view.
pub fn render_entry(v: &ResEntryTodoDto) -> (r: String)
    ensures
        r@ == entry_text(v@),
{
    let digits = u64_to_string(v.id as u64);
    let mut s = concat2("id: ", digits.as_str());
    s.append(", title: ");
    s.append(v.title.as_str());
    s.append(", description: ");
    s.append(v.description.as_str());
    s.append(", is_done: ");
    s.append(render_bool(v.is_done));
    s.append(", created_at: ");
    s.append(v.created_at.as_str());
    s.append(", updated_at: ");
    s.append(v.updated_at.as_str());
    proof {
        assert(s@ =~= entry_text(v@));
    }
    s
}

/// The rendering of several task views, separated by commas.
pub open spec fn entries_text(s: Seq<TaskViewModel>) -> Seq<char>
    decreases s.len(),
{
    if s.len() == 0 {
        Seq::empty()
    } else if s.len() == 1 {
        entry_text(s[0])
    } else {
        entries_text(s.drop_last()) + ", "@ + entry_text(s.last())
    }
}

/// The rendering of a whole task list in a response body.
pub open spec fn list_text(s: Seq<TaskViewModel>) -> Seq<char> {
    "["@ + entries_text(s) + "]"@
}

/// Renders a whole task list.
pub fn render_list(v: &Vec<ResEntryTodoDto>) -> (r: String)
    ensures
        r@ == list_text(dtos_model(v@)),
{
    let ghost vs: Seq<TaskViewModel> = dtos_model(v@);
    let n = v.len();
    let mut body = String::new();
    let mut k: usize = 0;
    while k < n
        invariant
            n == v.len(),
            k <= n,
            vs == dtos_model(v@),
            body@ == entries_text(vs.take(k as int)),
        decreases n - k,
    {
        if k > 0 {
            body.append(", ");
        }
        let e = render_entry(&v[k]);
        body.append(e.as_str());
        proof {
            assert(vs.take(k as int + 1).drop_last() =~= vs.take(k as int));
            assert(vs.take(k as int + 1).last() == vs[k as int]);
            assert(body@ =~= entries_text(vs.take(k as int + 1)));
        }
        k = k + 1;
    }
    proof {
        assert(vs.take(n as int) =~= vs);
    }
    let mut r = String::from_str("[");
    r.append(body.as_str());
    r.append("]");
    proof {
        assert(r@ =~= list_text(vs));
    }
    r
}

// ---------------------------------------------------------------------------
// Route handlers
// ---------------------------------------------------------------------------
/// The success body of a create.
pub open spec fn create_ok_text(t: TableModel, c: crate::todo_entity::CreateModel, now: Seq<char>) -> Seq<char> {
    "Task create succesfull id: "@ + dec_int(task_view_of(created_row(t, c, now)).id)
}

/// Creates a task: 200 with the new identifier, or 400 when validation or the
/// use-case refuses.
pub fn create_todo<R: TodoRepository>(
    todo_data: ReqCreateTodoDto,
    state: &mut TodolistUseCase<R>,
    now: &str,
) -> (resp: Response<String>)
    requires
        old(state).inv(),
    ensures
        final(state).inv(),
        final(state).can_connect() == old(state).can_connect(),
        final(state).table() == boundary_create_table(
            old(state).table(),
            old(state).can_connect(),
            todo_data@,
            now@,
        ),
        match resp {
            Ok(s) => boundary_create_ok(old(state).table(), old(state).can_connect(), todo_data@)
                && s.0.0.code == 200 && s.0.1@ == create_ok_text(old(state).table(), todo_data@, now@),
            Err(e) => !boundary_create_ok(old(state).table(), old(state).can_connect(), todo_data@)
                && e.0.0.code == 400 && e.0.1@ == "Failed to create task please try again"@,
        },
{
    if !todo_data.validate() {
        return Err(
            ErrorResponse(
                (
                    HttpStatus::bad_request(),
                    String::from_str("Failed to create task please try again"),
                ),
            ),
        );
    }
    match state.create_task(todo_data, now) {
        Ok(data) => {
            let digits = u64_to_string(data.id as u64);
            Ok(
                SuccessResponse(
                    (HttpStatus::status_ok(), concat2("Task create succesfull id: ", digits.as_str())),
                ),
            )
        },
        Err(_) => Err(
            ErrorResponse(
                (
                    HttpStatus::bad_request(),
                    String::from_str("Failed to create task please try again"),
                ),
            ),
        ),
    }
}

/// Updates a task by the identifier carried in the body: 200, or 400 when
/// validation or the use-case refuses.
pub fn update_todo<R: TodoRepository>(
    todo_data: ReqUpdateTodoDto,
    state: &mut TodolistUseCase<R>,
    now: &str,
) -> (resp: Response<String>)
    requires
        old(state).inv(),
    ensures
        final(state).inv(),
        final(state).can_connect() == old(state).can_connect(),
        final(state).table() == boundary_update_table(
            old(state).table(),
            old(state).can_connect(),
            todo_data@,
            now@,
        ),
        match resp {
            Ok(s) => boundary_update_ok(old(state).table(), old(state).can_connect(), todo_data@)
                && s.0.0.code == 200 && s.0.1@ == "Task Update Successfull"@,
            Err(e) => !boundary_update_ok(old(state).table(), old(state).can_connect(), todo_data@)
                && e.0.0.code == 400 && e.0.1@ == "Failed to update the task"@,
        },
{
    let extract_id = todo_data.id;
    if !todo_data.validate() {
        return Err(
            ErrorResponse(
                (HttpStatus::bad_request(), String::from_str("Failed to update the task")),
            ),
        );
    }
    match state.update_task(extract_id, todo_data, now) {
        Ok(_) => Ok(
            SuccessResponse((HttpStatus::status_ok(), String::from_str("Task Update Successfull"))),
        ),
        Err(_) => Err(
            ErrorResponse(
                (HttpStatus::bad_request(), String::from_str("Failed to update the task")),
            ),
        ),
    }
}

/// Gets one task by the identifier in the path segment: 200 with the rendered
/// view; 400 when the segment is not a number (failing fast, not panicking)
/// or when the use-case refuses.
pub fn get_by_id<R: TodoRepository>(todo_id: String, state: &mut TodolistUseCase<R>) -> (resp:
    Response<String>)
    requires
        old(state).inv(),
    ensures
        final(state).inv(),
        final(state).can_connect() == old(state).can_connect(),
        final(state).table() == old(state).table(),
        match resp {
            Ok(s) => is_i32_numeral(todo_id@) && boundary_get_ok(
                old(state).table(),
                old(state).can_connect(),
                numeral_val(todo_id@),
            ) && s.0.0.code == 200 && s.0.1@ == entry_text(
                task_view_of(row_with_id(old(state).table().rows, numeral_val(todo_id@))),
            ),
            Err(e) => (!is_i32_numeral(todo_id@) || !boundary_get_ok(
                old(state).table(),
                old(state).can_connect(),
                numeral_val(todo_id@),
            )) && e.0.0.code == 400 && e.0.1@ == "Fail to get todo by id : "@ + todo_id@,
        },
{
    let id: i32 = match parse_i32(todo_id.as_str()) {
        Some(v) => v,
        None => {
            return Err(
                ErrorResponse(
                    (
                        HttpStatus::bad_request(),
                        concat2("Fail to get todo by id : ", todo_id.as_str()),
                    ),
                ),
            );
        },
    };
    match state.get_by_id(id) {
        Ok(data) => Ok(SuccessResponse((HttpStatus::status_ok(), render_entry(&data)))),
        Err(_) => Err(
            ErrorResponse(
                (HttpStatus::bad_request(), concat2("Fail to get todo by id : ", todo_id.as_str())),
            ),
        ),
    }
}

/// Lists all tasks: 200 with the rendered list, or 400 when the use-case
/// refuses.
pub fn get_all<R: TodoRepository>(state: &mut TodolistUseCase<R>) -> (resp: Response<String>)
    requires
        old(state).inv(),
    ensures
        final(state).inv(),
        final(state).can_connect() == old(state).can_connect(),
        final(state).table() == old(state).table(),
        match resp {
            Ok(s) => old(state).can_connect() && s.0.0.code == 200 && s.0.1@ == list_text(
                views_of(old(state).table().rows),
            ),
            Err(e) => !old(state).can_connect() && e.0.0.code == 400 && e.0.1@
                == "Failed to get all todo"@,
        },
{
    match state.get_all() {
        Ok(data) => Ok(SuccessResponse((HttpStatus::status_ok(), render_list(&data)))),
        Err(_) => Err(
            ErrorResponse((HttpStatus::bad_request(), String::from_str("Failed to get all todo"))),
        ),
    }
}

/// The error body of a delete, over the raw path segment.
pub open spec fn delete_err_text(todo_id: Seq<char>) -> Seq<char> {
    if is_i32_numeral(todo_id) {
        "Fail to delte task id: "@ + dec_int(numeral_val(todo_id))
    } else {
        "Fail to delte task id: "@ + todo_id
    }
}

/// Deletes one task by the identifier in the path segment: 200, or 400 when
/// the segment is not a number or the use-case refuses.
pub fn delete_todo<R: TodoRepository>(todo_id: String, state: &mut TodolistUseCase<R>) -> (resp:
    Response<String>)
    requires
        old(state).inv(),
    ensures
        final(state).inv(),
        final(state).can_connect() == old(state).can_connect(),
        is_i32_numeral(todo_id@) ==> final(state).table() == boundary_delete_table(
            old(state).table(),
            old(state).can_connect(),
            numeral_val(todo_id@),
        ),
        !is_i32_numeral(todo_id@) ==> final(state).table() == old(state).table(),
        match resp {
            Ok(s) => is_i32_numeral(todo_id@) && boundary_delete_ok(
                old(state).table(),
                old(state).can_connect(),
                numeral_val(todo_id@),
            ) && s.0.0.code == 200 && s.0.1@ == "Task id : "@ + dec_int(numeral_val(todo_id@))
                + " has deleted"@,
            Err(e) => (!is_i32_numeral(todo_id@) || !boundary_delete_ok(
                old(state).table(),
                old(state).can_connect(),
                numeral_val(todo_id@),
            )) && e.0.0.code == 400 && e.0.1@ == delete_err_text(todo_id@),
        },
{
    let id: i32 = match parse_i32(todo_id.as_str()) {
        Some(v) => v,
        None => {
            return Err(
                ErrorResponse(
                    (
                        HttpStatus::bad_request(),
                        concat2("Fail to delte task id: ", todo_id.as_str()),
                    ),
                ),
            );
        },
    };
    match state.delete_task(id) {
        Ok(_) => {
            let digits = crate::text::i32_to_string(id);
            let mut s = concat2("Task id : ", digits.as_str());
            s.append(" has deleted");
            proof {
                assert(s@ =~= "Task id : "@ + dec_int(numeral_val(todo_id@)) + " has deleted"@);
            }
            Ok(SuccessResponse((HttpStatus::status_ok(), s)))
        },
        Err(_) => {
            let digits = crate::text::i32_to_string(id);
            Err(
                ErrorResponse(
                    (HttpStatus::bad_request(), concat2("Fail to delte task id: ", digits.as_str())),
                ),
            )
        },
    }
}

/// Counts all tasks: 200 with the total, or 400 when the use-case refuses.
pub fn count_all_task<R: TodoRepository>(state: &mut TodolistUseCase<R>) -> (resp: Response<String>)
    requires
        old(state).inv(),
    ensures
        final(state).inv(),
        final(state).can_connect() == old(state).can_connect(),
        final(state).table() == old(state).table(),
        match resp {
            Ok(s) => old(state).can_connect() && s.0.0.code == 200 && s.0.1@ == "all todo have "@
                + dec_int(old(state).table().rows.len() as int) + " items"@,
            Err(e) => !old(state).can_connect() && e.0.0.code == 400 && e.0.1@
                == "Fail to get all count"@,
        },
{
    match state.count_all_task() {
        Ok(items) => {
            let digits = crate::text::i32_to_string(items);
            let mut s = concat2("all todo have ", digits.as_str());
            s.append(" items");
            proof {
                assert(s@ =~= "all todo have "@ + dec_int(old(state).table().rows.len() as int)
                    + " items"@);
            }
            Ok(SuccessResponse((HttpStatus::status_ok(), s)))
        },
        Err(_) => Err(
            ErrorResponse((HttpStatus::bad_request(), String::from_str("Fail to get all count"))),
        ),
    }
}

/// Counts the tasks marked done: 200 with the count, or 400 when the use-case
/// refuses.
pub fn count_done_task<R: TodoRepository>(state: &mut TodolistUseCase<R>) -> (resp: Response<String>)
    requires
        old(state).inv(),
    ensures
        final(state).inv(),
        final(state).can_connect() == old(state).can_connect(),
        final(state).table() == old(state).table(),
        match resp {
            Ok(s) => old(state).can_connect() && s.0.0.code == 200 && s.0.1@ == "all todo have "@
                + dec_int(count_flag(old(state).table().rows, true))
                + " task that mark as done"@,
            Err(e) => !old(state).can_connect() && e.0.0.code == 400 && e.0.1@
                == "Fail to count done task"@,
        },
{
    match state.count_done_task() {
        Ok(items) => {
            let digits = crate::text::i32_to_string(items);
            let mut s = concat2("all todo have ", digits.as_str());
            s.append(" task that mark as done");
            proof {
                assert(s@ =~= "all todo have "@ + dec_int(
                    count_flag(old(state).table().rows, true),
                ) + " task that mark as done"@);
            }
            Ok(SuccessResponse((HttpStatus::status_ok(), s)))
        },
        Err(_) => Err(
            ErrorResponse(
                (HttpStatus::bad_request(), String::from_str("Fail to count done task")),
            ),
        ),
    }
}

/// Counts the tasks not yet done: 200 with the count, or 400 when the
/// use-case refuses.
pub fn count_undone_task<R: TodoRepository>(state: &mut TodolistUseCase<R>) -> (resp: Response<
    String,
>)
    requires
        old(state).inv(),
    ensures
        final(state).inv(),
        final(state).can_connect() == old(state).can_connect(),
        final(state).table() == old(state).table(),
        match resp {
            Ok(s) => old(state).can_connect() && s.0.0.code == 200 && s.0.1@ == "all todo have "@
                + dec_int(count_flag(old(state).table().rows, false))
                + " task that mark as undone"@,
            Err(e) => !old(state).can_connect() && e.0.0.code == 400 && e.0.1@
                == "Fail to count undone task"@,
        },
{
    match state.count_undone_task() {
        Ok(items) => {
            let digits = crate::text::i32_to_string(items);
            let mut s = concat2("all todo have ", digits.as_str());
            s.append(" task that mark as undone");
            proof {
                assert(s@ =~= "all todo have "@ + dec_int(
                    count_flag(old(state).table().rows, false),
                ) + " task that mark as undone"@);
            }
            Ok(SuccessResponse((HttpStatus::status_ok(), s)))
        },
        Err(_) => Err(
            ErrorResponse(
                (HttpStatus::bad_request(), String::from_str("Fail to count undone task")),
            ),
        ),
    }
}

/// Counts the tasks not yet done, answering plain text, with a server error
/// status when the use-case refuses.
pub fn count_undone<R: TodoRepository>(state: &mut TodolistUseCase<R>) -> (resp: Result<
    String,
    HttpStatus,
>)
    requires
        old(state).inv(),
    ensures
        final(state).inv(),
        final(state).can_connect() == old(state).can_connect(),
        final(state).table() == old(state).table(),
        match resp {
            Ok(s) => old(state).can_connect() && s@ == "You have "@ + dec_int(
                count_flag(old(state).table().rows, false),
            ) + " tasks, mark as undone"@,
            Err(st) => !old(state).can_connect() && st.code == 500,
        },
{
    match state.count_undone_task() {
        Ok(count) => {
            let digits = crate::text::i32_to_string(count);
            let mut s = concat2("You have ", digits.as_str());
            s.append(" tasks, mark as undone");
            proof {
                assert(s@ =~= "You have "@ + dec_int(count_flag(old(state).table().rows, false))
                    + " tasks, mark as undone"@);
            }
            Ok(s)
        },
        Err(_) => Err(HttpStatus::internal_server_error()),
    }
}

} // verus!
