//! The tool-invocation adapter: one named tool per business operation, each a
//! thin wrapper with the identical one-call-per-operation shape as the HTTP
//! adapter, plus the discovery operations the protocol asks for. Every failed
//! tool call answers a structured error carrying the use-case's normalized
//! message, never a transport-level disconnect.

use vstd::prelude::*;
use vstd::string::*;
use crate::task_table::{TableModel, count_flag, created_row, row_with_id};
use crate::text::{concat2, concat3, dec_int, str_eq};
use crate::todo_dto::{GetTaskById, ReqCreateTodoDto, ReqUpdateTodoDto, ResEntryTodoDto};
use crate::todo_entity::task_view_of;
use crate::todo_repository::{dtos_model, views_of};
use crate::todo_usecase::{TodoRepository, TodolistUseCase, UseCaseError, boundary_create_ok,
    boundary_create_table, boundary_delete_ok, boundary_delete_table, boundary_get_ok,
    boundary_update_ok, boundary_update_table};

verus! {

// ---------------------------------------------------------------------------
// Structured results and errors
// ---------------------------------------------------------------------------
/// The kind of a structured tool failure.
#[derive(Debug, Clone, Copy, PartialEq, Eq, Structural)]
pub enum ToolErrorCode {
    InternalError,
    InvalidParams,
    ResourceNotFound,
}

/// A structured tool failure: an explicit error answer on the transport.
#[derive(Debug)]
pub struct ToolError {
    pub code: ToolErrorCode,
    pub message: String,
}

/// One piece of content a tool call answers with: plain text, one task view,
/// or a task list.
#[derive(Debug)]
pub enum ToolOutput {
    Text(String),
    TaskEntry(ResEntryTodoDto),
    TaskList(Vec<ResEntryTodoDto>),
}

/// A successful tool call result.
#[derive(Debug)]
pub struct ToolCallResult {
    pub content: Vec<ToolOutput>,
}

fn text_result(s: String) -> (r: ToolCallResult)
    ensures
        r.content@.len() == 1,
        r.content@[0] matches ToolOutput::Text(t) && t@ == s@,
{
    let mut content: Vec<ToolOutput> = Vec::new();
    content.push(ToolOutput::Text(s));
    ToolCallResult { content }
}

fn internal_error(message: String) -> (e: ToolError)
    ensures
        e.code == ToolErrorCode::InternalError,
        e.message@ == message@,
{
    ToolError { code: ToolErrorCode::InternalError, message }
}

// ---------------------------------------------------------------------------
// Discovery models
// ---------------------------------------------------------------------------
/// What the server says about itself.
#[derive(Debug)]
pub struct ServerInfoModel {
    pub protocol_version: String,
    pub prompts_enabled: bool,
    pub resources_enabled: bool,
    pub tools_enabled: bool,
    pub instructions: String,
}

/// One listed resource.
#[derive(Debug)]
pub struct ResourceModel {
    pub uri: String,
    pub name: String,
}

/// The resource listing.
#[derive(Debug)]
pub struct ListResourcesModel {
    pub resources: Vec<ResourceModel>,
    pub next_cursor: Option<String>,
}

/// One block of resource contents.
#[derive(Debug)]
pub struct ResourceContentsModel {
    pub text: String,
    pub uri: String,
}

/// The answer to reading one resource.
#[derive(Debug)]
pub struct ReadResourceModel {
    pub contents: Vec<ResourceContentsModel>,
}

/// One argument a prompt declares.
#[derive(Debug)]
pub struct PromptArgumentModel {
    pub name: String,
    pub description: Option<String>,
    pub required: Option<bool>,
}

/// One listed prompt.
#[derive(Debug)]
pub struct PromptModel {
    pub name: String,
    pub description: Option<String>,
    pub arguments: Vec<PromptArgumentModel>,
}

/// The prompt listing.
#[derive(Debug)]
pub struct ListPromptsModel {
    pub prompts: Vec<PromptModel>,
    pub next_cursor: Option<String>,
}

/// Who speaks a prompt message.
#[derive(Debug, Clone, Copy, PartialEq, Eq, Structural)]
pub enum PromptRole {
    User,
    Assistant,
}

/// One message of a rendered prompt.
#[derive(Debug)]
pub struct PromptMessageModel {
    pub role: PromptRole,
    pub text: String,
}

/// A rendered prompt.
#[derive(Debug)]
pub struct PromptResultModel {
    pub description: Option<String>,
    pub messages: Vec<PromptMessageModel>,
}

/// One resource template (none are offered).
#[derive(Debug)]
pub struct ResourceTemplateModel {
    pub uri_template: String,
    pub name: String,
}

/// The resource template listing.
#[derive(Debug)]
pub struct ListResourceTemplatesModel {
    pub resource_templates: Vec<ResourceTemplateModel>,
    pub next_cursor: Option<String>,
}

/// Looks a key up in call arguments: the first pair carrying the key wins.
pub open spec fn arg_lookup(args: Seq<(String, String)>, key: Seq<char>) -> Option<Seq<char>>
    decreases args.len(),
{
    if args.len() == 0 {
        None
    } else if args[0].0@ == key {
        Some(args[0].1@)
    } else {
        arg_lookup(args.drop_first(), key)
    }
}

// ---------------------------------------------------------------------------
// The handler
// ---------------------------------------------------------------------------
/// The identifier a tool call addresses, reinterpreted as the storage's
/// signed identifier type.
pub open spec fn wrap_i32(n: int) -> int {
    if n <= i32::MAX {
        n
    } else {
        n - 0x1_0000_0000
    }
}

fn id_as_i32(id: u32) -> (r: i32)
    ensures
        r as int == wrap_i32(id as int),
{
    if id <= 0x7fff_ffffu32 {
        id as i32
    } else {
        ((id as i64) - 0x1_0000_0000i64) as i32
    }
}

/// The value of the first call argument named `message`, if any.
fn find_message(args: &Vec<(String, String)>) -> (r: Option<String>)
    ensures
        match r {
            Some(s) => arg_lookup(args@, "message"@) == Some(s@),
            None => arg_lookup(args@, "message"@) is None,
        },
{
    let n = args.len();
    let mut k: usize = 0;
    proof {
        assert(args@.skip(0) =~= args@);
    }
    while k < n
        invariant
            n == args.len(),
            k <= n,
            arg_lookup(args@, "message"@) == arg_lookup(args@.skip(k as int), "message"@),
        decreases n - k,
    {
        proof {
            assert(args@.skip(k as int)[0] == args@[k as int]);
            assert(args@.skip(k as int).drop_first() =~= args@.skip(k as int + 1));
        }
        if str_eq(args[k].0.as_str(), "message") {
            proof {
                assert(arg_lookup(args@.skip(k as int), "message"@) == Some(args@[k as int].1@));
            }
            return Some(args[k].1.clone());
        }
        k = k + 1;
    }
    proof {
        assert(args@.skip(n as int) =~= Seq::<(String, String)>::empty());
    }
    None
}

/// The tool-protocol front end around the shared use-case service.
pub struct MCPHandler<R: TodoRepository> {
    todo_use_case: TodolistUseCase<R>,
}

impl<R: TodoRepository> MCPHandler<R> {
    /// The model of the stored table the tools reach.
    pub closed spec fn table(&self) -> TableModel {
        self.todo_use_case.table()
    }

    /// Whether the storage backend can lend a connection.
    pub closed spec fn can_connect(&self) -> bool {
        self.todo_use_case.can_connect()
    }

    /// Validity of the handler state.
    pub closed spec fn inv(&self) -> bool {
        self.todo_use_case.inv()
    }

    /// Builds the front end around the shared use-case service.
    pub fn new(use_case: TodolistUseCase<R>) -> (h: Self)
        ensures
            h.inv() == use_case.inv(),
            h.table() == use_case.table(),
            h.can_connect() == use_case.can_connect(),
    {
        MCPHandler { todo_use_case: use_case }
    }

    /// Hands the shared use-case service back to the caller, for a front end
    /// that interleaves this adapter with another over one service.
    pub fn into_use_case(self) -> (u: TodolistUseCase<R>)
        ensures
            u.inv() == self.inv(),
            u.table() == self.table(),
            u.can_connect() == self.can_connect(),
    {
        self.todo_use_case
    }

    /// A resource entry with no annotations.
    pub fn _create_resource_text(&self, uri: &str, name: &str) -> (r: ResourceModel)
        ensures
            r.uri@ == uri@,
            r.name@ == name@,
    {
        ResourceModel { uri: String::from_str(uri), name: String::from_str(name) }
    }

    /// Creates a task; answers the new identifier as text.
    pub fn create_task(&mut self, dto: ReqCreateTodoDto, now: &str) -> (r: Result<
        ToolCallResult,
        ToolError,
    >)
        requires
            old(self).inv(),
        ensures
            final(self).inv(),
            final(self).can_connect() == old(self).can_connect(),
            final(self).table() == boundary_create_table(
                old(self).table(),
                old(self).can_connect(),
                dto@,
                now@,
            ),
            match r {
                Ok(res) => boundary_create_ok(old(self).table(), old(self).can_connect(), dto@)
                    && res.content@.len() == 1 && (res.content@[0] matches ToolOutput::Text(t)
                    && t@ == "Task create succesfull id: "@ + dec_int(
                    task_view_of(created_row(old(self).table(), dto@, now@)).id,
                )),
                Err(e) => !boundary_create_ok(old(self).table(), old(self).can_connect(), dto@)
                    && e.code == ToolErrorCode::InternalError && e.message@
                    == UseCaseError::CreateFailed.spec_message(),
            },
    {
        if !dto.validate() {
            return Err(internal_error(UseCaseError::CreateFailed.message()));
        }
        match self.todo_use_case.create_task(dto, now) {
            Ok(data) => {
                let digits = crate::text::u64_to_string(data.id as u64);
                Ok(text_result(concat2("Task create succesfull id: ", digits.as_str())))
            },
            Err(e) => Err(internal_error(e.message())),
        }
    }

    /// Fetches one task by identifier; answers the task view.
    pub fn get_by_id(&mut self, dto: GetTaskById) -> (r: Result<ToolCallResult, ToolError>)
        requires
            old(self).inv(),
        ensures
            final(self).inv(),
            final(self).can_connect() == old(self).can_connect(),
            final(self).table() == old(self).table(),
            match r {
                Ok(res) => boundary_get_ok(
                    old(self).table(),
                    old(self).can_connect(),
                    wrap_i32(dto.id as int),
                ) && res.content@.len() == 1 && (res.content@[0] matches ToolOutput::TaskEntry(v)
                    && v@ == task_view_of(
                    row_with_id(old(self).table().rows, wrap_i32(dto.id as int)),
                )),
                Err(e) => !boundary_get_ok(
                    old(self).table(),
                    old(self).can_connect(),
                    wrap_i32(dto.id as int),
                ) && e.code == ToolErrorCode::InternalError && e.message@
                    == UseCaseError::RetrieveFailed.spec_message(),
            },
    {
        let id = id_as_i32(dto.id);
        match self.todo_use_case.get_by_id(id) {
            Ok(data) => {
                let mut content: Vec<ToolOutput> = Vec::new();
                content.push(ToolOutput::TaskEntry(data));
                Ok(ToolCallResult { content })
            },
            Err(e) => Err(internal_error(e.message())),
        }
    }

    /// Fetches every task; answers the whole list.
    pub fn get_all(&mut self) -> (r: Result<ToolCallResult, ToolError>)
        requires
            old(self).inv(),
        ensures
            final(self).inv(),
            final(self).can_connect() == old(self).can_connect(),
            final(self).table() == old(self).table(),
            match r {
                Ok(res) => old(self).can_connect() && res.content@.len() == 1 && (res.content@[0]
                    matches ToolOutput::TaskList(v) && dtos_model(v@) == views_of(
                    old(self).table().rows,
                )),
                Err(e) => !old(self).can_connect() && e.code == ToolErrorCode::InternalError
                    && e.message@ == UseCaseError::ListFailed.spec_message(),
            },
    {
        match self.todo_use_case.get_all() {
            Ok(inner_data) => {
                let mut content: Vec<ToolOutput> = Vec::new();
                content.push(ToolOutput::TaskList(inner_data));
                Ok(ToolCallResult { content })
            },
            Err(e) => Err(internal_error(e.message())),
        }
    }

    /// Deletes one task by identifier; answers a status message.
    pub fn delete_task(&mut self, dto: GetTaskById) -> (r: Result<ToolCallResult, ToolError>)
        requires
            old(self).inv(),
        ensures
            final(self).inv(),
            final(self).can_connect() == old(self).can_connect(),
            final(self).table() == boundary_delete_table(
                old(self).table(),
                old(self).can_connect(),
                wrap_i32(dto.id as int),
            ),
            match r {
                Ok(res) => boundary_delete_ok(
                    old(self).table(),
                    old(self).can_connect(),
                    wrap_i32(dto.id as int),
                ) && res.content@.len() == 1 && (res.content@[0] matches ToolOutput::Text(t) && t@
                    == "Task delete succesfull!!!"@),
                Err(e) => !boundary_delete_ok(
                    old(self).table(),
                    old(self).can_connect(),
                    wrap_i32(dto.id as int),
                ) && e.code == ToolErrorCode::InternalError && e.message@
                    == UseCaseError::DeleteFailed.spec_message(),
            },
    {
        let id = id_as_i32(dto.id);
        match self.todo_use_case.delete_task(id) {
            Ok(_) => Ok(text_result(String::from_str("Task delete succesfull!!!"))),
            Err(e) => Err(internal_error(e.message())),
        }
    }

    /// Updates one task by the identifier carried in the request; answers a
    /// status message.
    pub fn update_task(&mut self, dto: ReqUpdateTodoDto, now: &str) -> (r: Result<
        ToolCallResult,
        ToolError,
    >)
        requires
            old(self).inv(),
        ensures
            final(self).inv(),
            final(self).can_connect() == old(self).can_connect(),
            final(self).table() == boundary_update_table(
                old(self).table(),
                old(self).can_connect(),
                dto@,
                now@,
            ),
            match r {
                Ok(res) => boundary_update_ok(old(self).table(), old(self).can_connect(), dto@)
                    && res.content@.len() == 1 && (res.content@[0] matches ToolOutput::Text(t) && t@
                    == "Task update succesfull!!!"@),
                Err(e) => !boundary_update_ok(old(self).table(), old(self).can_connect(), dto@)
                    && e.code == ToolErrorCode::InternalError && e.message@
                    == UseCaseError::UpdateFailed.spec_message(),
            },
    {
        let extract_id = dto.id;
        if !dto.validate() {
            return Err(internal_error(UseCaseError::UpdateFailed.message()));
        }
        match self.todo_use_case.update_task(extract_id, dto, now) {
            Ok(_) => Ok(text_result(String::from_str("Task update succesfull!!!"))),
            Err(e) => Err(internal_error(e.message())),
        }
    }

    /// Counts every task; answers a text tally.
    pub fn count_all_task(&mut self) -> (r: Result<ToolCallResult, ToolError>)
        requires
            old(self).inv(),
        ensures
            final(self).inv(),
            final(self).can_connect() == old(self).can_connect(),
            final(self).table() == old(self).table(),
            match r {
                Ok(res) => old(self).can_connect() && res.content@.len() == 1 && (res.content@[0]
                    matches ToolOutput::Text(t) && t@ == "Task have: "@ + dec_int(
                    old(self).table().rows.len() as int,
                ) + " items"@),
                Err(e) => !old(self).can_connect() && e.code == ToolErrorCode::InternalError
                    && e.message@ == UseCaseError::CountAllFailed.spec_message(),
            },
    {
        match self.todo_use_case.count_all_task() {
            Ok(data) => {
                let digits = crate::text::i32_to_string(data);
                let mut s = concat2("Task have: ", digits.as_str());
                s.append(" items");
                proof {
                    assert(s@ =~= "Task have: "@ + dec_int(old(self).table().rows.len() as int)
                        + " items"@);
                }
                Ok(text_result(s))
            },
            Err(e) => Err(internal_error(e.message())),
        }
    }

    /// Counts the tasks marked done; answers a text tally.
    pub fn count_done_task(&mut self) -> (r: Result<ToolCallResult, ToolError>)
        requires
            old(self).inv(),
        ensures
            final(self).inv(),
            final(self).can_connect() == old(self).can_connect(),
            final(self).table() == old(self).table(),
            match r {
                Ok(res) => old(self).can_connect() && res.content@.len() == 1 && (res.content@[0]
                    matches ToolOutput::Text(t) && t@ == "You have "@ + dec_int(
                    count_flag(old(self).table().rows, true),
                ) + " tasks, mark as done"@),
                Err(e) => !old(self).can_connect() && e.code == ToolErrorCode::InternalError
                    && e.message@ == UseCaseError::CountDoneFailed.spec_message(),
            },
    {
        match self.todo_use_case.count_done_task() {
            Ok(data) => {
                let digits = crate::text::i32_to_string(data);
                let mut s = concat2("You have ", digits.as_str());
                s.append(" tasks, mark as done");
                proof {
                    assert(s@ =~= "You have "@ + dec_int(count_flag(old(self).table().rows, true))
                        + " tasks, mark as done"@);
                }
                Ok(text_result(s))
            },
            Err(e) => Err(internal_error(e.message())),
        }
    }

    /// Counts the tasks not yet done; answers a text tally.
    pub fn count_undone_task(&mut self) -> (r: Result<ToolCallResult, ToolError>)
        requires
            old(self).inv(),
        ensures
            final(self).inv(),
            final(self).can_connect() == old(self).can_connect(),
            final(self).table() == old(self).table(),
            match r {
                Ok(res) => old(self).can_connect() && res.content@.len() == 1 && (res.content@[0]
                    matches ToolOutput::Text(t) && t@ == "You have "@ + dec_int(
                    count_flag(old(self).table().rows, false),
                ) + " tasks, mark as undone"@),
                Err(e) => !old(self).can_connect() && e.code == ToolErrorCode::InternalError
                    && e.message@ == UseCaseError::CountUndoneFailed.spec_message(),
            },
    {
        match self.todo_use_case.count_undone_task() {
            Ok(data) => {
                let digits = crate::text::i32_to_string(data);
                let mut s = concat2("You have ", digits.as_str());
                s.append(" tasks, mark as undone");
                proof {
                    assert(s@ =~= "You have "@ + dec_int(count_flag(old(self).table().rows, false))
                        + " tasks, mark as undone"@);
                }
                Ok(text_result(s))
            },
            Err(e) => Err(internal_error(e.message())),
        }
    }

    /// What the server announces: protocol version, capabilities, and the
    /// instruction text.
    pub fn get_info(&self) -> (r: ServerInfoModel)
        ensures
            r.protocol_version@ == "2024-11-05"@,
            r.prompts_enabled,
            r.resources_enabled,
            r.tools_enabled,
            r.instructions@ == "Real personal financial analysis"@,
    {
        ServerInfoModel {
            protocol_version: String::from_str("2024-11-05"),
            prompts_enabled: true,
            resources_enabled: true,
            tools_enabled: true,
            instructions: String::from_str("Real personal financial analysis"),
        }
    }

    /// The two static resources offered for introspection.
    pub fn list_resources(&self) -> (r: ListResourcesModel)
        ensures
            r.resources@.len() == 2,
            r.resources@[0].uri@ == "str:////Users/to/some/path/"@ && r.resources@[0].name@
                == "cwd"@,
            r.resources@[1].uri@ == "memo://insights"@ && r.resources@[1].name@ == "memo-name"@,
            r.next_cursor is None,
    {
        let mut resources: Vec<ResourceModel> = Vec::new();
        resources.push(self._create_resource_text("str:////Users/to/some/path/", "cwd"));
        resources.push(self._create_resource_text("memo://insights", "memo-name"));
        ListResourcesModel { resources, next_cursor: None }
    }

    /// Reads one of the static resources; an unknown locator answers a
    /// structured not-found error.
    pub fn read_resource(&self, uri: &str) -> (r: Result<ReadResourceModel, ToolError>)
        ensures
            uri@ == "str:////Users/to/some/path/"@ ==> (r matches Ok(res) && res.contents@.len()
                == 1 && res.contents@[0].text@ == "/Users/to/some/path/"@ && res.contents@[0].uri@
                == uri@),
            uri@ != "str:////Users/to/some/path/"@ && uri@ == "memo://insights"@ ==> (r matches Ok(
                res,
            ) && res.contents@.len() == 1 && res.contents@[0].text@
                == "Business Intelligence Memo\n\nAnalysis has revealed 5 key insights ..."@
                && res.contents@[0].uri@ == uri@),
            uri@ != "str:////Users/to/some/path/"@ && uri@ != "memo://insights"@ ==> (r matches Err(
                e,
            ) && e.code == ToolErrorCode::ResourceNotFound && e.message@ == "resource_not_found"@),
    {
        if str_eq(uri, "str:////Users/to/some/path/") {
            let cwd = "/Users/to/some/path/";
            let mut contents: Vec<ResourceContentsModel> = Vec::new();
            contents.push(
                ResourceContentsModel { text: String::from_str(cwd), uri: String::from_str(uri) },
            );
            Ok(ReadResourceModel { contents })
        } else if str_eq(uri, "memo://insights") {
            let memo = "Business Intelligence Memo\n\nAnalysis has revealed 5 key insights ...";
            let mut contents: Vec<ResourceContentsModel> = Vec::new();
            contents.push(
                ResourceContentsModel { text: String::from_str(memo), uri: String::from_str(uri) },
            );
            Ok(ReadResourceModel { contents })
        } else {
            Err(
                ToolError {
                    code: ToolErrorCode::ResourceNotFound,
                    message: String::from_str("resource_not_found"),
                },
            )
        }
    }

    /// The one example prompt offered for introspection.
    pub fn list_prompts(&self) -> (r: ListPromptsModel)
        ensures
            r.prompts@.len() == 1,
            r.prompts@[0].name@ == "example_prompt"@,
            r.prompts@[0].description matches Some(d) && d@
                == "This is an example prompt that takes one required argument, message"@,
            r.prompts@[0].arguments@.len() == 1,
            r.prompts@[0].arguments@[0].name@ == "message"@,
            r.prompts@[0].arguments@[0].description matches Some(d) && d@
                == "A message to put in the prompt"@,
            r.prompts@[0].arguments@[0].required == Some(true),
            r.next_cursor is None,
    {
        let mut arguments: Vec<PromptArgumentModel> = Vec::new();
        arguments.push(
            PromptArgumentModel {
                name: String::from_str("message"),
                description: Some(String::from_str("A message to put in the prompt")),
                required: Some(true),
            },
        );
        let mut prompts: Vec<PromptModel> = Vec::new();
        prompts.push(
            PromptModel {
                name: String::from_str("example_prompt"),
                description: Some(
                    String::from_str(
                        "This is an example prompt that takes one required argument, message",
                    ),
                ),
                arguments,
            },
        );
        ListPromptsModel { prompts, next_cursor: None }
    }

    /// Renders the example prompt around the caller's message; an unknown
    /// prompt name or a missing message answers a structured error.
    pub fn get_prompt(&self, name: &str, arguments: Option<Vec<(String, String)>>) -> (r: Result<
        PromptResultModel,
        ToolError,
    >)
        ensures
            name@ != "example_prompt"@ ==> (r matches Err(e) && e.code
                == ToolErrorCode::InvalidParams && e.message@ == "prompt not found"@),
            name@ == "example_prompt"@ && (arguments matches Some(args) && arg_lookup(
                args@,
                "message"@,
            ) matches Some(msg)) ==> (r matches Ok(res) && res.description is None
                && res.messages@.len() == 1 && res.messages@[0].role == PromptRole::User
                && res.messages@[0].text@
                == "This is an example prompt with your message here: '"@ + arg_lookup(
                arguments->0@,
                "message"@,
            )->0 + "'"@),
            name@ == "example_prompt"@ && !(arguments matches Some(args) && arg_lookup(
                args@,
                "message"@,
            ) is Some) ==> (r matches Err(e) && e.code == ToolErrorCode::InvalidParams
                && e.message@ == "No message provided to example_prompt"@),
    {
        if !str_eq(name, "example_prompt") {
            return Err(
                ToolError {
                    code: ToolErrorCode::InvalidParams,
                    message: String::from_str("prompt not found"),
                },
            );
        }
        let message: Option<String> = match &arguments {
            None => None,
            Some(args) => find_message(args),
        };
        match message {
            Some(msg) => {
                let prompt = concat3(
                    "This is an example prompt with your message here: '",
                    msg.as_str(),
                    "'",
                );
                let mut messages: Vec<PromptMessageModel> = Vec::new();
                messages.push(PromptMessageModel { role: PromptRole::User, text: prompt });
                Ok(PromptResultModel { description: None, messages })
            },
            None => Err(
                ToolError {
                    code: ToolErrorCode::InvalidParams,
                    message: String::from_str("No message provided to example_prompt"),
                },
            ),
        }
    }

    /// No resource templates are offered.
    pub fn list_resource_templates(&self) -> (r: ListResourceTemplatesModel)
        ensures
            r.resource_templates@.len() == 0,
            r.next_cursor is None,
    {
        ListResourceTemplatesModel { resource_templates: Vec::new(), next_cursor: None }
    }
}

} // verus!
