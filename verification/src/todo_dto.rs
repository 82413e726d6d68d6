//! Wire-level request and response shapes, their models, and the boundary
//! validation that keeps empty text out of the core.

use vstd::prelude::*;
use crate::todo_entity::{
    CreateModel, NewTodoEntity, PatchModel, TaskViewModel, UpdateTodoEntity, opt_text_view,
};

verus! {

/// Request to create a task: title and description must be non-empty.
#[derive(Debug, Clone)]
pub struct ReqCreateTodoDto {
    pub title: String,
    pub description: String,
    pub is_done: bool,
}

impl View for ReqCreateTodoDto {
    type V = CreateModel;

    open spec fn view(&self) -> CreateModel {
        CreateModel { title: self.title@, description: self.description@, is_done: self.is_done }
    }
}

impl ReqCreateTodoDto {
    /// The boundary validation: both text fields non-empty.
    pub fn validate(&self) -> (r: bool)
        ensures
            r == self@.valid(),
    {
        !self.title.as_str().is_empty() && !self.description.as_str().is_empty()
    }
}

impl From<ReqCreateTodoDto> for NewTodoEntity {
    fn from(dto: ReqCreateTodoDto) -> (r: Self) {
        NewTodoEntity { title: dto.title, description: dto.description, is_done: dto.is_done }
    }
}

impl vstd::std_specs::convert::FromSpecImpl<ReqCreateTodoDto> for NewTodoEntity {
    open spec fn obeys_from_spec() -> bool {
        true
    }

    open spec fn from_spec(v: ReqCreateTodoDto) -> Self {
        NewTodoEntity { title: v.title, description: v.description, is_done: v.is_done }
    }
}

/// Request to update a task: the target identifier plus any subset of fields;
/// absent fields mean "leave unchanged".
#[derive(Debug, Clone)]
pub struct ReqUpdateTodoDto {
    pub id: i32,
    pub title: Option<String>,
    pub description: Option<String>,
    pub is_done: Option<bool>,
}

/// Model of an update request.
pub ghost struct UpdateModel {
    pub id: int,
    pub patch: PatchModel,
}

impl View for ReqUpdateTodoDto {
    type V = UpdateModel;

    open spec fn view(&self) -> UpdateModel {
        UpdateModel {
            id: self.id as int,
            patch: PatchModel {
                title: opt_text_view(self.title),
                description: opt_text_view(self.description),
                is_done: self.is_done,
            },
        }
    }
}

impl ReqUpdateTodoDto {
    /// The boundary validation: a present text field is non-empty.
    pub fn validate(&self) -> (r: bool)
        ensures
            r == self@.patch.valid(),
    {
        let title_ok = match &self.title {
            Some(t) => !t.as_str().is_empty(),
            None => true,
        };
        let description_ok = match &self.description {
            Some(d) => !d.as_str().is_empty(),
            None => true,
        };
        title_ok && description_ok
    }
}

impl From<ReqUpdateTodoDto> for UpdateTodoEntity {
    fn from(dto: ReqUpdateTodoDto) -> (r: Self) {
        UpdateTodoEntity { title: dto.title, description: dto.description, is_done: dto.is_done }
    }
}

impl vstd::std_specs::convert::FromSpecImpl<ReqUpdateTodoDto> for UpdateTodoEntity {
    open spec fn obeys_from_spec() -> bool {
        true
    }

    open spec fn from_spec(v: ReqUpdateTodoDto) -> Self {
        UpdateTodoEntity { title: v.title, description: v.description, is_done: v.is_done }
    }
}

/// The outward-facing read representation of a task.
#[derive(Debug, Clone)]
pub struct ResEntryTodoDto {
    pub id: u32,
    pub title: String,
    pub description: String,
    pub is_done: bool,
    pub created_at: String,
    pub updated_at: String,
}

impl View for ResEntryTodoDto {
    type V = TaskViewModel;

    open spec fn view(&self) -> TaskViewModel {
        TaskViewModel {
            id: self.id as int,
            title: self.title@,
            description: self.description@,
            is_done: self.is_done,
            created_at: self.created_at@,
            updated_at: self.updated_at@,
        }
    }
}

/// Parameter object of the tool calls that address one task by identifier.
#[derive(Debug, Clone)]
pub struct GetTaskById {
    pub id: u32,
}

} // verus!
