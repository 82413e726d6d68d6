//! Storage-facing representations of a task: the insertable shape, the
//! partial-update shape (a changeset), and the persisted row, together with
//! the mathematical models the contracts speak of.

use vstd::prelude::*;
use crate::todo_dto::ResEntryTodoDto;

verus! {

/// Model of one persisted task row.
pub ghost struct TaskModel {
    pub id: int,
    pub title: Seq<char>,
    pub description: Seq<char>,
    pub is_done: bool,
    pub created_at: Option<Seq<char>>,
    pub updated_at: Option<Seq<char>>,
}

/// Model of the data a create request carries.
pub ghost struct CreateModel {
    pub title: Seq<char>,
    pub description: Seq<char>,
    pub is_done: bool,
}

impl CreateModel {
    /// Boundary validity: a task never has an empty title or description.
    pub open spec fn valid(self) -> bool {
        self.title.len() > 0 && self.description.len() > 0
    }
}

/// Model of a partial patch: absent fields mean "leave unchanged".
pub ghost struct PatchModel {
    pub title: Option<Seq<char>>,
    pub description: Option<Seq<char>>,
    pub is_done: Option<bool>,
}

impl PatchModel {
    /// Boundary validity: a present text field is never empty.
    pub open spec fn valid(self) -> bool {
        &&& (self.title matches Some(t) ==> t.len() > 0)
        &&& (self.description matches Some(d) ==> d.len() > 0)
    }
}

/// The view of an optional owned text.
pub open spec fn opt_text_view(o: Option<String>) -> Option<Seq<char>> {
    match o {
        Some(s) => Some(s@),
        None => None,
    }
}

/// The shape inserted into storage; the backend assigns the identifier and
/// the timestamps.
pub struct NewTodoEntity {
    pub title: String,
    pub description: String,
    pub is_done: bool,
}

impl View for NewTodoEntity {
    type V = CreateModel;

    open spec fn view(&self) -> CreateModel {
        CreateModel { title: self.title@, description: self.description@, is_done: self.is_done }
    }
}

/// The changeset applied by a partial update.
pub struct UpdateTodoEntity {
    pub title: Option<String>,
    pub description: Option<String>,
    pub is_done: Option<bool>,
}

impl View for UpdateTodoEntity {
    type V = PatchModel;

    open spec fn view(&self) -> PatchModel {
        PatchModel {
            title: opt_text_view(self.title),
            description: opt_text_view(self.description),
            is_done: self.is_done,
        }
    }
}

/// One persisted task row as storage returns it.
pub struct EntryTodoEntity {
    pub id: i32,
    pub title: String,
    pub description: String,
    pub is_done: bool,
    pub created_at: Option<String>,
    pub updated_at: Option<String>,
}

impl View for EntryTodoEntity {
    type V = TaskModel;

    open spec fn view(&self) -> TaskModel {
        TaskModel {
            id: self.id as int,
            title: self.title@,
            description: self.description@,
            is_done: self.is_done,
            created_at: opt_text_view(self.created_at),
            updated_at: opt_text_view(self.updated_at),
        }
    }
}

fn clone_opt_string(o: &Option<String>) -> (r: Option<String>)
    ensures
        opt_text_view(r) == opt_text_view(*o),
{
    match o {
        Some(s) => Some(s.clone()),
        None => None,
    }
}

impl Clone for EntryTodoEntity {
    /// A row copy with the same model.
    fn clone(&self) -> (r: Self)
        ensures
            r@ == self@,
    {
        EntryTodoEntity {
            id: self.id,
            title: self.title.clone(),
            description: self.description.clone(),
            is_done: self.is_done,
            created_at: clone_opt_string(&self.created_at),
            updated_at: clone_opt_string(&self.updated_at),
        }
    }
}

/// The identifier of a task row reinterpreted as an unsigned number, as the
/// outward view carries it.
pub open spec fn wrap_u32(n: int) -> int {
    if n >= 0 {
        n
    } else {
        n + 0x1_0000_0000
    }
}

/// The outward view a persisted row projects to: missing timestamps read as
/// empty text.
pub open spec fn task_view_of(t: TaskModel) -> TaskViewModel {
    TaskViewModel {
        id: wrap_u32(t.id),
        title: t.title,
        description: t.description,
        is_done: t.is_done,
        created_at: match t.created_at {
            Some(s) => s,
            None => Seq::empty(),
        },
        updated_at: match t.updated_at {
            Some(s) => s,
            None => Seq::empty(),
        },
    }
}

/// Model of the outward-facing read representation.
pub ghost struct TaskViewModel {
    pub id: int,
    pub title: Seq<char>,
    pub description: Seq<char>,
    pub is_done: bool,
    pub created_at: Seq<char>,
    pub updated_at: Seq<char>,
}

impl ResEntryTodoDto {
    /// Projects a persisted row to its outward view.
    pub fn from_entity(the_entity: EntryTodoEntity) -> (r: ResEntryTodoDto)
        ensures
            r@ == task_view_of(the_entity@),
    {
        let id_u: u32 = if the_entity.id >= 0 {
            the_entity.id as u32
        } else {
            ((the_entity.id as i64) + 0x1_0000_0000i64) as u32
        };
        ResEntryTodoDto {
            id: id_u,
            title: the_entity.title,
            description: the_entity.description,
            is_done: the_entity.is_done,
            created_at: match the_entity.created_at {
                Some(s) => s,
                None => String::new(),
            },
            updated_at: match the_entity.updated_at {
                Some(s) => s,
                None => String::new(),
            },
        }
    }
}

impl From<EntryTodoEntity> for ResEntryTodoDto {
    fn from(the_entity: EntryTodoEntity) -> (r: Self) {
        ResEntryTodoDto::from_entity(the_entity)
    }
}

impl vstd::std_specs::convert::FromSpecImpl<EntryTodoEntity> for ResEntryTodoDto {
    open spec fn obeys_from_spec() -> bool {
        false
    }

    open spec fn from_spec(v: EntryTodoEntity) -> Self {
        arbitrary()
    }
}

} // verus!
