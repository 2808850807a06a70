use vstd::prelude::*;
use vstd::std_specs::cmp::PartialEqSpecImpl;
use crate::task_status::TaskStatus;
use crate::status::StatusKind;
use crate::text::{
    blank, clone_text, decimal, description_or_empty, is_blank, push_decimal, same_number,
    same_text, text_view,
};

verus! {

/// The title that a task gets when it is created without one.
pub const DEFAULT_TASK_TITLE: &'static str = "New Task";

/// The state that a task gets when it is created without one.
pub const DEFAULT_TASK_STATUS: TaskStatus = TaskStatus::Todo;

/// What a task is.
pub struct TaskView {
    pub id: i32,
    pub title: Seq<char>,
    pub description: Option<Seq<char>>,
    pub status: TaskStatus,
    pub project_id: Option<i32>,
}

/// A task as the store holds it.
#[derive(Debug)]
pub struct Task {
    pub id: i32,
    pub title: String,
    pub description: Option<String>,
    pub status: TaskStatus,
    pub project_id: Option<i32>,
}

impl View for Task {
    type V = TaskView;

    open spec fn view(&self) -> TaskView {
        TaskView {
            id: self.id,
            title: self.title@,
            description: text_view(self.description),
            status: self.status,
            project_id: self.project_id,
        }
    }
}

impl Clone for Task {
    fn clone(&self) -> (r: Self)
        ensures
            r@ == self@,
    {
        Task {
            id: self.id,
            title: self.title.clone(),
            description: clone_text(&self.description),
            status: self.status,
            project_id: self.project_id,
        }
    }
}

impl PartialEqSpecImpl for Task {
    open spec fn obeys_eq_spec() -> bool {
        true
    }

    open spec fn eq_spec(&self, other: &Self) -> bool {
        self@ == other@
    }
}

impl PartialEq for Task {
    fn eq(&self, other: &Self) -> (r: bool) {
        self.id == other.id && self.title == other.title && same_text(
            &self.description,
            &other.description,
        ) && self.status == other.status && same_number(self.project_id, other.project_id)
    }
}

impl TaskView {
    /// The line that stands for the task in a list: its key, a colon and its title.
    pub open spec fn label(self) -> Seq<char> {
        decimal(self.id as int) + ": "@ + self.title
    }

    /// The three lines that show the task in full: its title, its description, which
    /// is empty where it has none, and its state.
    pub open spec fn detail_lines(self) -> Seq<Seq<char>> {
        seq![
            "Title: "@ + self.title,
            "Description: "@ + description_or_empty(self.description),
            "Status: "@ + self.status.spec_label(),
        ]
    }
}

impl Task {
    /// The line that stands for the task in a list: its key, a colon and its title.
    pub fn label(&self) -> (r: String)
        ensures
            r@ == self@.label(),
    {
        let mut line = String::new();
        push_decimal(&mut line, self.id);
        line.append(": ");
        line.append(self.title.as_str());
        line
    }

    /// The three lines that show the task in full.
    pub fn detail_lines(&self) -> (r: Vec<String>)
        ensures
            r@.len() == 3,
            forall|i: int| 0 <= i < 3 ==> (#[trigger] r@[i])@ == self@.detail_lines()[i],
    {
        let title = String::from_str("Title: ").concat(self.title.as_str());
        let description = match &self.description {
            Some(text) => String::from_str("Description: ").concat(text.as_str()),
            None => String::from_str("Description: "),
        };
        let status = String::from_str("Status: ").concat(self.status.label());
        proof {
            assert("Description: "@ + Seq::<char>::empty() =~= "Description: "@);
        }
        vec![title, description, status]
    }
}

/// What a request for a new task is.
pub struct NewTaskView {
    pub title: Option<Seq<char>>,
    pub description: Option<Seq<char>>,
    pub status: Option<TaskStatus>,
    pub project_id: Option<i32>,
}

/// The values for a task that is to be created. What is missing is filled in when the
/// task is stored.
#[derive(Debug)]
pub struct NewTask {
    pub title: Option<String>,
    pub description: Option<String>,
    pub status: Option<TaskStatus>,
    pub project_id: Option<i32>,
}

impl View for NewTask {
    type V = NewTaskView;

    open spec fn view(&self) -> NewTaskView {
        NewTaskView {
            title: text_view(self.title),
            description: text_view(self.description),
            status: self.status,
            project_id: self.project_id,
        }
    }
}

impl NewTaskView {
    /// The title under which the task is stored: the one given, or the default title
    /// where none is given or the one given is blank.
    pub open spec fn stored_title(self) -> Seq<char> {
        match self.title {
            Some(title) => if is_blank(title) {
                DEFAULT_TASK_TITLE@
            } else {
                title
            },
            None => DEFAULT_TASK_TITLE@,
        }
    }

    /// The state in which the task is stored: the one given, or the default state.
    pub open spec fn stored_status(self) -> TaskStatus {
        match self.status {
            Some(status) => status,
            None => DEFAULT_TASK_STATUS,
        }
    }

    /// The request with its title and state filled in.
    pub open spec fn normalized(self) -> NewTaskView {
        NewTaskView {
            title: Some(self.stored_title()),
            status: Some(self.stored_status()),
            ..self
        }
    }

    /// The task that the store holds for this request under the key `id`.
    pub open spec fn stored(self, id: i32) -> TaskView {
        TaskView {
            id,
            title: self.stored_title(),
            description: self.description,
            status: self.stored_status(),
            project_id: self.project_id,
        }
    }
}

impl NewTask {
    /// The request with its title and state filled in: a missing or blank title
    /// becomes the default title, a missing state the default state.
    pub fn normalized(self) -> (r: NewTask)
        ensures
            r@ == self@.normalized(),
    {
        let title = match self.title {
            Some(title) => {
                if blank(title.as_str()) {
                    String::from_str(DEFAULT_TASK_TITLE)
                } else {
                    title
                }
            },
            None => String::from_str(DEFAULT_TASK_TITLE),
        };
        let status = match self.status {
            Some(status) => status,
            None => DEFAULT_TASK_STATUS,
        };
        NewTask {
            title: Some(title),
            description: self.description,
            status: Some(status),
            project_id: self.project_id,
        }
    }

    /// The task that the store holds for this request under the key `id`.
    pub fn into_task(self, id: i32) -> (r: Task)
        ensures
            r@ == self@.stored(id),
    {
        let filled = self.normalized();
        let title = match filled.title {
            Some(title) => title,
            None => String::from_str(DEFAULT_TASK_TITLE),
        };
        let status = match filled.status {
            Some(status) => status,
            None => DEFAULT_TASK_STATUS,
        };
        Task {
            id,
            title,
            description: filled.description,
            status,
            project_id: filled.project_id,
        }
    }
}

/// What a request for a change to a task is.
pub struct UpdateTaskView {
    pub id: i32,
    pub title: Option<Seq<char>>,
    pub description: Option<Seq<char>>,
    pub status: Option<TaskStatus>,
    pub project_id: Option<i32>,
}

/// The changes to be made to the task with the key `id`. What is missing stays as it
/// is.
#[derive(Debug)]
pub struct UpdateTask {
    pub id: i32,
    pub title: Option<String>,
    pub description: Option<String>,
    pub status: Option<TaskStatus>,
    pub project_id: Option<i32>,
}

impl View for UpdateTask {
    type V = UpdateTaskView;

    open spec fn view(&self) -> UpdateTaskView {
        UpdateTaskView {
            id: self.id,
            title: text_view(self.title),
            description: text_view(self.description),
            status: self.status,
            project_id: self.project_id,
        }
    }
}

impl UpdateTaskView {
    /// The task after the changes: each value that the request holds replaces the one
    /// of the task, and the others stay.
    pub open spec fn applied(self, task: TaskView) -> TaskView {
        TaskView {
            id: task.id,
            title: match self.title {
                Some(title) => title,
                None => task.title,
            },
            description: match self.description {
                Some(description) => Some(description),
                None => task.description,
            },
            status: match self.status {
                Some(status) => status,
                None => task.status,
            },
            project_id: match self.project_id {
                Some(project_id) => Some(project_id),
                None => task.project_id,
            },
        }
    }
}

impl UpdateTask {
    /// The task after the changes: each value that the request holds replaces the one
    /// of the task, and the others stay.
    pub fn apply(&self, task: &Task) -> (r: Task)
        ensures
            r@ == self@.applied(task@),
    {
        Task {
            id: task.id,
            title: match &self.title {
                Some(title) => title.clone(),
                None => task.title.clone(),
            },
            description: match &self.description {
                Some(description) => Some(description.clone()),
                None => clone_text(&task.description),
            },
            status: match self.status {
                Some(status) => status,
                None => task.status,
            },
            project_id: match self.project_id {
                Some(project_id) => Some(project_id),
                None => task.project_id,
            },
        }
    }
}

} // verus!
