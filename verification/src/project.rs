use vstd::prelude::*;
use vstd::std_specs::cmp::PartialEqSpecImpl;
use crate::project_status::ProjectStatus;
use crate::status::StatusKind;
use crate::text::{
    blank, clone_text, decimal, description_or_empty, is_blank, push_decimal, same_text,
    text_view,
};

verus! {

/// The title that a project gets when it is created without one.
pub const DEFAULT_PROJECT_TITLE: &'static str = "New Project";

/// The state that a project gets when it is created without one.
pub const DEFAULT_PROJECT_STATUS: ProjectStatus = ProjectStatus::Planning;

/// What a project is.
pub struct ProjectView {
    pub id: i32,
    pub title: Seq<char>,
    pub description: Option<Seq<char>>,
    pub status: ProjectStatus,
}

/// A project as the store holds it.
#[derive(Debug)]
pub struct Project {
    pub id: i32,
    pub title: String,
    pub description: Option<String>,
    pub status: ProjectStatus,
}

impl View for Project {
    type V = ProjectView;

    open spec fn view(&self) -> ProjectView {
        ProjectView {
            id: self.id,
            title: self.title@,
            description: text_view(self.description),
            status: self.status,
        }
    }
}

impl Clone for Project {
    fn clone(&self) -> (r: Self)
        ensures
            r@ == self@,
    {
        Project {
            id: self.id,
            title: self.title.clone(),
            description: clone_text(&self.description),
            status: self.status,
        }
    }
}

impl PartialEqSpecImpl for Project {
    open spec fn obeys_eq_spec() -> bool {
        true
    }

    open spec fn eq_spec(&self, other: &Self) -> bool {
        self@ == other@
    }
}

impl PartialEq for Project {
    fn eq(&self, other: &Self) -> (r: bool) {
        self.id == other.id && self.title == other.title && same_text(
            &self.description,
            &other.description,
        ) && self.status == other.status
    }
}

impl ProjectView {
    /// The line that stands for the project in a list: its key, a colon and its title.
    pub open spec fn label(self) -> Seq<char> {
        decimal(self.id as int) + ": "@ + self.title
    }

    /// The three lines that show the project in full: its title, its description, which
    /// is empty where it has none, and its state.
    pub open spec fn detail_lines(self) -> Seq<Seq<char>> {
        seq![
            "Title: "@ + self.title,
            "Description: "@ + description_or_empty(self.description),
            "Status: "@ + self.status.spec_label(),
        ]
    }
}

impl Project {
    /// The line that stands for the project in a list: its key, a colon and its title.
    pub fn label(&self) -> (r: String)
        ensures
            r@ == self@.label(),
    {
        let mut line = String::new();
        push_decimal(&mut line, self.id);
        line.append(": ");
        line.append(self.title.as_str());
        line
    }

    /// The three lines that show the project in full.
    pub fn detail_lines(&self) -> (r: Vec<String>)
        ensures
            r@.len() == 3,
            forall|i: int| 0 <= i < 3 ==> (#[trigger] r@[i])@ == self@.detail_lines()[i],
    {
        let title = String::from_str("Title: ").concat(self.title.as_str());
        let description = match &self.description {
            Some(text) => String::from_str("Description: ").concat(text.as_str()),
            None => String::from_str("Description: "),
        };
        let status = String::from_str("Status: ").concat(self.status.label());
        proof {
            assert("Description: "@ + Seq::<char>::empty() =~= "Description: "@);
        }
        vec![title, description, status]
    }
}

/// What a request for a new project is.
pub struct NewProjectView {
    pub title: Option<Seq<char>>,
    pub description: Option<Seq<char>>,
    pub status: Option<ProjectStatus>,
}

/// The values for a project that is to be created. What is missing is filled in when the
/// project is stored.
#[derive(Debug)]
pub struct NewProject {
    pub title: Option<String>,
    pub description: Option<String>,
    pub status: Option<ProjectStatus>,
}

impl View for NewProject {
    type V = NewProjectView;

    open spec fn view(&self) -> NewProjectView {
        NewProjectView {
            title: text_view(self.title),
            description: text_view(self.description),
            status: self.status,
        }
    }
}

impl NewProjectView {
    /// The title under which the project is stored: the one given, or the default title
    /// where none is given or the one given is blank.
    pub open spec fn stored_title(self) -> Seq<char> {
        match self.title {
            Some(title) => if is_blank(title) {
                DEFAULT_PROJECT_TITLE@
            } else {
                title
            },
            None => DEFAULT_PROJECT_TITLE@,
        }
    }

    /// The state in which the project is stored: the one given, or the default state.
    pub open spec fn stored_status(self) -> ProjectStatus {
        match self.status {
            Some(status) => status,
            None => DEFAULT_PROJECT_STATUS,
        }
    }

    /// The request with its title and state filled in.
    pub open spec fn normalized(self) -> NewProjectView {
        NewProjectView {
            title: Some(self.stored_title()),
            status: Some(self.stored_status()),
            ..self
        }
    }

    /// The project that the store holds for this request under the key `id`.
    pub open spec fn stored(self, id: i32) -> ProjectView {
        ProjectView {
            id,
            title: self.stored_title(),
            description: self.description,
            status: self.stored_status(),
        }
    }
}

impl NewProject {
    /// The request with its title and state filled in: a missing or blank title
    /// becomes the default title, a missing state the default state.
    pub fn normalized(self) -> (r: NewProject)
        ensures
            r@ == self@.normalized(),
    {
        let title = match self.title {
            Some(title) => {
                if blank(title.as_str()) {
                    String::from_str(DEFAULT_PROJECT_TITLE)
                } else {
                    title
                }
            },
            None => String::from_str(DEFAULT_PROJECT_TITLE),
        };
        let status = match self.status {
            Some(status) => status,
            None => DEFAULT_PROJECT_STATUS,
        };
        NewProject {
            title: Some(title),
            description: self.description,
            status: Some(status),
        }
    }

    /// The project that the store holds for this request under the key `id`.
    pub fn into_project(self, id: i32) -> (r: Project)
        ensures
            r@ == self@.stored(id),
    {
        let filled = self.normalized();
        let title = match filled.title {
            Some(title) => title,
            None => String::from_str(DEFAULT_PROJECT_TITLE),
        };
        let status = match filled.status {
            Some(status) => status,
            None => DEFAULT_PROJECT_STATUS,
        };
        Project {
            id,
            title,
            description: filled.description,
            status,
        }
    }
}

/// What a request for a change to a project is.
pub struct UpdateProjectView {
    pub id: i32,
    pub title: Option<Seq<char>>,
    pub description: Option<Seq<char>>,
    pub status: Option<ProjectStatus>,
}

/// The changes to be made to the project with the key `id`. What is missing stays as it
/// is.
#[derive(Debug)]
pub struct UpdateProject {
    pub id: i32,
    pub title: Option<String>,
    pub description: Option<String>,
    pub status: Option<ProjectStatus>,
}

impl View for UpdateProject {
    type V = UpdateProjectView;

    open spec fn view(&self) -> UpdateProjectView {
        UpdateProjectView {
            id: self.id,
            title: text_view(self.title),
            description: text_view(self.description),
            status: self.status,
        }
    }
}

impl UpdateProjectView {
    /// The project after the changes: each value that the request holds replaces the one
    /// of the project, and the others stay.
    pub open spec fn applied(self, project: ProjectView) -> ProjectView {
        ProjectView {
            id: project.id,
            title: match self.title {
                Some(title) => title,
                None => project.title,
            },
            description: match self.description {
                Some(description) => Some(description),
                None => project.description,
            },
            status: match self.status {
                Some(status) => status,
                None => project.status,
            },
        }
    }
}

impl UpdateProject {
    /// The project after the changes: each value that the request holds replaces the one
    /// of the project, and the others stay.
    pub fn apply(&self, project: &Project) -> (r: Project)
        ensures
            r@ == self@.applied(project@),
    {
        Project {
            id: project.id,
            title: match &self.title {
                Some(title) => title.clone(),
                None => project.title.clone(),
            },
            description: match &self.description {
                Some(description) => Some(description.clone()),
                None => clone_text(&project.description),
            },
            status: match self.status {
                Some(status) => status,
                None => project.status,
            },
        }
    }
}

} // verus!
