use vstd::prelude::*;
use crate::key::Key;
use crate::multi_input::{set_inputs_round_trip, Inputs, MultiInput, MultiInputView};
use crate::submit::{InputSubmit, StoreRequest, StoreRequestView};
use crate::project::{Project, UpdateProject, UpdateProjectView};
use crate::project_status::ProjectStatus;
use crate::text::{clone_text, decimal, description_or_empty, push_decimal, text_view};

verus! {

/// What a dialog for changing a project is: the key of the project and the form.
pub struct ProjectUpdateView {
    pub project_id: i32,
    pub inputs: MultiInputView<ProjectStatus>,
}

/// The dialog in which a project is changed.
pub struct ProjectUpdate {
    inputs: MultiInput<ProjectStatus>,
    project_id: i32,
}

impl View for ProjectUpdate {
    type V = ProjectUpdateView;

    closed spec fn view(&self) -> ProjectUpdateView {
        ProjectUpdateView { project_id: self.project_id, inputs: self.inputs@ }
    }
}

impl ProjectUpdate {
    /// The dialog for the project with the key `project_id`, its form filled with the values
    /// given.
    pub fn new(
        project_id: i32,
        title: String,
        description: Option<String>,
        status: ProjectStatus,
    ) -> (r: Self)
        ensures
            r.wf(),
            r@ == (ProjectUpdateView {
                project_id,
                inputs: MultiInputView::<ProjectStatus>::fresh().filled(
                    title@,
                    text_view(description),
                    status,
                ),
            }),
    {
        let mut update = Self { project_id, inputs: MultiInput::new() };
        update.inputs.set_inputs(title, description, status);
        update
    }

    /// The dialog for `project`, its form filled with the values of the project. Confirmed as
    /// it is, it asks for the project to be given the title and the state that it has, and
    /// its description, or an empty one where it has none.
    pub fn from_project(project: &Project) -> (r: Self)
        ensures
            r.wf(),
            r@ == (ProjectUpdateView {
                project_id: project.id,
                inputs: MultiInputView::<ProjectStatus>::fresh().filled(
                    project@.title,
                    project@.description,
                    project.status,
                ),
            }),
            r.request() == StoreRequestView::UpdateProject(
                UpdateProjectView {
                    id: project.id,
                    title: Some(project@.title),
                    description: Some(description_or_empty(project@.description)),
                    status: Some(project.status),
                },
            ),
    {
        proof {
            set_inputs_round_trip(
                MultiInputView::<ProjectStatus>::fresh(),
                project@.title,
                project@.description,
                project.status,
            );
        }
        let description = clone_text(&project.description);
        Self::new(project.id, project.title.clone(), description, project.status)
    }

    /// What the dialog asks of the store: a change of the project to the title, the
    /// description and the state of the form.
    pub open spec fn request_of(dialog: ProjectUpdateView) -> StoreRequestView {
        StoreRequestView::UpdateProject(
            UpdateProjectView {
                id: dialog.project_id,
                title: Some(dialog.inputs.inputs().title),
                description: Some(dialog.inputs.inputs().description),
                status: Some(dialog.inputs.inputs().status),
            },
        )
    }

    /// The caption of the dialog, which names the project by its key.
    pub fn caption(&self) -> (r: String)
        ensures
            r@ == "Project Update for project "@ + decimal(self@.project_id as int),
    {
        let mut caption = String::from_str("Project Update for project ");
        push_decimal(&mut caption, self.project_id);
        caption
    }

    /// The form of the dialog.
    pub fn inputs(&self) -> (r: &MultiInput<ProjectStatus>)
        ensures
            r@ == self@.inputs,
    {
        &self.inputs
    }

    /// The key of the project that the dialog is for.
    pub fn project_id(&self) -> (r: i32)
        ensures
            r == self@.project_id,
    {
        self.project_id
    }

    /// Applies one key press to the form.
    pub fn handle_key_events(&mut self, key: Key)
        requires
            old(self).wf(),
        ensures
            final(self).wf(),
            final(self)@ == (ProjectUpdateView {
                inputs: old(self)@.inputs.after_key(key),
                ..old(self)@
            }),
    {
        self.inputs.handle_key_events(key);
    }
}

impl InputSubmit for ProjectUpdate {
    open spec fn wf(&self) -> bool {
        self@.inputs.wf()
    }

    open spec fn request(&self) -> StoreRequestView {
        Self::request_of(self@)
    }

    open spec fn resets_to(&self, after: &Self) -> bool {
        after@ == (ProjectUpdateView { inputs: self@.inputs.cleared(), ..self@ })
    }

    fn submit(&self) -> (r: StoreRequest) {
        let Inputs { title, description, status } = self.inputs.get_inputs();
        StoreRequest::UpdateProject(
            UpdateProject {
                id: self.project_id,
                title: Some(String::from_str(title)),
                description: Some(String::from_str(description)),
                status: Some(*status),
            },
        )
    }

    fn reset(&mut self) {
        self.inputs.reset();
    }
}

} // verus!
