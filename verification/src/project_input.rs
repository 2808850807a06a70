use vstd::prelude::*;
use crate::key::Key;
use crate::multi_input::{Inputs, MultiInput, MultiInputView};
use crate::submit::{InputSubmit, StoreRequest, StoreRequestView};
use crate::project::{NewProject, NewProjectView};
use crate::project_status::ProjectStatus;

verus! {

/// The dialog in which a new project is written.
pub struct ProjectInput {
    inputs: MultiInput<ProjectStatus>,
}

impl View for ProjectInput {
    type V = MultiInputView<ProjectStatus>;

    closed spec fn view(&self) -> MultiInputView<ProjectStatus> {
        self.inputs@
    }
}

impl ProjectInput {
    /// The dialog with an empty form.
    pub fn new() -> (r: Self)
        ensures
            r.wf(),
            r@ == MultiInputView::<ProjectStatus>::fresh(),
    {
        Self { inputs: MultiInput::new() }
    }

    /// What the dialog with the form `form` asks of the store: a new project with the
    /// title, the description and the state of the form.
    pub open spec fn request_of(form: MultiInputView<ProjectStatus>) -> StoreRequestView {
        StoreRequestView::CreateProject(
            NewProjectView {
                title: Some(form.inputs().title),
                description: Some(form.inputs().description),
                status: Some(form.inputs().status),
            },
        )
    }

    /// The caption of the dialog.
    pub fn caption(&self) -> (r: String)
        ensures
            r@ == "Project Creation"@,
    {
        String::from_str("Project Creation")
    }

    /// The form of the dialog.
    pub fn inputs(&self) -> (r: &MultiInput<ProjectStatus>)
        ensures
            r@ == self@,
    {
        &self.inputs
    }

    /// Applies one key press to the form.
    pub fn handle_key_events(&mut self, key: Key)
        requires
            old(self).wf(),
        ensures
            final(self).wf(),
            final(self)@ == old(self)@.after_key(key),
    {
        self.inputs.handle_key_events(key);
    }
}

impl InputSubmit for ProjectInput {
    open spec fn wf(&self) -> bool {
        self@.wf()
    }

    open spec fn request(&self) -> StoreRequestView {
        Self::request_of(self@)
    }

    open spec fn resets_to(&self, after: &Self) -> bool {
        after@ == self@.cleared()
    }

    fn submit(&self) -> (r: StoreRequest) {
        let Inputs { title, description, status } = self.inputs.get_inputs();
        StoreRequest::CreateProject(
            NewProject {
                title: Some(String::from_str(title)),
                description: Some(String::from_str(description)),
                status: Some(*status),
            },
        )
    }

    fn reset(&mut self) {
        self.inputs.reset();
    }
}

} // verus!
