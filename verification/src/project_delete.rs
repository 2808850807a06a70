use vstd::prelude::*;
use crate::key::Key;
use crate::submit::{InputSubmit, StoreRequest, StoreRequestView};
use crate::text::{decimal, delete_message, delete_question, push_decimal};

verus! {

/// The dialog that asks whether a project is to be deleted.
pub struct ProjectDelete {
    project_id: i32,
}

impl View for ProjectDelete {
    type V = i32;

    closed spec fn view(&self) -> i32 {
        self.project_id
    }
}

impl ProjectDelete {
    /// The dialog for the project with the key `project_id`.
    pub fn new(project_id: i32) -> (r: Self)
        ensures
            r@ == project_id,
    {
        Self { project_id }
    }

    /// The caption of the dialog, which names the project by its key.
    pub fn caption(&self) -> (r: String)
        ensures
            r@ == "Delete Project "@ + decimal(self@ as int),
    {
        let mut caption = String::from_str("Delete Project ");
        push_decimal(&mut caption, self.project_id);
        caption
    }

    /// The question that the dialog asks, line by line.
    pub fn message(&self) -> (r: Vec<String>)
        ensures
            r@.len() == 2,
            r@[0]@ == delete_question("project"@),
            r@[1]@ == "This action cannot be undone."@,
    {
        delete_message("project")
    }

    /// The key of the project that the dialog is for.
    pub fn project_id(&self) -> (r: i32)
        ensures
            r == self@,
    {
        self.project_id
    }

    /// A key press changes nothing in this dialog.
    pub fn handle_key_events(&mut self, key: Key)
        ensures
            final(self)@ == old(self)@,
    {
    }
}

impl InputSubmit for ProjectDelete {
    open spec fn wf(&self) -> bool {
        true
    }

    /// The deletion of the project.
    open spec fn request(&self) -> StoreRequestView {
        StoreRequestView::DeleteProject(self@)
    }

    open spec fn resets_to(&self, after: &Self) -> bool {
        after@ == self@
    }

    fn submit(&self) -> (r: StoreRequest) {
        StoreRequest::DeleteProject(self.project_id)
    }

    fn reset(&mut self) {
    }
}

} // verus!
