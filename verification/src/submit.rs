use vstd::prelude::*;
use crate::project::{NewProject, NewProjectView, UpdateProject, UpdateProjectView};
use crate::task::{NewTask, NewTaskView, UpdateTask, UpdateTaskView};

verus! {

/// What a request to the store is.
pub enum StoreRequestView {
    CreateTask(NewTaskView),
    UpdateTask(UpdateTaskView),
    DeleteTask(i32),
    CreateProject(NewProjectView),
    UpdateProject(UpdateProjectView),
    DeleteProject(i32),
}

/// A request to the store: what a dialog asks for when it is confirmed. Whoever owns
/// the store carries it out.
#[derive(Debug)]
pub enum StoreRequest {
    CreateTask(NewTask),
    UpdateTask(UpdateTask),
    DeleteTask(i32),
    CreateProject(NewProject),
    UpdateProject(UpdateProject),
    DeleteProject(i32),
}

impl View for StoreRequest {
    type V = StoreRequestView;

    open spec fn view(&self) -> StoreRequestView {
        match self {
            StoreRequest::CreateTask(task) => StoreRequestView::CreateTask(task@),
            StoreRequest::UpdateTask(task) => StoreRequestView::UpdateTask(task@),
            StoreRequest::DeleteTask(id) => StoreRequestView::DeleteTask(*id),
            StoreRequest::CreateProject(project) => StoreRequestView::CreateProject(project@),
            StoreRequest::UpdateProject(project) => StoreRequestView::UpdateProject(project@),
            StoreRequest::DeleteProject(id) => StoreRequestView::DeleteProject(*id),
        }
    }
}

/// A dialog that can be confirmed: it says what it asks of the store, and can be
/// brought back to the state in which it was opened.
pub trait InputSubmit: Sized {
    /// Whether the dialog is sound.
    spec fn wf(&self) -> bool;

    /// What the dialog asks of the store as it stands.
    spec fn request(&self) -> StoreRequestView;

    /// Whether `after` is this dialog brought back to its first state.
    spec fn resets_to(&self, after: &Self) -> bool;

    /// What the dialog asks of the store.
    fn submit(&self) -> (r: StoreRequest)
        requires
            self.wf(),
        ensures
            r@ == self.request(),
    ;

    /// Brings the dialog back to its first state.
    fn reset(&mut self)
        requires
            old(self).wf(),
        ensures
            final(self).wf(),
            old(self).resets_to(final(self)),
    ;

    /// Says what the dialog asks of the store, and then brings the dialog back to its
    /// first state.
    fn submit_and_reset(&mut self) -> (r: StoreRequest)
        requires
            old(self).wf(),
        ensures
            r@ == old(self).request(),
            final(self).wf(),
            old(self).resets_to(final(self)),
    {
        let request = self.submit();
        self.reset();
        request
    }
}

} // verus!
