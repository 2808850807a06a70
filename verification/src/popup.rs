use vstd::prelude::*;
use crate::key::Key;
use crate::multi_input::MultiInputView;
use crate::project_delete::ProjectDelete;
use crate::project_input::ProjectInput;
use crate::project_status::ProjectStatus;
use crate::project_update::{ProjectUpdate, ProjectUpdateView};
use crate::submit::{InputSubmit, StoreRequest, StoreRequestView};
use crate::task_delete::TaskDelete;
use crate::task_input::TaskInput;
use crate::task_status::TaskStatus;
use crate::task_update::{TaskUpdate, TaskUpdateView};
use crate::text::decimal;

verus! {

/// What a dialog is, by its kind.
pub enum PopupView {
    TaskInput(MultiInputView<TaskStatus>),
    TaskUpdate(TaskUpdateView),
    TaskDelete(i32),
    ProjectInput(MultiInputView<ProjectStatus>),
    ProjectUpdate(ProjectUpdateView),
    ProjectDelete(i32),
}

impl PopupView {
    /// The caption of the dialog: what it is for, and for which task or project.
    pub open spec fn caption(self) -> Seq<char> {
        match self {
            PopupView::TaskInput(_) => "Task Creation"@,
            PopupView::TaskUpdate(update) => "Task Update for task "@ + decimal(
                update.task_id as int,
            ),
            PopupView::TaskDelete(id) => "Delete Task "@ + decimal(id as int),
            PopupView::ProjectInput(_) => "Project Creation"@,
            PopupView::ProjectUpdate(update) => "Project Update for project "@ + decimal(
                update.project_id as int,
            ),
            PopupView::ProjectDelete(id) => "Delete Project "@ + decimal(id as int),
        }
    }

    /// Whether the dialog is sound: its form is, where it has one.
    pub open spec fn wf(self) -> bool {
        match self {
            PopupView::TaskInput(form) => form.wf(),
            PopupView::TaskUpdate(update) => update.inputs.wf(),
            PopupView::TaskDelete(_) => true,
            PopupView::ProjectInput(form) => form.wf(),
            PopupView::ProjectUpdate(update) => update.inputs.wf(),
            PopupView::ProjectDelete(_) => true,
        }
    }

    /// What the dialog asks of the store as it stands.
    pub open spec fn request(self) -> StoreRequestView {
        match self {
            PopupView::TaskInput(form) => TaskInput::request_of(form),
            PopupView::TaskUpdate(update) => TaskUpdate::request_of(update),
            PopupView::TaskDelete(id) => StoreRequestView::DeleteTask(id),
            PopupView::ProjectInput(form) => ProjectInput::request_of(form),
            PopupView::ProjectUpdate(update) => ProjectUpdate::request_of(update),
            PopupView::ProjectDelete(id) => StoreRequestView::DeleteProject(id),
        }
    }

    /// The dialog brought back to its first state: the forms are cleared, and the two
    /// dialogs that ask for a deletion stay as they are.
    pub open spec fn cleared(self) -> PopupView {
        match self {
            PopupView::TaskInput(form) => PopupView::TaskInput(form.cleared()),
            PopupView::TaskUpdate(update) => PopupView::TaskUpdate(
                TaskUpdateView { inputs: update.inputs.cleared(), ..update },
            ),
            PopupView::TaskDelete(id) => PopupView::TaskDelete(id),
            PopupView::ProjectInput(form) => PopupView::ProjectInput(form.cleared()),
            PopupView::ProjectUpdate(update) => PopupView::ProjectUpdate(
                ProjectUpdateView { inputs: update.inputs.cleared(), ..update },
            ),
            PopupView::ProjectDelete(id) => PopupView::ProjectDelete(id),
        }
    }

    /// The dialog after one key press. The forms take the key; the two dialogs that ask
    /// for a deletion take none.
    pub open spec fn after_key(self, key: Key) -> PopupView {
        match self {
            PopupView::TaskInput(form) => PopupView::TaskInput(form.after_key(key)),
            PopupView::TaskUpdate(update) => PopupView::TaskUpdate(
                TaskUpdateView { inputs: update.inputs.after_key(key), ..update },
            ),
            PopupView::TaskDelete(id) => PopupView::TaskDelete(id),
            PopupView::ProjectInput(form) => PopupView::ProjectInput(form.after_key(key)),
            PopupView::ProjectUpdate(update) => PopupView::ProjectUpdate(
                ProjectUpdateView { inputs: update.inputs.after_key(key), ..update },
            ),
            PopupView::ProjectDelete(id) => PopupView::ProjectDelete(id),
        }
    }
}

/// A dialog that lies over the lists: one of three kinds for tasks, and one of three
/// for projects.
pub enum Popup {
    TaskInput(TaskInput),
    TaskUpdate(TaskUpdate),
    TaskDelete(TaskDelete),
    ProjectInput(ProjectInput),
    ProjectUpdate(ProjectUpdate),
    ProjectDelete(ProjectDelete),
}

impl View for Popup {
    type V = PopupView;

    open spec fn view(&self) -> PopupView {
        match self {
            Popup::TaskInput(task_input) => PopupView::TaskInput(task_input@),
            Popup::TaskUpdate(task_update) => PopupView::TaskUpdate(task_update@),
            Popup::TaskDelete(task_delete) => PopupView::TaskDelete(task_delete@),
            Popup::ProjectInput(project_input) => PopupView::ProjectInput(project_input@),
            Popup::ProjectUpdate(project_update) => PopupView::ProjectUpdate(project_update@),
            Popup::ProjectDelete(project_delete) => PopupView::ProjectDelete(project_delete@),
        }
    }
}

impl Popup {
    /// Whether the dialog is sound.
    pub open spec fn wf(&self) -> bool {
        self@.wf()
    }

    /// Says what the dialog asks of the store, and brings the dialog back to its first
    /// state.
    pub fn submit(&mut self) -> (r: StoreRequest)
        requires
            old(self).wf(),
        ensures
            r@ == old(self)@.request(),
            final(self).wf(),
            final(self)@ == old(self)@.cleared(),
    {
        match self {
            Popup::TaskInput(task_input) => task_input.submit_and_reset(),
            Popup::TaskUpdate(task_update) => task_update.submit_and_reset(),
            Popup::TaskDelete(task_delete) => task_delete.submit_and_reset(),
            Popup::ProjectInput(project_input) => project_input.submit_and_reset(),
            Popup::ProjectUpdate(project_update) => project_update.submit_and_reset(),
            Popup::ProjectDelete(project_delete) => project_delete.submit_and_reset(),
        }
    }

    /// Applies one key press to the dialog.
    pub fn handle_key_events(&mut self, key: Key)
        requires
            old(self).wf(),
        ensures
            final(self).wf(),
            final(self)@ == old(self)@.after_key(key),
    {
        match self {
            Popup::TaskInput(task_input) => task_input.handle_key_events(key),
            Popup::TaskUpdate(task_update) => task_update.handle_key_events(key),
            Popup::TaskDelete(task_delete) => task_delete.handle_key_events(key),
            Popup::ProjectInput(project_input) => project_input.handle_key_events(key),
            Popup::ProjectUpdate(project_update) => project_update.handle_key_events(key),
            Popup::ProjectDelete(project_delete) => project_delete.handle_key_events(key),
        }
    }

    /// The caption of the dialog.
    pub fn caption(&self) -> (r: String)
        ensures
            r@ == self@.caption(),
    {
        match self {
            Popup::TaskInput(task_input) => task_input.caption(),
            Popup::TaskUpdate(task_update) => task_update.caption(),
            Popup::TaskDelete(task_delete) => task_delete.caption(),
            Popup::ProjectInput(project_input) => project_input.caption(),
            Popup::ProjectUpdate(project_update) => project_update.caption(),
            Popup::ProjectDelete(project_delete) => project_delete.caption(),
        }
    }
}

} // verus!
