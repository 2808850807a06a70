use vstd::prelude::*;
use crate::key::Key;
use crate::multi_input::{Inputs, MultiInput, MultiInputView};
use crate::submit::{InputSubmit, StoreRequest, StoreRequestView};
use crate::task::{NewTask, NewTaskView};
use crate::task_status::TaskStatus;

verus! {

/// The dialog in which a new task is written.
pub struct TaskInput {
    inputs: MultiInput<TaskStatus>,
}

impl View for TaskInput {
    type V = MultiInputView<TaskStatus>;

    closed spec fn view(&self) -> MultiInputView<TaskStatus> {
        self.inputs@
    }
}

impl TaskInput {
    /// The dialog with an empty form.
    pub fn new() -> (r: Self)
        ensures
            r.wf(),
            r@ == MultiInputView::<TaskStatus>::fresh(),
    {
        Self { inputs: MultiInput::new() }
    }

    /// What the dialog with the form `form` asks of the store: a new task with the
    /// title, the description and the state of the form, in no
    /// project.
    pub open spec fn request_of(form: MultiInputView<TaskStatus>) -> StoreRequestView {
        StoreRequestView::CreateTask(
            NewTaskView {
                title: Some(form.inputs().title),
                description: Some(form.inputs().description),
                status: Some(form.inputs().status),
                project_id: None,
            },
        )
    }

    /// The caption of the dialog.
    pub fn caption(&self) -> (r: String)
        ensures
            r@ == "Task Creation"@,
    {
        String::from_str("Task Creation")
    }

    /// The form of the dialog.
    pub fn inputs(&self) -> (r: &MultiInput<TaskStatus>)
        ensures
            r@ == self@,
    {
        &self.inputs
    }

    /// Applies one key press to the form.
    pub fn handle_key_events(&mut self, key: Key)
        requires
            old(self).wf(),
        ensures
            final(self).wf(),
            final(self)@ == old(self)@.after_key(key),
    {
        self.inputs.handle_key_events(key);
    }
}

impl InputSubmit for TaskInput {
    open spec fn wf(&self) -> bool {
        self@.wf()
    }

    open spec fn request(&self) -> StoreRequestView {
        Self::request_of(self@)
    }

    open spec fn resets_to(&self, after: &Self) -> bool {
        after@ == self@.cleared()
    }

    fn submit(&self) -> (r: StoreRequest) {
        let Inputs { title, description, status } = self.inputs.get_inputs();
        StoreRequest::CreateTask(
            NewTask {
                title: Some(String::from_str(title)),
                description: Some(String::from_str(description)),
                status: Some(*status),
                project_id: None,
            },
        )
    }

    fn reset(&mut self) {
        self.inputs.reset();
    }
}

} // verus!
