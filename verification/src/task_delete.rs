use vstd::prelude::*;
use crate::key::Key;
use crate::submit::{InputSubmit, StoreRequest, StoreRequestView};
use crate::text::{decimal, delete_message, delete_question, push_decimal};

verus! {

/// The dialog that asks whether a task is to be deleted.
pub struct TaskDelete {
    task_id: i32,
}

impl View for TaskDelete {
    type V = i32;

    closed spec fn view(&self) -> i32 {
        self.task_id
    }
}

impl TaskDelete {
    /// The dialog for the task with the key `task_id`.
    pub fn new(task_id: i32) -> (r: Self)
        ensures
            r@ == task_id,
    {
        Self { task_id }
    }

    /// The caption of the dialog, which names the task by its key.
    pub fn caption(&self) -> (r: String)
        ensures
            r@ == "Delete Task "@ + decimal(self@ as int),
    {
        let mut caption = String::from_str("Delete Task ");
        push_decimal(&mut caption, self.task_id);
        caption
    }

    /// The question that the dialog asks, line by line.
    pub fn message(&self) -> (r: Vec<String>)
        ensures
            r@.len() == 2,
            r@[0]@ == delete_question("task"@),
            r@[1]@ == "This action cannot be undone."@,
    {
        delete_message("task")
    }

    /// The key of the task that the dialog is for.
    pub fn task_id(&self) -> (r: i32)
        ensures
            r == self@,
    {
        self.task_id
    }

    /// A key press changes nothing in this dialog.
    pub fn handle_key_events(&mut self, key: Key)
        ensures
            final(self)@ == old(self)@,
    {
    }
}

impl InputSubmit for TaskDelete {
    open spec fn wf(&self) -> bool {
        true
    }

    /// The deletion of the task.
    open spec fn request(&self) -> StoreRequestView {
        StoreRequestView::DeleteTask(self@)
    }

    open spec fn resets_to(&self, after: &Self) -> bool {
        after@ == self@
    }

    fn submit(&self) -> (r: StoreRequest) {
        StoreRequest::DeleteTask(self.task_id)
    }

    fn reset(&mut self) {
    }
}

} // verus!
