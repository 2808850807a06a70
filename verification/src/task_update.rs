use vstd::prelude::*;
use crate::key::Key;
use crate::multi_input::{set_inputs_round_trip, Inputs, MultiInput, MultiInputView};
use crate::submit::{InputSubmit, StoreRequest, StoreRequestView};
use crate::task::{Task, UpdateTask, UpdateTaskView};
use crate::task_status::TaskStatus;
use crate::text::{clone_text, decimal, description_or_empty, push_decimal, text_view};

verus! {

/// What a dialog for changing a task is: the key of the task and the form.
pub struct TaskUpdateView {
    pub task_id: i32,
    pub inputs: MultiInputView<TaskStatus>,
}

/// The dialog in which a task is changed.
pub struct TaskUpdate {
    inputs: MultiInput<TaskStatus>,
    task_id: i32,
}

impl View for TaskUpdate {
    type V = TaskUpdateView;

    closed spec fn view(&self) -> TaskUpdateView {
        TaskUpdateView { task_id: self.task_id, inputs: self.inputs@ }
    }
}

impl TaskUpdate {
    /// The dialog for the task with the key `task_id`, its form filled with the values
    /// given.
    pub fn new(
        task_id: i32,
        title: String,
        description: Option<String>,
        status: TaskStatus,
    ) -> (r: Self)
        ensures
            r.wf(),
            r@ == (TaskUpdateView {
                task_id,
                inputs: MultiInputView::<TaskStatus>::fresh().filled(
                    title@,
                    text_view(description),
                    status,
                ),
            }),
    {
        let mut update = Self { task_id, inputs: MultiInput::new() };
        update.inputs.set_inputs(title, description, status);
        update
    }

    /// The dialog for `task`, its form filled with the values of the task. Confirmed as
    /// it is, it asks for the task to be given the title and the state that it has, and
    /// its description, or an empty one where it has none.
    pub fn from_task(task: &Task) -> (r: Self)
        ensures
            r.wf(),
            r@ == (TaskUpdateView {
                task_id: task.id,
                inputs: MultiInputView::<TaskStatus>::fresh().filled(
                    task@.title,
                    task@.description,
                    task.status,
                ),
            }),
            r.request() == StoreRequestView::UpdateTask(
                UpdateTaskView {
                    id: task.id,
                    title: Some(task@.title),
                    description: Some(description_or_empty(task@.description)),
                    status: Some(task.status),
                    project_id: None,
                },
            ),
    {
        proof {
            set_inputs_round_trip(
                MultiInputView::<TaskStatus>::fresh(),
                task@.title,
                task@.description,
                task.status,
            );
        }
        let description = clone_text(&task.description);
        Self::new(task.id, task.title.clone(), description, task.status)
    }

    /// What the dialog asks of the store: a change of the task to the title, the
    /// description and the state of the form;
    /// the project of the task stays.
    pub open spec fn request_of(dialog: TaskUpdateView) -> StoreRequestView {
        StoreRequestView::UpdateTask(
            UpdateTaskView {
                id: dialog.task_id,
                title: Some(dialog.inputs.inputs().title),
                description: Some(dialog.inputs.inputs().description),
                status: Some(dialog.inputs.inputs().status),
                project_id: None,
            },
        )
    }

    /// The caption of the dialog, which names the task by its key.
    pub fn caption(&self) -> (r: String)
        ensures
            r@ == "Task Update for task "@ + decimal(self@.task_id as int),
    {
        let mut caption = String::from_str("Task Update for task ");
        push_decimal(&mut caption, self.task_id);
        caption
    }

    /// The form of the dialog.
    pub fn inputs(&self) -> (r: &MultiInput<TaskStatus>)
        ensures
            r@ == self@.inputs,
    {
        &self.inputs
    }

    /// The key of the task that the dialog is for.
    pub fn task_id(&self) -> (r: i32)
        ensures
            r == self@.task_id,
    {
        self.task_id
    }

    /// Applies one key press to the form.
    pub fn handle_key_events(&mut self, key: Key)
        requires
            old(self).wf(),
        ensures
            final(self).wf(),
            final(self)@ == (TaskUpdateView {
                inputs: old(self)@.inputs.after_key(key),
                ..old(self)@
            }),
    {
        self.inputs.handle_key_events(key);
    }
}

impl InputSubmit for TaskUpdate {
    open spec fn wf(&self) -> bool {
        self@.inputs.wf()
    }

    open spec fn request(&self) -> StoreRequestView {
        Self::request_of(self@)
    }

    open spec fn resets_to(&self, after: &Self) -> bool {
        after@ == (TaskUpdateView { inputs: self@.inputs.cleared(), ..self@ })
    }

    fn submit(&self) -> (r: StoreRequest) {
        let Inputs { title, description, status } = self.inputs.get_inputs();
        StoreRequest::UpdateTask(
            UpdateTask {
                id: self.task_id,
                title: Some(String::from_str(title)),
                description: Some(String::from_str(description)),
                status: Some(*status),
                project_id: None,
            },
        )
    }

    fn reset(&mut self) {
        self.inputs.reset();
    }
}

} // verus!
