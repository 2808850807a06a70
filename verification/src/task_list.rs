use vstd::prelude::*;
use crate::key::{Key, KeyCode};
use crate::list_selection::{ListSelection, ListSelectionView};
use crate::multi_input::MultiInputView;
use crate::popup::{Popup, PopupView};
use crate::task::Task;
use crate::task_delete::TaskDelete;
use crate::task_input::TaskInput;
use crate::task_status::TaskStatus;
use crate::task_update::{TaskUpdate, TaskUpdateView};

verus! {

/// What the panel of tasks is: the list, and the dialog that it has raised, if any.
pub struct TaskListView {
    pub tasks: ListSelectionView<Task>,
    pub popup: Option<PopupView>,
}

impl TaskListView {
    /// The list is sound, and so is the dialog in the slot.
    pub open spec fn wf(self) -> bool {
        &&& self.tasks.wf()
        &&& match self.popup {
            Some(popup) => popup.wf(),
            None => true,
        }
    }

    /// The dialog that a key raises: `a` one for a new task, `u` one for changing the
    /// selected task, `d` one for deleting it. Without a selected task `u` and `d`
    /// raise none, and no other key raises one.
    pub open spec fn raised(self, key: Key) -> Option<PopupView> {
        if key.code == KeyCode::Char('a') {
            Some(PopupView::TaskInput(MultiInputView::<TaskStatus>::fresh()))
        } else if key.code == KeyCode::Char('u') && self.tasks.selected.is_some() {
            let task = self.tasks.items[self.tasks.selected.unwrap() as int];
            Some(
                PopupView::TaskUpdate(
                    TaskUpdateView {
                        task_id: task.id,
                        inputs: MultiInputView::<TaskStatus>::fresh().filled(
                            task@.title,
                            task@.description,
                            task.status,
                        ),
                    },
                ),
            )
        } else if key.code == KeyCode::Char('d') && self.tasks.selected.is_some() {
            let task = self.tasks.items[self.tasks.selected.unwrap() as int];
            Some(PopupView::TaskDelete(task.id))
        } else {
            None
        }
    }

    /// Whether a key is one of those that ask for a dialog.
    pub open spec fn asks_for_popup(key: Key) -> bool {
        key.code == KeyCode::Char('a') || key.code == KeyCode::Char('u') || key.code
            == KeyCode::Char('d')
    }

    /// The panel after one key press: a key that raises a dialog puts it in the slot,
    /// a key that asks for one in vain changes nothing, and every other key goes to
    /// the list.
    pub open spec fn after_key(self, key: Key) -> TaskListView {
        if Self::asks_for_popup(key) {
            match self.raised(key) {
                Some(popup) => TaskListView { popup: Some(popup), ..self },
                None => self,
            }
        } else {
            TaskListView {
                tasks: ListSelectionView {
                    selected: ListSelection::<Task>::selection_after_key(
                        self.tasks.selected,
                        self.tasks.items.len(),
                        key,
                    ),
                    ..self.tasks
                },
                ..self
            }
        }
    }
}

/// The panel of tasks: the list of all tasks, and a slot for the dialog that the panel
/// raises and its owner takes out.
pub struct TaskList {
    tasks: ListSelection<Task>,
    popup: Option<Popup>,
}

impl View for TaskList {
    type V = TaskListView;

    closed spec fn view(&self) -> TaskListView {
        TaskListView {
            tasks: self.tasks@,
            popup: match self.popup {
                Some(popup) => Some(popup@),
                None => None,
            },
        }
    }
}

impl TaskList {
    /// Whether the panel is sound.
    pub open spec fn wf(&self) -> bool {
        self@.wf()
    }

    /// The dialog in the slot.
    pub closed spec fn slot(&self) -> Option<Popup> {
        self.popup
    }

    /// The panel for `tasks`, with the first task selected and no dialog.
    pub fn new(tasks: Vec<Task>) -> (r: Self)
        ensures
            r.wf(),
            r@.popup.is_none(),
            r@.tasks == ListSelection::new_view(tasks@, "Tasks"@),
    {
        Self { tasks: ListSelection::new(tasks, "Tasks"), popup: None }
    }

    /// The selected task.
    pub fn get_selected(&self) -> (r: Option<&Task>)
        requires
            self.wf(),
        ensures
            r == match self@.tasks.selected {
                Some(i) => Some(&self@.tasks.items[i as int]),
                None => None,
            },
    {
        self.tasks.selected()
    }

    /// Applies one key press to the panel.
    pub fn handle_list_key_events(&mut self, key: Key)
        requires
            old(self).wf(),
        ensures
            final(self).wf(),
            final(self)@ == old(self)@.after_key(key),
    {
        match key.code {
            KeyCode::Char(c) => {
                if c == 'a' {
                    self.popup = Some(Popup::TaskInput(TaskInput::new()));
                } else if c == 'u' {
                    if let Some(selected_task) = self.tasks.selected() {
                        let dialog = TaskUpdate::from_task(selected_task);
                        self.popup = Some(Popup::TaskUpdate(dialog));
                    }
                } else if c == 'd' {
                    if let Some(selected_task) = self.tasks.selected() {
                        let dialog = TaskDelete::new(selected_task.id);
                        self.popup = Some(Popup::TaskDelete(dialog));
                    }
                } else {
                    self.tasks.handle_key_events(key);
                }
            },
            _ => self.tasks.handle_key_events(key),
        }
    }

    /// Replaces the tasks by `tasks`, as they were read from the store, and selects
    /// the first of them.
    pub fn refresh(&mut self, tasks: Vec<Task>)
        requires
            old(self).wf(),
        ensures
            final(self).wf(),
            final(self)@ == (TaskListView {
                tasks: ListSelection::new_view(tasks@, old(self)@.tasks.title).with_active(
                    old(self)@.tasks.active,
                ),
                ..old(self)@
            }),
    {
        self.tasks.set_items(tasks);
    }

    /// Applies one key press to the panel.
    pub fn handle_key_events(&mut self, key: Key)
        requires
            old(self).wf(),
        ensures
            final(self).wf(),
            final(self)@ == old(self)@.after_key(key),
    {
        self.handle_list_key_events(key)
    }

    /// Turns the highlight of the list on or off.
    pub fn switch_active(&mut self)
        requires
            old(self).wf(),
        ensures
            final(self).wf(),
            final(self)@ == (TaskListView {
                tasks: old(self)@.tasks.with_active(!old(self)@.tasks.active),
                ..old(self)@
            }),
    {
        self.tasks.switch_active();
    }

    /// Takes the dialog out of the slot.
    pub fn take_popup(&mut self) -> (r: Option<Popup>)
        requires
            old(self).wf(),
        ensures
            final(self).wf(),
            final(self)@ == (TaskListView { popup: None, ..old(self)@ }),
            r == old(self).slot(),
            match r {
                Some(popup) => popup.wf() && old(self)@.popup == Some(popup@),
                None => old(self)@.popup.is_none(),
            },
    {
        self.popup.take()
    }

    /// The list of the panel.
    pub fn list(&self) -> (r: &ListSelection<Task>)
        ensures
            r@ == self@.tasks,
    {
        &self.tasks
    }
}

} // verus!
