use vstd::prelude::*;
use crate::key::{Key, KeyCode};
use crate::list_selection::{ListSelection, ListSelectionView};
use crate::multi_input::MultiInputView;
use crate::popup::{Popup, PopupView};
use crate::project::Project;
use crate::project_delete::ProjectDelete;
use crate::project_input::ProjectInput;
use crate::project_status::ProjectStatus;
use crate::project_update::{ProjectUpdate, ProjectUpdateView};

verus! {

/// What the panel of projects is: the list, and the dialog that it has raised, if any.
pub struct ProjectListView {
    pub projects: ListSelectionView<Project>,
    pub popup: Option<PopupView>,
}

impl ProjectListView {
    /// The list is sound, and so is the dialog in the slot.
    pub open spec fn wf(self) -> bool {
        &&& self.projects.wf()
        &&& match self.popup {
            Some(popup) => popup.wf(),
            None => true,
        }
    }

    /// The dialog that a key raises: `a` one for a new project, `u` one for changing the
    /// selected project, `d` one for deleting it. Without a selected project `u` and `d`
    /// raise none, and no other key raises one.
    pub open spec fn raised(self, key: Key) -> Option<PopupView> {
        if key.code == KeyCode::Char('a') {
            Some(PopupView::ProjectInput(MultiInputView::<ProjectStatus>::fresh()))
        } else if key.code == KeyCode::Char('u') && self.projects.selected.is_some() {
            let project = self.projects.items[self.projects.selected.unwrap() as int];
            Some(
                PopupView::ProjectUpdate(
                    ProjectUpdateView {
                        project_id: project.id,
                        inputs: MultiInputView::<ProjectStatus>::fresh().filled(
                            project@.title,
                            project@.description,
                            project.status,
                        ),
                    },
                ),
            )
        } else if key.code == KeyCode::Char('d') && self.projects.selected.is_some() {
            let project = self.projects.items[self.projects.selected.unwrap() as int];
            Some(PopupView::ProjectDelete(project.id))
        } else {
            None
        }
    }

    /// Whether a key is one of those that ask for a dialog.
    pub open spec fn asks_for_popup(key: Key) -> bool {
        key.code == KeyCode::Char('a') || key.code == KeyCode::Char('u') || key.code
            == KeyCode::Char('d')
    }

    /// The panel after one key press: a key that raises a dialog puts it in the slot,
    /// a key that asks for one in vain changes nothing, and every other key goes to
    /// the list.
    pub open spec fn after_key(self, key: Key) -> ProjectListView {
        if Self::asks_for_popup(key) {
            match self.raised(key) {
                Some(popup) => ProjectListView { popup: Some(popup), ..self },
                None => self,
            }
        } else {
            ProjectListView {
                projects: ListSelectionView {
                    selected: ListSelection::<Project>::selection_after_key(
                        self.projects.selected,
                        self.projects.items.len(),
                        key,
                    ),
                    ..self.projects
                },
                ..self
            }
        }
    }
}

/// The panel of projects: the list of all projects, and a slot for the dialog that the panel
/// raises and its owner takes out.
pub struct ProjectList {
    projects: ListSelection<Project>,
    popup: Option<Popup>,
}

impl View for ProjectList {
    type V = ProjectListView;

    closed spec fn view(&self) -> ProjectListView {
        ProjectListView {
            projects: self.projects@,
            popup: match self.popup {
                Some(popup) => Some(popup@),
                None => None,
            },
        }
    }
}

impl ProjectList {
    /// Whether the panel is sound.
    pub open spec fn wf(&self) -> bool {
        self@.wf()
    }

    /// The dialog in the slot.
    pub closed spec fn slot(&self) -> Option<Popup> {
        self.popup
    }

    /// The panel for `projects`, with the first project selected and no dialog.
    pub fn new(projects: Vec<Project>) -> (r: Self)
        ensures
            r.wf(),
            r@.popup.is_none(),
            r@.projects == ListSelection::new_view(projects@, "Projects"@),
    {
        Self { projects: ListSelection::new(projects, "Projects"), popup: None }
    }

    /// The selected project.
    pub fn get_selected(&self) -> (r: Option<&Project>)
        requires
            self.wf(),
        ensures
            r == match self@.projects.selected {
                Some(i) => Some(&self@.projects.items[i as int]),
                None => None,
            },
    {
        self.projects.selected()
    }

    /// Applies one key press to the panel.
    pub fn handle_list_key_events(&mut self, key: Key)
        requires
            old(self).wf(),
        ensures
            final(self).wf(),
            final(self)@ == old(self)@.after_key(key),
    {
        match key.code {
            KeyCode::Char(c) => {
                if c == 'a' {
                    self.popup = Some(Popup::ProjectInput(ProjectInput::new()));
                } else if c == 'u' {
                    if let Some(selected_project) = self.projects.selected() {
                        let dialog = ProjectUpdate::from_project(selected_project);
                        self.popup = Some(Popup::ProjectUpdate(dialog));
                    }
                } else if c == 'd' {
                    if let Some(selected_project) = self.projects.selected() {
                        let dialog = ProjectDelete::new(selected_project.id);
                        self.popup = Some(Popup::ProjectDelete(dialog));
                    }
                } else {
                    self.projects.handle_key_events(key);
                }
            },
            _ => self.projects.handle_key_events(key),
        }
    }

    /// Replaces the projects by `projects`, as they were read from the store, and selects
    /// the first of them.
    pub fn refresh(&mut self, projects: Vec<Project>)
        requires
            old(self).wf(),
        ensures
            final(self).wf(),
            final(self)@ == (ProjectListView {
                projects: ListSelection::new_view(projects@, old(self)@.projects.title).with_active(
                    old(self)@.projects.active,
                ),
                ..old(self)@
            }),
    {
        self.projects.set_items(projects);
    }

    /// Applies one key press to the panel.
    pub fn handle_key_events(&mut self, key: Key)
        requires
            old(self).wf(),
        ensures
            final(self).wf(),
            final(self)@ == old(self)@.after_key(key),
    {
        self.handle_list_key_events(key)
    }

    /// Turns the highlight of the list on or off.
    pub fn switch_active(&mut self)
        requires
            old(self).wf(),
        ensures
            final(self).wf(),
            final(self)@ == (ProjectListView {
                projects: old(self)@.projects.with_active(!old(self)@.projects.active),
                ..old(self)@
            }),
    {
        self.projects.switch_active();
    }

    /// Takes the dialog out of the slot.
    pub fn take_popup(&mut self) -> (r: Option<Popup>)
        requires
            old(self).wf(),
        ensures
            final(self).wf(),
            final(self)@ == (ProjectListView { popup: None, ..old(self)@ }),
            r == old(self).slot(),
            match r {
                Some(popup) => popup.wf() && old(self)@.popup == Some(popup@),
                None => old(self)@.popup.is_none(),
            },
    {
        self.popup.take()
    }

    /// The list of the panel.
    pub fn list(&self) -> (r: &ListSelection<Project>)
        ensures
            r@ == self@.projects,
    {
        &self.projects
    }
}

} // verus!
