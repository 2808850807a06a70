use vstd::prelude::*;
use crate::key::{Key, KeyCode};
use crate::popup::{Popup, PopupView};
use crate::project::Project;
use crate::project_list::{ProjectList, ProjectListView};
use crate::submit::{StoreRequest, StoreRequestView};
use crate::task::Task;
use crate::task_list::{TaskList, TaskListView};
use crate::text::text_view;
use crate::list_selection::ListSelection;
use crate::multi_input::{after_key_keeps_form_sound, set_inputs_round_trip, MultiInputView};
use crate::project_status::ProjectStatus;
use crate::status::StatusKind;
use crate::task_status::TaskStatus;

verus! {

/// The panel that takes the keys while no dialog is open.
#[derive(Debug, Clone, Copy, PartialEq, Eq, Structural)]
pub enum ActiveScreen {
    Projects,
    Tasks,
}

/// What the application is at one moment: the two panels, the one that is active, the
/// open dialog if there is one, whether the user has asked to leave, and the message
/// about a request that the store refused, if the last one was refused.
pub struct AppView {
    pub tasks: TaskListView,
    pub projects: ProjectListView,
    pub active_screen: ActiveScreen,
    pub popup: Option<PopupView>,
    pub exit: bool,
    pub notice: Option<Seq<char>>,
}

impl AppView {
    /// The panels and the dialog are sound, no panel holds a dialog back, and of the
    /// two lists the one of the active panel is highlighted and the other is not.
    pub open spec fn wf(self) -> bool {
        &&& self.tasks.wf()
        &&& self.tasks.popup.is_none()
        &&& self.projects.wf()
        &&& self.projects.popup.is_none()
        &&& match self.popup {
            Some(popup) => popup.wf(),
            None => true,
        }
        &&& self.tasks.tasks.active == (self.active_screen == ActiveScreen::Tasks)
        &&& self.projects.projects.active == (self.active_screen == ActiveScreen::Projects)
    }

    /// The application as it starts: the panel of tasks is active, no dialog is open.
    pub open spec fn started(tasks: Seq<Task>, projects: Seq<Project>) -> AppView {
        AppView {
            tasks: TaskListView {
                tasks: ListSelection::new_view(tasks, "Tasks"@).with_active(true),
                popup: None,
            },
            projects: ProjectListView {
                projects: ListSelection::new_view(projects, "Projects"@),
                popup: None,
            },
            active_screen: ActiveScreen::Tasks,
            popup: None,
            exit: false,
            notice: None,
        }
    }

    /// The application with the other panel active: the highlight goes from the list
    /// of the one to the list of the other.
    pub open spec fn switched(self) -> AppView {
        AppView {
            tasks: TaskListView {
                tasks: self.tasks.tasks.with_active(!self.tasks.tasks.active),
                ..self.tasks
            },
            projects: ProjectListView {
                projects: self.projects.projects.with_active(!self.projects.projects.active),
                ..self.projects
            },
            active_screen: match self.active_screen {
                ActiveScreen::Tasks => ActiveScreen::Projects,
                ActiveScreen::Projects => ActiveScreen::Tasks,
            },
            ..self
        }
    }

    /// What a key does while the panel of tasks is active and no dialog is open: `q`
    /// asks to leave, tab makes the other panel the active one, and every other key
    /// goes to the panel. The dialog that the panel raises is opened at once.
    pub open spec fn after_tasks_key(self, key: Key) -> AppView {
        if key.code == KeyCode::Char('q') {
            AppView { exit: true, ..self }
        } else if key.code == KeyCode::Tab {
            self.switched()
        } else {
            AppView {
                tasks: TaskListView { popup: None, ..self.tasks.after_key(key) },
                popup: self.tasks.after_key(key).popup,
                ..self
            }
        }
    }

    /// What a key does while the panel of projects is active and no dialog is open.
    pub open spec fn after_projects_key(self, key: Key) -> AppView {
        if key.code == KeyCode::Char('q') {
            AppView { exit: true, ..self }
        } else if key.code == KeyCode::Tab {
            self.switched()
        } else {
            AppView {
                projects: ProjectListView { popup: None, ..self.projects.after_key(key) },
                popup: self.projects.after_key(key).popup,
                ..self
            }
        }
    }

    /// What a key does to the open dialog `popup`: enter and escape close it, and
    /// every other key goes to it.
    pub open spec fn after_popup_key(self, key: Key, popup: PopupView) -> AppView {
        if key.code == KeyCode::Enter || key.code == KeyCode::Esc {
            AppView { popup: None, ..self }
        } else {
            AppView { popup: Some(popup.after_key(key)), ..self }
        }
    }

    /// The application after one key press. The message about a refused request goes
    /// away with it. With a dialog open the key goes to the dialog, and else to the
    /// active panel.
    pub open spec fn after_key(self, key: Key) -> AppView {
        let quiet = AppView { notice: None, ..self };
        match self.popup {
            Some(popup) => quiet.after_popup_key(key, popup),
            None => match self.active_screen {
                ActiveScreen::Tasks => quiet.after_tasks_key(key),
                ActiveScreen::Projects => quiet.after_projects_key(key),
            },
        }
    }

    /// What the store is asked for on a key press: what the open dialog asks for, where
    /// the key is enter, and else nothing.
    pub open spec fn request_for(self, key: Key) -> Option<StoreRequestView> {
        match self.popup {
            Some(popup) => if key.code == KeyCode::Enter {
                Some(popup.request())
            } else {
                None
            },
            None => None,
        }
    }

    /// The lines of the detail pane: the selected item of the active panel in full, or
    /// nothing where the list of that panel is empty.
    pub open spec fn detail_lines(self) -> Option<Seq<Seq<char>>> {
        match self.active_screen {
            ActiveScreen::Tasks => match self.tasks.tasks.selected {
                Some(i) => Some(self.tasks.tasks.items[i as int]@.detail_lines()),
                None => None,
            },
            ActiveScreen::Projects => match self.projects.projects.selected {
                Some(i) => Some(self.projects.projects.items[i as int]@.detail_lines()),
                None => None,
            },
        }
    }

    /// The application with both lists replaced by what the store holds. In each list
    /// the first item is selected.
    pub open spec fn refreshed(self, tasks: Seq<Task>, projects: Seq<Project>) -> AppView {
        AppView {
            tasks: TaskListView {
                tasks: ListSelection::new_view(tasks, self.tasks.tasks.title).with_active(
                    self.tasks.tasks.active,
                ),
                ..self.tasks
            },
            projects: ProjectListView {
                projects: ListSelection::new_view(
                    projects,
                    self.projects.projects.title,
                ).with_active(self.projects.projects.active),
                ..self.projects
            },
            ..self
        }
    }
}

/// In a sound application exactly one of the two lists is highlighted: the one of the
/// active panel.
pub proof fn exactly_one_list_is_active(app: AppView)
    requires
        app.wf(),
    ensures
        app.tasks.tasks.active != app.projects.projects.active,
        app.tasks.tasks.active == (app.active_screen == ActiveScreen::Tasks),
{
}

/// Whatever key is pressed, a sound application stays sound: no panel holds a dialog
/// back, and exactly one list is highlighted.
pub proof fn after_key_keeps_app_sound(app: AppView, key: Key)
    requires
        app.wf(),
    ensures
        app.after_key(key).wf(),
{
    match app.popup {
        Some(popup) => {
            match popup {
                PopupView::TaskInput(form) => after_key_keeps_form_sound(form, key),
                PopupView::TaskUpdate(update) => after_key_keeps_form_sound(update.inputs, key),
                PopupView::ProjectInput(form) => after_key_keeps_form_sound(form, key),
                PopupView::ProjectUpdate(update) => after_key_keeps_form_sound(
                    update.inputs,
                    key,
                ),
                _ => {},
            }
        },
        None => {
            TaskStatus::every_is_complete();
            ProjectStatus::every_is_complete();
            if app.tasks.tasks.selected.is_some() {
                let at = app.tasks.tasks.selected.unwrap() as int;
                let task = app.tasks.tasks.items[at];
                set_inputs_round_trip(
                    MultiInputView::<TaskStatus>::fresh(),
                    task@.title,
                    task@.description,
                    task.status,
                );
            }
            if app.projects.projects.selected.is_some() {
                let at = app.projects.projects.selected.unwrap() as int;
                let project = app.projects.projects.items[at];
                set_inputs_round_trip(
                    MultiInputView::<ProjectStatus>::fresh(),
                    project@.title,
                    project@.description,
                    project.status,
                );
            }
        },
    }
}

/// With no dialog open, tab makes the other panel the active one and moves the
/// highlight from the one list to the other; nothing else changes, and a second tab
/// brings back what was.
pub proof fn tab_switches_the_panel(app: AppView)
    requires
        app.wf(),
        app.popup.is_none(),
    ensures
        app.after_key(Key { code: KeyCode::Tab, shift: false }) == (AppView {
            notice: None,
            ..app
        }).switched(),
        app.switched().active_screen != app.active_screen,
        app.switched().tasks.tasks.active == !app.tasks.tasks.active,
        app.switched().projects.projects.active == !app.projects.projects.active,
        app.switched().tasks.tasks.items == app.tasks.tasks.items,
        app.switched().tasks.tasks.selected == app.tasks.tasks.selected,
        app.switched().projects.projects.items == app.projects.projects.items,
        app.switched().projects.projects.selected == app.projects.projects.selected,
        app.switched().switched() == app,
        app.switched().wf(),
{
}

/// A refresh selects the first item of each list, whatever was selected before, and
/// leaves the active panel, the open dialog and the highlights as they were.
pub proof fn refresh_selects_the_first_items(
    app: AppView,
    tasks: Seq<Task>,
    projects: Seq<Project>,
)
    requires
        app.wf(),
    ensures
        app.refreshed(tasks, projects).wf(),
        app.refreshed(tasks, projects).tasks.tasks.items == tasks,
        app.refreshed(tasks, projects).projects.projects.items == projects,
        tasks.len() > 0 ==> app.refreshed(tasks, projects).tasks.tasks.selected == Some(0nat),
        projects.len() > 0 ==> app.refreshed(tasks, projects).projects.projects.selected == Some(
            0nat,
        ),
        app.refreshed(tasks, projects).popup == app.popup,
        app.refreshed(tasks, projects).active_screen == app.active_screen,
{
}

/// The application: two panels, of which one is active, and at most one open dialog.
pub struct App {
    tasks: TaskList,
    projects: ProjectList,
    active_screen: ActiveScreen,
    popup: Option<Popup>,
    exit: bool,
    notice: Option<String>,
}

impl View for App {
    type V = AppView;

    closed spec fn view(&self) -> AppView {
        AppView {
            tasks: self.tasks@,
            projects: self.projects@,
            active_screen: self.active_screen,
            popup: match self.popup {
                Some(popup) => Some(popup@),
                None => None,
            },
            exit: self.exit,
            notice: text_view(self.notice),
        }
    }
}

impl App {
    /// Whether the application is sound.
    pub open spec fn wf(&self) -> bool {
        self@.wf()
    }

    /// The application over the tasks and projects that the store holds.
    pub fn new(tasks: Vec<Task>, projects: Vec<Project>) -> (r: Self)
        ensures
            r.wf(),
            r@ == AppView::started(tasks@, projects@),
    {
        let mut tasks = TaskList::new(tasks);
        tasks.switch_active();
        Self {
            tasks,
            projects: ProjectList::new(projects),
            active_screen: ActiveScreen::Tasks,
            popup: None,
            exit: false,
            notice: None,
        }
    }

    /// Opens the dialog that a panel has raised: the dialog goes from the slot of the
    /// panel to the application. Only the active panel gets keys, so at most one of
    /// the two slots holds a dialog.
    fn get_popup(&mut self)
        requires
            old(self).tasks.wf(),
            old(self).projects.wf(),
            old(self)@.popup.is_none(),
            old(self)@.projects.popup.is_none() || old(self)@.tasks.popup.is_none(),
        ensures
            final(self).tasks.wf(),
            final(self).projects.wf(),
            final(self)@ == (AppView {
                tasks: TaskListView { popup: None, ..old(self)@.tasks },
                projects: ProjectListView { popup: None, ..old(self)@.projects },
                popup: if old(self)@.projects.popup.is_some() {
                    old(self)@.projects.popup
                } else {
                    old(self)@.tasks.popup
                },
                ..old(self)@
            }),
    {
        if let Some(popup) = self.projects.take_popup() {
            self.popup = Some(popup);
        } else if let Some(popup) = self.tasks.take_popup() {
            self.popup = Some(popup);
        }
    }

    /// Applies one key press: to the open dialog, or to the active panel where none
    /// is open. Where the key confirms a dialog, the result is what the dialog asks of
    /// the store. The caller carries the request out and hands the outcome to `settle`.
    pub fn handle_key_event(&mut self, key: Key) -> (r: Option<StoreRequest>)
        requires
            old(self).wf(),
        ensures
            final(self).wf(),
            final(self)@ == old(self)@.after_key(key),
            match r {
                Some(request) => old(self)@.request_for(key) == Some(request@),
                None => old(self)@.request_for(key).is_none(),
            },
    {
        self.notice = None;
        if let Some(popup) = self.popup.take() {
            self.handle_popup_key_event(key, popup)
        } else {
            match self.active_screen {
                ActiveScreen::Tasks => self.handle_tasks_key_event(key),
                ActiveScreen::Projects => self.handle_projects_key_event(key),
            }
            None
        }
    }

    fn handle_tasks_key_event(&mut self, key: Key)
        requires
            old(self).wf(),
            old(self)@.popup.is_none(),
            old(self)@.active_screen == ActiveScreen::Tasks,
        ensures
            final(self).wf(),
            final(self)@ == old(self)@.after_tasks_key(key),
    {
        match key.code {
            KeyCode::Char(c) => {
                if c == 'q' {
                    self.exit();
                } else {
                    self.tasks.handle_key_events(key);
                    self.get_popup();
                }
            },
            KeyCode::Tab => {
                self.active_screen = ActiveScreen::Projects;
                self.tasks.switch_active();
                self.projects.switch_active();
            },
            _ => {
                self.tasks.handle_key_events(key);
                self.get_popup();
            },
        }
    }

    fn handle_projects_key_event(&mut self, key: Key)
        requires
            old(self).wf(),
            old(self)@.popup.is_none(),
            old(self)@.active_screen == ActiveScreen::Projects,
        ensures
            final(self).wf(),
            final(self)@ == old(self)@.after_projects_key(key),
    {
        match key.code {
            KeyCode::Char(c) => {
                if c == 'q' {
                    self.exit();
                } else {
                    self.projects.handle_key_events(key);
                    self.get_popup();
                }
            },
            KeyCode::Tab => {
                self.active_screen = ActiveScreen::Tasks;
                self.tasks.switch_active();
                self.projects.switch_active();
            },
            _ => {
                self.projects.handle_key_events(key);
                self.get_popup();
            },
        }
    }

    fn handle_popup_key_event(&mut self, key: Key, popup: Popup) -> (r: Option<StoreRequest>)
        requires
            old(self).wf(),
            old(self)@.popup.is_none(),
            popup.wf(),
        ensures
            final(self).wf(),
            final(self)@ == old(self)@.after_popup_key(key, popup@),
            match r {
                Some(request) => key.code == KeyCode::Enter && request@ == popup@.request(),
                None => key.code != KeyCode::Enter,
            },
    {
        let mut popup = popup;
        match key.code {
            KeyCode::Enter => {
                let request = popup.submit();
                self.popup = None;
                Some(request)
            },
            KeyCode::Esc => {
                self.popup = None;
                None
            },
            _ => {
                popup.handle_key_events(key);
                self.popup = Some(popup);
                None
            },
        }
    }

    fn exit(&mut self)
        ensures
            final(self)@ == (AppView { exit: true, ..old(self)@ }),
    {
        self.exit = true;
    }

    /// Replaces both lists by what the store holds. In each the first item is selected,
    /// whatever was selected before.
    pub fn refresh(&mut self, tasks: Vec<Task>, projects: Vec<Project>)
        requires
            old(self).wf(),
        ensures
            final(self).wf(),
            final(self)@ == old(self)@.refreshed(tasks@, projects@),
    {
        self.tasks.refresh(tasks);
        self.projects.refresh(projects);
    }

    /// Takes note that the store refused the last request, with the reason, which is
    /// shown until the next key press. Nothing else changes.
    pub fn report_failure(&mut self, message: String)
        ensures
            final(self)@ == (AppView { notice: Some(message@), ..old(self)@ }),
    {
        self.notice = Some(message);
    }

    /// Takes the outcome of a request that was handed out. Where the store carried it
    /// out, `outcome` holds what the store holds now, and both lists are replaced by it,
    /// whichever of them the request was about. Where the store refused, `outcome` holds
    /// the reason: it is shown until the next key press, and the lists stay as they
    /// were.
    pub fn settle(&mut self, outcome: Result<(Vec<Task>, Vec<Project>), String>)
        requires
            old(self).wf(),
        ensures
            final(self).wf(),
            final(self)@ == match outcome {
                Ok((tasks, projects)) => old(self)@.refreshed(tasks@, projects@),
                Err(message) => AppView { notice: Some(message@), ..old(self)@ },
            },
    {
        match outcome {
            Ok((tasks, projects)) => self.refresh(tasks, projects),
            Err(message) => self.report_failure(message),
        }
    }

    /// The caption of the detail pane, which shows the selected item of the active
    /// panel.
    pub fn detail_caption(&self) -> (r: &'static str)
        ensures
            r@ == match self@.active_screen {
                ActiveScreen::Tasks => "Task details"@,
                ActiveScreen::Projects => "Project details"@,
            },
    {
        match self.active_screen {
            ActiveScreen::Tasks => "Task details",
            ActiveScreen::Projects => "Project details",
        }
    }

    /// The lines of the detail pane: the selected item of the active panel in full, or
    /// nothing where the list of that panel is empty.
    pub fn detail_lines(&self) -> (r: Option<Vec<String>>)
        requires
            self.wf(),
        ensures
            match r {
                Some(lines) => self@.detail_lines().is_some() && lines@.len() == 3 && forall|
                    i: int,
                |
                    0 <= i < 3 ==> (#[trigger] lines@[i])@ == self@.detail_lines().unwrap()[i],
                None => self@.detail_lines().is_none(),
            },
    {
        match self.active_screen {
            ActiveScreen::Tasks => match self.tasks.get_selected() {
                Some(task) => Some(task.detail_lines()),
                None => None,
            },
            ActiveScreen::Projects => match self.projects.get_selected() {
                Some(project) => Some(project.detail_lines()),
                None => None,
            },
        }
    }

    /// Whether the user has asked to leave.
    pub fn should_exit(&self) -> (r: bool)
        ensures
            r == self@.exit,
    {
        self.exit
    }

    /// The panel that takes the keys while no dialog is open.
    pub fn active_screen(&self) -> (r: ActiveScreen)
        ensures
            r == self@.active_screen,
    {
        self.active_screen
    }

    /// The panel of tasks.
    pub fn tasks(&self) -> (r: &TaskList)
        ensures
            r@ == self@.tasks,
    {
        &self.tasks
    }

    /// The panel of projects.
    pub fn projects(&self) -> (r: &ProjectList)
        ensures
            r@ == self@.projects,
    {
        &self.projects
    }

    /// The open dialog.
    pub fn popup(&self) -> (r: Option<&Popup>)
        ensures
            match r {
                Some(popup) => self@.popup == Some(popup@),
                None => self@.popup.is_none(),
            },
    {
        self.popup.as_ref()
    }

    /// The message about the last request, where the store refused it.
    pub fn notice(&self) -> (r: Option<&str>)
        ensures
            match r {
                Some(message) => self@.notice == Some(message@),
                None => self@.notice.is_none(),
            },
    {
        match &self.notice {
            Some(message) => Some(message.as_str()),
            None => None,
        }
    }
}

} // verus!
