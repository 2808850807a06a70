use on_a_roll::app::{ActiveScreen, App};
use on_a_roll::key::{Key, KeyCode};
use on_a_roll::list_selection::Highlight;
use on_a_roll::popup::Popup;
use on_a_roll::project::Project;
use on_a_roll::project_status::ProjectStatus;
use on_a_roll::submit::StoreRequest;
use on_a_roll::task::Task;
use on_a_roll::task_status::TaskStatus;

fn task(id: i32, title: &str) -> Task {
    Task {
        id,
        title: title.to_string(),
        description: None,
        status: TaskStatus::Todo,
        project_id: None,
    }
}

fn project(id: i32, title: &str) -> Project {
    Project { id, title: title.to_string(), description: None, status: ProjectStatus::Active }
}

fn three_tasks() -> Vec<Task> {
    vec![task(1, "one"), task(2, "two"), task(3, "three")]
}

fn two_projects() -> Vec<Project> {
    vec![project(10, "ten"), project(20, "twenty")]
}

fn started() -> App {
    App::new(three_tasks(), two_projects())
}

#[test]
fn app_starts_on_the_tasks_without_a_dialog() {
    let app = started();
    assert_eq!(app.active_screen(), ActiveScreen::Tasks);
    assert!(app.popup().is_none());
    assert!(!app.should_exit());
    assert!(app.notice().is_none());
    assert!(app.tasks().list().is_active());
    assert!(!app.projects().list().is_active());
    assert_eq!(app.tasks().list().title(), "Tasks");
    assert_eq!(app.projects().list().title(), "Projects");
    assert_eq!(app.tasks().get_selected(), Some(&task(1, "one")));
    assert_eq!(app.projects().get_selected(), Some(&project(10, "ten")));
}

#[test]
fn tab_switches_the_panel_and_the_highlight() {
    let bold = Highlight { bold: true, italic: true, background: true };
    let dim = Highlight { bold: false, italic: true, background: false };
    let mut app = started();
    assert_eq!(app.tasks().list().highlight(), bold);
    assert_eq!(app.projects().list().highlight(), dim);
    assert!(app.handle_key_event(Key::plain(KeyCode::Tab)).is_none());
    assert_eq!(app.active_screen(), ActiveScreen::Projects);
    assert!(!app.tasks().list().is_active());
    assert!(app.projects().list().is_active());
    assert_eq!(app.tasks().list().highlight(), dim);
    assert_eq!(app.projects().list().highlight(), bold);
    assert!(app.handle_key_event(Key::plain(KeyCode::Tab)).is_none());
    assert_eq!(app.active_screen(), ActiveScreen::Tasks);
    assert!(app.tasks().list().is_active());
    assert!(!app.projects().list().is_active());
}

#[test]
fn q_asks_to_leave() {
    let mut app = started();
    assert!(app.handle_key_event(Key::char('q')).is_none());
    assert!(app.should_exit());
    let mut app = started();
    app.handle_key_event(Key::plain(KeyCode::Tab));
    app.handle_key_event(Key::char('q'));
    assert!(app.should_exit());
}

#[test]
fn j_and_k_move_the_selection_of_the_active_panel() {
    let mut app = started();
    app.handle_key_event(Key::char('j'));
    assert_eq!(app.tasks().get_selected(), Some(&task(2, "two")));
    assert_eq!(app.projects().get_selected(), Some(&project(10, "ten")));
    app.handle_key_event(Key::plain(KeyCode::Tab));
    app.handle_key_event(Key::char('k'));
    assert_eq!(app.tasks().get_selected(), Some(&task(2, "two")));
    assert_eq!(app.projects().get_selected(), Some(&project(20, "twenty")));
}

#[test]
fn a_opens_the_dialog_of_the_active_panel() {
    let mut app = started();
    assert!(app.handle_key_event(Key::char('a')).is_none());
    assert!(matches!(app.popup(), Some(Popup::TaskInput(_))));
    assert!(app.tasks().get_selected().is_some());

    let mut app = started();
    app.handle_key_event(Key::plain(KeyCode::Tab));
    app.handle_key_event(Key::char('a'));
    assert!(matches!(app.popup(), Some(Popup::ProjectInput(_))));
}

#[test]
fn u_opens_the_update_dialog_for_the_selected_item() {
    let mut app = started();
    app.handle_key_event(Key::char('j'));
    app.handle_key_event(Key::char('u'));
    match app.popup() {
        Some(Popup::TaskUpdate(dialog)) => {
            assert_eq!(dialog.task_id(), 2);
            assert_eq!(dialog.inputs().get_inputs().title, "two");
        }
        _ => panic!(),
    }
}

#[test]
fn u_and_d_do_nothing_without_a_selection() {
    let mut app = App::new(vec![], vec![]);
    assert!(app.handle_key_event(Key::char('u')).is_none());
    assert!(app.popup().is_none());
    assert!(app.handle_key_event(Key::char('d')).is_none());
    assert!(app.popup().is_none());
    app.handle_key_event(Key::plain(KeyCode::Tab));
    app.handle_key_event(Key::char('u'));
    app.handle_key_event(Key::char('d'));
    assert!(app.popup().is_none());
    assert!(app.detail_lines().is_none());
}

#[test]
fn d_opens_the_delete_dialog_for_the_selected_item() {
    let mut app = started();
    app.handle_key_event(Key::char('k'));
    app.handle_key_event(Key::char('d'));
    match app.popup() {
        Some(Popup::TaskDelete(dialog)) => assert_eq!(dialog.task_id(), 3),
        _ => panic!(),
    }
    let mut app = started();
    app.handle_key_event(Key::plain(KeyCode::Tab));
    app.handle_key_event(Key::char('d'));
    match app.popup() {
        Some(Popup::ProjectDelete(dialog)) => assert_eq!(dialog.project_id(), 10),
        _ => panic!(),
    }
}

#[test]
fn escape_closes_the_dialog_without_a_request() {
    let mut app = started();
    app.handle_key_event(Key::char('a'));
    app.handle_key_event(Key::char('x'));
    assert!(app.handle_key_event(Key::plain(KeyCode::Esc)).is_none());
    assert!(app.popup().is_none());
    assert_eq!(app.tasks().list().items(), &three_tasks());
}

#[test]
fn keys_go_to_the_open_dialog_and_not_to_the_panel() {
    let mut app = started();
    app.handle_key_event(Key::char('a'));
    for c in ['q', 'j', 'a', 'u', 'd'] {
        assert!(app.handle_key_event(Key::char(c)).is_none());
    }
    app.handle_key_event(Key::plain(KeyCode::Tab));
    assert!(!app.should_exit());
    assert_eq!(app.active_screen(), ActiveScreen::Tasks);
    assert_eq!(app.tasks().get_selected(), Some(&task(1, "one")));
    match app.popup() {
        Some(Popup::TaskInput(dialog)) => {
            assert_eq!(dialog.inputs().get_inputs().title, "qjaud");
            assert!(dialog.inputs().description_field().is_active());
        }
        _ => panic!(),
    }
}

#[test]
fn enter_hands_out_the_request_and_closes_the_dialog() {
    let mut app = started();
    app.handle_key_event(Key::char('a'));
    app.handle_key_event(Key::char('x'));
    match app.handle_key_event(Key::plain(KeyCode::Enter)) {
        Some(StoreRequest::CreateTask(new_task)) => {
            assert_eq!(new_task.title, Some("x".to_string()));
            assert_eq!(new_task.status, Some(TaskStatus::Todo));
        }
        other => panic!("{:?}", other),
    }
    assert!(app.popup().is_none());
}

#[test]
fn enter_without_a_dialog_asks_for_nothing() {
    let mut app = started();
    assert!(app.handle_key_event(Key::plain(KeyCode::Enter)).is_none());
    assert!(app.handle_key_event(Key::plain(KeyCode::Esc)).is_none());
    assert!(app.popup().is_none());
    assert_eq!(app.tasks().get_selected(), Some(&task(1, "one")));
}

#[test]
fn update_confirmed_untouched_asks_for_the_same_values() {
    let mut app = App::new(vec![task(4, "A")], vec![]);
    app.handle_key_event(Key::char('u'));
    match app.handle_key_event(Key::plain(KeyCode::Enter)) {
        Some(StoreRequest::UpdateTask(update)) => {
            assert_eq!(update.id, 4);
            assert_eq!(update.title, Some("A".to_string()));
            assert_eq!(update.description, Some("".to_string()));
            assert_eq!(update.status, Some(TaskStatus::Todo));
            assert_eq!(update.project_id, None);
        }
        other => panic!("{:?}", other),
    }
    assert!(app.popup().is_none());
}

#[test]
fn delete_of_a_missing_row_leaves_the_list() {
    let rows = vec![task(5, "five"), task(6, "six")];
    let mut app = App::new(rows.clone(), two_projects());
    app.handle_key_event(Key::char('d'));
    let request = app.handle_key_event(Key::plain(KeyCode::Enter));
    let id = match request {
        Some(StoreRequest::DeleteTask(id)) => id,
        other => panic!("{:?}", other),
    };
    assert_eq!(id, 5);
    let held_by_store = vec![task(6, "six")];
    let deleted = held_by_store.iter().filter(|t| t.id == id).count();
    assert_eq!(deleted, 0);
    app.refresh(held_by_store.clone(), two_projects());
    assert!(app.popup().is_none());
    assert!(app.notice().is_none());
    assert_eq!(app.tasks().list().items(), &held_by_store);
    assert_eq!(app.projects().list().items(), &two_projects());
    assert_eq!(app.tasks().get_selected(), Some(&task(6, "six")));
}

#[test]
fn refresh_selects_the_first_items_again() {
    let mut app = started();
    app.handle_key_event(Key::char('j'));
    app.handle_key_event(Key::char('j'));
    app.handle_key_event(Key::plain(KeyCode::Tab));
    app.handle_key_event(Key::char('j'));
    let mut tasks = three_tasks();
    tasks.push(task(4, "four"));
    app.refresh(tasks.clone(), two_projects());
    assert_eq!(app.tasks().list().selected_index(), Some(0));
    assert_eq!(app.projects().list().selected_index(), Some(0));
    assert_eq!(app.tasks().list().items(), &tasks);
    assert_eq!(app.active_screen(), ActiveScreen::Projects);
    assert!(app.projects().list().is_active());
    assert!(!app.tasks().list().is_active());
    app.refresh(vec![], vec![]);
    assert_eq!(app.tasks().list().selected_index(), None);
    assert_eq!(app.projects().get_selected(), None);
}

#[test]
fn refused_request_leaves_the_lists_and_shows_the_reason() {
    let mut app = started();
    app.handle_key_event(Key::char('j'));
    app.handle_key_event(Key::char('u'));
    let request = app.handle_key_event(Key::plain(KeyCode::Enter));
    assert!(matches!(request, Some(StoreRequest::UpdateTask(_))));
    app.report_failure("task 2 was not found".to_string());
    assert_eq!(app.notice(), Some("task 2 was not found"));
    assert!(app.popup().is_none());
    assert_eq!(app.tasks().list().items(), &three_tasks());
    assert_eq!(app.tasks().get_selected(), Some(&task(2, "two")));
    assert!(!app.should_exit());
    app.handle_key_event(Key::char('j'));
    assert!(app.notice().is_none());
    assert_eq!(app.tasks().get_selected(), Some(&task(3, "three")));
}

#[test]
fn detail_pane_shows_the_selected_item_of_the_active_panel() {
    let mut app = started();
    assert_eq!(app.detail_caption(), "Task details");
    assert_eq!(
        app.detail_lines(),
        Some(vec![
            "Title: one".to_string(),
            "Description: ".to_string(),
            "Status: Todo".to_string()
        ])
    );
    app.handle_key_event(Key::plain(KeyCode::Tab));
    app.handle_key_event(Key::char('j'));
    assert_eq!(app.detail_caption(), "Project details");
    assert_eq!(
        app.detail_lines(),
        Some(vec![
            "Title: twenty".to_string(),
            "Description: ".to_string(),
            "Status: Active".to_string()
        ])
    );
}

#[test]
fn settle_refreshes_both_lists_when_the_store_carried_the_request_out() {
    let mut app = started();
    app.handle_key_event(Key::char('j'));
    app.handle_key_event(Key::char('d'));
    let request = app.handle_key_event(Key::plain(KeyCode::Enter));
    assert!(matches!(request, Some(StoreRequest::DeleteTask(2))));
    let tasks = vec![task(1, "one"), task(3, "three")];
    let projects = vec![project(20, "twenty")];
    app.settle(Ok((tasks.clone(), projects.clone())));
    assert_eq!(app.tasks().list().items(), &tasks);
    assert_eq!(app.projects().list().items(), &projects);
    assert_eq!(app.tasks().list().selected_index(), Some(0));
    assert_eq!(app.projects().list().selected_index(), Some(0));
    assert!(app.notice().is_none());
    assert!(app.popup().is_none());
    assert_eq!(app.active_screen(), ActiveScreen::Tasks);
    assert!(app.tasks().list().is_active());
}

#[test]
fn settle_shows_the_reason_when_the_store_refused() {
    let mut app = started();
    app.handle_key_event(Key::char('j'));
    app.handle_key_event(Key::char('u'));
    app.handle_key_event(Key::plain(KeyCode::Enter));
    app.settle(Err("Record not found".to_string()));
    assert_eq!(app.notice(), Some("Record not found"));
    assert_eq!(app.tasks().list().items(), &three_tasks());
    assert_eq!(app.projects().list().items(), &two_projects());
    assert_eq!(app.tasks().get_selected(), Some(&task(2, "two")));
    assert!(app.popup().is_none());
    app.handle_key_event(Key::plain(KeyCode::Tab));
    assert!(app.notice().is_none());
}
