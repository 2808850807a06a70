use on_a_roll::key::{Key, KeyCode};
use on_a_roll::multi_input::InputField;
use on_a_roll::popup::Popup;
use on_a_roll::project::Project;
use on_a_roll::project_delete::ProjectDelete;
use on_a_roll::project_input::ProjectInput;
use on_a_roll::project_status::ProjectStatus;
use on_a_roll::project_update::ProjectUpdate;
use on_a_roll::submit::{InputSubmit, StoreRequest};
use on_a_roll::task::Task;
use on_a_roll::task_delete::TaskDelete;
use on_a_roll::task_input::TaskInput;
use on_a_roll::task_status::TaskStatus;
use on_a_roll::task_update::TaskUpdate;

fn type_text(popup: &mut Popup, text: &str) {
    for c in text.chars() {
        popup.handle_key_events(Key::char(c));
    }
}

#[test]
fn task_input_asks_for_a_new_task() {
    let mut popup = Popup::TaskInput(TaskInput::new());
    type_text(&mut popup, "Buy milk");
    popup.handle_key_events(Key::plain(KeyCode::Tab));
    type_text(&mut popup, "two litres");
    popup.handle_key_events(Key::plain(KeyCode::Tab));
    popup.handle_key_events(Key::char('j'));
    match popup.submit() {
        StoreRequest::CreateTask(new_task) => {
            assert_eq!(new_task.title, Some("Buy milk".to_string()));
            assert_eq!(new_task.description, Some("two litres".to_string()));
            assert_eq!(new_task.status, Some(TaskStatus::InProgress));
            assert_eq!(new_task.project_id, None);
        }
        other => panic!("{:?}", other),
    }
}

#[test]
fn submit_brings_the_form_back_to_its_first_state() {
    let mut dialog = TaskInput::new();
    dialog.handle_key_events(Key::char('x'));
    dialog.handle_key_events(Key::plain(KeyCode::Tab));
    let request = dialog.submit_and_reset();
    assert!(matches!(request, StoreRequest::CreateTask(_)));
    assert_eq!(dialog.inputs().title_field().get_input(), "");
    assert_eq!(dialog.inputs().active_field(), InputField::Title);
    assert!(dialog.inputs().title_field().is_active());
    assert!(!dialog.inputs().description_field().is_active());
}

#[test]
fn submit_leaves_the_dialog_as_it_is() {
    let mut dialog = TaskInput::new();
    dialog.handle_key_events(Key::char('x'));
    let request = dialog.submit();
    match request {
        StoreRequest::CreateTask(new_task) => assert_eq!(new_task.title, Some("x".to_string())),
        other => panic!("{:?}", other),
    }
    assert_eq!(dialog.inputs().title_field().get_input(), "x");
    dialog.reset();
    assert_eq!(dialog.inputs().title_field().get_input(), "");
}

#[test]
fn untouched_task_input_asks_for_an_empty_title() {
    let mut popup = Popup::TaskInput(TaskInput::new());
    match popup.submit() {
        StoreRequest::CreateTask(new_task) => {
            assert_eq!(new_task.title, Some("".to_string()));
            assert_eq!(new_task.description, Some("".to_string()));
            assert_eq!(new_task.status, Some(TaskStatus::Todo));
            let stored = new_task.into_task(1);
            assert_eq!(stored.title, "New Task");
            assert_eq!(stored.status, TaskStatus::Todo);
        }
        other => panic!("{:?}", other),
    }
}

#[test]
fn untouched_update_asks_for_the_values_of_the_task() {
    let task = Task {
        id: 3,
        title: "A".to_string(),
        description: None,
        status: TaskStatus::Todo,
        project_id: Some(9),
    };
    let mut popup = Popup::TaskUpdate(TaskUpdate::from_task(&task));
    match popup.submit() {
        StoreRequest::UpdateTask(update) => {
            assert_eq!(update.id, 3);
            assert_eq!(update.title, Some("A".to_string()));
            assert_eq!(update.description, Some("".to_string()));
            assert_eq!(update.status, Some(TaskStatus::Todo));
            assert_eq!(update.project_id, None);
            let after = update.apply(&task);
            assert_eq!(after.title, "A");
            assert_eq!(after.status, TaskStatus::Todo);
            assert_eq!(after.project_id, Some(9));
            assert_eq!(after.id, 3);
        }
        other => panic!("{:?}", other),
    }
}

#[test]
fn untouched_update_keeps_a_description() {
    let task = Task {
        id: 3,
        title: "A".to_string(),
        description: Some("text".to_string()),
        status: TaskStatus::Completed,
        project_id: None,
    };
    let mut popup = Popup::TaskUpdate(TaskUpdate::from_task(&task));
    match popup.submit() {
        StoreRequest::UpdateTask(update) => {
            assert_eq!(update.description, Some("text".to_string()));
            assert_eq!(update.status, Some(TaskStatus::Completed));
            assert_eq!(update.apply(&task), task);
        }
        other => panic!("{:?}", other),
    }
}

#[test]
fn update_dialog_is_filled_from_the_task() {
    let dialog = TaskUpdate::new(
        8,
        "Title".to_string(),
        Some("Words".to_string()),
        TaskStatus::OnHold,
    );
    assert_eq!(dialog.task_id(), 8);
    let inputs = dialog.inputs().get_inputs();
    assert_eq!(inputs.title, "Title");
    assert_eq!(inputs.description, "Words");
    assert_eq!(*inputs.status, TaskStatus::OnHold);
    assert_eq!(dialog.inputs().active_field(), InputField::Title);
    assert_eq!(dialog.inputs().title_field().cursor(), 5);
}

#[test]
fn edited_update_asks_for_the_new_values() {
    let task = Task {
        id: 3,
        title: "A".to_string(),
        description: None,
        status: TaskStatus::Todo,
        project_id: None,
    };
    let mut popup = Popup::TaskUpdate(TaskUpdate::from_task(&task));
    popup.handle_key_events(Key::plain(KeyCode::Backspace));
    type_text(&mut popup, "New");
    popup.handle_key_events(Key::shifted(KeyCode::Tab));
    popup.handle_key_events(Key::char('k'));
    match popup.submit() {
        StoreRequest::UpdateTask(update) => {
            assert_eq!(update.id, 3);
            assert_eq!(update.title, Some("New".to_string()));
            assert_eq!(update.status, Some(TaskStatus::Canceled));
        }
        other => panic!("{:?}", other),
    }
}

#[test]
fn delete_dialog_asks_for_the_deletion_and_takes_no_key() {
    let mut popup = Popup::TaskDelete(TaskDelete::new(5));
    type_text(&mut popup, "jkq");
    popup.handle_key_events(Key::plain(KeyCode::Tab));
    match popup.submit() {
        StoreRequest::DeleteTask(id) => assert_eq!(id, 5),
        other => panic!("{:?}", other),
    }
    match popup {
        Popup::TaskDelete(dialog) => assert_eq!(dialog.task_id(), 5),
        _ => panic!(),
    }
    let mut popup = Popup::ProjectDelete(ProjectDelete::new(-7));
    match popup.submit() {
        StoreRequest::DeleteProject(id) => assert_eq!(id, -7),
        other => panic!("{:?}", other),
    }
}

#[test]
fn project_dialogs_ask_for_projects() {
    let mut popup = Popup::ProjectInput(ProjectInput::new());
    type_text(&mut popup, "Garden");
    match popup.submit() {
        StoreRequest::CreateProject(new_project) => {
            assert_eq!(new_project.title, Some("Garden".to_string()));
            assert_eq!(new_project.description, Some("".to_string()));
            assert_eq!(new_project.status, Some(ProjectStatus::Planning));
        }
        other => panic!("{:?}", other),
    }
    let project = Project {
        id: 2,
        title: "Garden".to_string(),
        description: Some("beds".to_string()),
        status: ProjectStatus::Active,
    };
    let mut popup = Popup::ProjectUpdate(ProjectUpdate::from_project(&project));
    match popup.submit() {
        StoreRequest::UpdateProject(update) => {
            assert_eq!(update.id, 2);
            assert_eq!(update.title, Some("Garden".to_string()));
            assert_eq!(update.description, Some("beds".to_string()));
            assert_eq!(update.status, Some(ProjectStatus::Active));
            assert_eq!(update.apply(&project), project);
        }
        other => panic!("{:?}", other),
    }
}

#[test]
fn captions_name_the_dialog() {
    assert_eq!(Popup::TaskInput(TaskInput::new()).caption(), "Task Creation");
    assert_eq!(Popup::ProjectInput(ProjectInput::new()).caption(), "Project Creation");
    assert_eq!(Popup::TaskDelete(TaskDelete::new(12)).caption(), "Delete Task 12");
    assert_eq!(Popup::ProjectDelete(ProjectDelete::new(0)).caption(), "Delete Project 0");
    assert_eq!(
        Popup::TaskUpdate(TaskUpdate::new(77, "t".to_string(), None, TaskStatus::Todo)).caption(),
        "Task Update for task 77"
    );
    assert_eq!(
        Popup::ProjectUpdate(ProjectUpdate::new(
            -1,
            "t".to_string(),
            None,
            ProjectStatus::Planning
        ))
        .caption(),
        "Project Update for project -1"
    );
}

#[test]
fn delete_dialogs_ask_their_question() {
    assert_eq!(
        TaskDelete::new(1).message(),
        vec![
            format!("Are you sure you want to delete this {}?", "task"),
            "This action cannot be undone.".to_string()
        ]
    );
    assert_eq!(
        ProjectDelete::new(1).message(),
        vec![
            "Are you sure you want to delete this project?".to_string(),
            "This action cannot be undone.".to_string()
        ]
    );
}
