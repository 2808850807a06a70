use on_a_roll::project::{
    NewProject, Project, UpdateProject, DEFAULT_PROJECT_STATUS, DEFAULT_PROJECT_TITLE,
};
use on_a_roll::project_status::ProjectStatus;
use on_a_roll::task::{NewTask, Task, UpdateTask, DEFAULT_TASK_STATUS, DEFAULT_TASK_TITLE};
use on_a_roll::task_status::TaskStatus;
use on_a_roll::text::{
    blank, clone_text, delete_message, digit_char, push_decimal, push_digits, same_number,
    same_text,
};

fn task(id: i32, title: &str, description: Option<&str>, status: TaskStatus) -> Task {
    Task {
        id,
        title: title.to_string(),
        description: description.map(|d| d.to_string()),
        status,
        project_id: None,
    }
}

#[test]
fn defaults_are_fixed() {
    assert_eq!(DEFAULT_TASK_TITLE, "New Task");
    assert_eq!(DEFAULT_TASK_STATUS, TaskStatus::Todo);
    assert_eq!(DEFAULT_PROJECT_TITLE, "New Project");
    assert_eq!(DEFAULT_PROJECT_STATUS, ProjectStatus::Planning);
}

#[test]
fn task_with_empty_title_gets_the_default_title_and_state() {
    let request = NewTask {
        title: Some("".to_string()),
        description: None,
        status: None,
        project_id: None,
    };
    let stored = request.into_task(1);
    assert_eq!(stored.id, 1);
    assert_eq!(stored.title, "New Task");
    assert_eq!(stored.description, None);
    assert_eq!(stored.status, TaskStatus::Todo);
    assert_eq!(stored.project_id, None);
}

#[test]
fn task_without_title_gets_the_default_title() {
    let request = NewTask { title: None, description: None, status: None, project_id: Some(4) };
    let filled = request.normalized();
    assert_eq!(filled.title, Some("New Task".to_string()));
    assert_eq!(filled.status, Some(TaskStatus::Todo));
    assert_eq!(filled.description, None);
    assert_eq!(filled.project_id, Some(4));
}

#[test]
fn task_with_blank_title_gets_the_default_title() {
    let request = NewTask {
        title: Some(" \t\n\r ".to_string()),
        description: Some("d".to_string()),
        status: Some(TaskStatus::Blocked),
        project_id: None,
    };
    let stored = request.into_task(9);
    assert_eq!(stored.title, "New Task");
    assert_eq!(stored.description, Some("d".to_string()));
    assert_eq!(stored.status, TaskStatus::Blocked);
}

#[test]
fn task_with_title_keeps_it() {
    let request = NewTask {
        title: Some(" Test Task".to_string()),
        description: Some("Description".to_string()),
        status: None,
        project_id: None,
    };
    let stored = request.into_task(2);
    assert_eq!(stored.title, " Test Task");
    assert_eq!(stored.description, Some("Description".to_string()));
    assert_eq!(stored.status, DEFAULT_TASK_STATUS);
}

#[test]
fn project_defaults() {
    let stored = NewProject { title: None, description: None, status: None }.into_project(3);
    assert_eq!(stored.title, DEFAULT_PROJECT_TITLE);
    assert_eq!(stored.status, DEFAULT_PROJECT_STATUS);
    assert_eq!(stored.id, 3);
    let stored = NewProject {
        title: Some("Test Project".to_string()),
        description: None,
        status: Some(ProjectStatus::Active),
    }
    .into_project(4);
    assert_eq!(stored.title, "Test Project");
    assert_eq!(stored.status, ProjectStatus::Active);
    let filled =
        NewProject { title: Some("  ".to_string()), description: None, status: None }.normalized();
    assert_eq!(filled.title, Some("New Project".to_string()));
    assert_eq!(filled.status, Some(ProjectStatus::Planning));
}

#[test]
fn update_changes_only_what_is_given() {
    let before = Task {
        id: 5,
        title: "Old Title".to_string(),
        description: Some("d".to_string()),
        status: TaskStatus::Todo,
        project_id: Some(2),
    };
    let change = UpdateTask {
        id: 5,
        title: Some("New Title".to_string()),
        description: None,
        status: Some(TaskStatus::Completed),
        project_id: None,
    };
    let after = change.apply(&before);
    assert_eq!(after.id, 5);
    assert_eq!(after.title, "New Title");
    assert_eq!(after.description, Some("d".to_string()));
    assert_eq!(after.status, TaskStatus::Completed);
    assert_eq!(after.project_id, Some(2));

    let nothing =
        UpdateTask { id: 5, title: None, description: None, status: None, project_id: None };
    assert_eq!(nothing.apply(&before), before);

    let all = UpdateTask {
        id: 5,
        title: Some("t".to_string()),
        description: Some("".to_string()),
        status: Some(TaskStatus::OnHold),
        project_id: Some(8),
    };
    let after = all.apply(&before);
    assert_eq!(after.description, Some("".to_string()));
    assert_eq!(after.project_id, Some(8));
}

#[test]
fn project_update_changes_only_what_is_given() {
    let before = Project {
        id: 1,
        title: "Update Project".to_string(),
        description: None,
        status: ProjectStatus::Active,
    };
    let change = UpdateProject {
        id: 1,
        title: Some("Updated Title".to_string()),
        description: None,
        status: None,
    };
    let after = change.apply(&before);
    assert_eq!(after.title, "Updated Title");
    assert_eq!(after.status, ProjectStatus::Active);
    assert_eq!(after.description, None);
}

#[test]
fn clone_and_equality_go_by_the_values() {
    let a = task(1, "a", Some("d"), TaskStatus::Todo);
    let b = a.clone();
    assert_eq!(a, b);
    assert_ne!(a, task(2, "a", Some("d"), TaskStatus::Todo));
    assert_ne!(a, task(1, "b", Some("d"), TaskStatus::Todo));
    assert_ne!(a, task(1, "a", None, TaskStatus::Todo));
    assert_ne!(a, task(1, "a", Some("d"), TaskStatus::Blocked));
    let mut c = a.clone();
    c.project_id = Some(1);
    assert_ne!(a, c);
    let p = Project {
        id: 1,
        title: "p".to_string(),
        description: None,
        status: ProjectStatus::Planning,
    };
    assert_eq!(p.clone(), p);
}

#[test]
fn label_is_key_colon_title() {
    assert_eq!(task(5, "Buy milk", None, TaskStatus::Todo).label(), "5: Buy milk");
    assert_eq!(task(120, "", None, TaskStatus::Todo).label(), "120: ");
    assert_eq!(task(-3, "x", None, TaskStatus::Todo).label(), "-3: x");
    let p = Project {
        id: 42,
        title: "Garden".to_string(),
        description: None,
        status: ProjectStatus::Planning,
    };
    assert_eq!(p.label(), "42: Garden");
}

#[test]
fn detail_lines_show_the_item_in_full() {
    assert_eq!(
        task(5, "Buy milk", Some("two litres"), TaskStatus::InProgress).detail_lines(),
        vec![
            "Title: Buy milk".to_string(),
            "Description: two litres".to_string(),
            "Status: In Progress".to_string()
        ]
    );
    assert_eq!(
        task(5, "Buy milk", None, TaskStatus::Todo).detail_lines(),
        vec!["Title: Buy milk".to_string(), "Description: ".to_string(), "Status: Todo".to_string()]
    );
    let p = Project {
        id: 42,
        title: "Garden".to_string(),
        description: Some("beds".to_string()),
        status: ProjectStatus::OnHold,
    };
    assert_eq!(
        p.detail_lines(),
        vec![
            "Title: Garden".to_string(),
            "Description: beds".to_string(),
            "Status: On Hold".to_string()
        ]
    );
}

#[test]
fn decimal_writes_whole_numbers() {
    for (n, text) in [
        (0, "0"),
        (7, "7"),
        (10, "10"),
        (909, "909"),
        (-1, "-1"),
        (-120, "-120"),
        (i32::MAX, "2147483647"),
        (i32::MIN, "-2147483648"),
    ] {
        let mut s = String::from("#");
        push_decimal(&mut s, n);
        assert_eq!(s, format!("#{}", text));
    }
    let mut s = String::new();
    push_digits(&mut s, 4294967295);
    assert_eq!(s, "4294967295");
    assert_eq!(digit_char(0), '0');
    assert_eq!(digit_char(9), '9');
}

#[test]
fn blank_is_nothing_but_space() {
    assert!(blank(""));
    assert!(blank("   "));
    assert!(blank(" \t\r\n"));
    assert!(!blank(" a "));
    assert!(!blank("é"));
}

#[test]
fn optional_values_compare_by_content() {
    assert!(same_text(&None, &None));
    assert!(same_text(&Some("a".to_string()), &Some("a".to_string())));
    assert!(!same_text(&Some("a".to_string()), &Some("b".to_string())));
    assert!(!same_text(&Some("".to_string()), &None));
    assert!(!same_text(&None, &Some("".to_string())));
    assert!(same_number(None, None));
    assert!(same_number(Some(1), Some(1)));
    assert!(!same_number(Some(1), Some(2)));
    assert!(!same_number(Some(0), None));
    assert_eq!(clone_text(&Some("a".to_string())), Some("a".to_string()));
    assert_eq!(clone_text(&None), None);
}

#[test]
fn delete_message_names_what_is_deleted() {
    assert_eq!(
        delete_message("project"),
        vec![
            "Are you sure you want to delete this project?".to_string(),
            "This action cannot be undone.".to_string()
        ]
    );
    assert_eq!(delete_message("")[0], "Are you sure you want to delete this ?");
}
