use on_a_roll::key::{Key, KeyCode};
use on_a_roll::multi_input::{InputField, MultiInput};
use on_a_roll::project_status::ProjectStatus;
use on_a_roll::status::StatusKind;
use on_a_roll::task_status::TaskStatus;

fn active_members<T: StatusKind>(form: &MultiInput<T>) -> Vec<InputField> {
    let mut active = Vec::new();
    if form.title_field().is_active() {
        active.push(InputField::Title);
    }
    if form.description_field().is_active() {
        active.push(InputField::Description);
    }
    if form.status_list().is_active() {
        active.push(InputField::Status);
    }
    active
}

#[test]
fn new_form_has_the_focus_on_the_title() {
    let form: MultiInput<TaskStatus> = MultiInput::new();
    assert_eq!(form.active_field(), InputField::Title);
    assert_eq!(active_members(&form), vec![InputField::Title]);
    assert_eq!(form.title_field().get_input(), "");
    assert_eq!(form.description_field().get_input(), "");
    assert_eq!(form.status_list().items(), &TaskStatus::all());
    assert_eq!(form.status_list().selected_index(), Some(0));
    assert_eq!(form.title_field().title(), "Task Title");
    assert_eq!(form.description_field().title(), "Task Description");
    assert_eq!(form.status_list().title(), "Status");
}

#[test]
fn new_form_offers_every_state_of_its_kind() {
    let form: MultiInput<ProjectStatus> = MultiInput::new();
    assert_eq!(form.status_list().items(), &ProjectStatus::all());
    let inputs = form.get_inputs();
    assert_eq!(*inputs.status, ProjectStatus::Planning);
}

#[test]
fn switch_field_goes_round_forward() {
    let mut form: MultiInput<TaskStatus> = MultiInput::new();
    form.switch_field(false);
    assert_eq!(form.active_field(), InputField::Description);
    assert_eq!(active_members(&form), vec![InputField::Description]);
    form.switch_field(false);
    assert_eq!(form.active_field(), InputField::Status);
    assert_eq!(active_members(&form), vec![InputField::Status]);
    form.switch_field(false);
    assert_eq!(form.active_field(), InputField::Title);
    assert_eq!(active_members(&form), vec![InputField::Title]);
}

#[test]
fn switch_field_goes_round_backward() {
    let mut form: MultiInput<TaskStatus> = MultiInput::new();
    form.switch_field(true);
    assert_eq!(form.active_field(), InputField::Status);
    assert_eq!(active_members(&form), vec![InputField::Status]);
    form.switch_field(true);
    assert_eq!(form.active_field(), InputField::Description);
    form.switch_field(true);
    assert_eq!(form.active_field(), InputField::Title);
    assert_eq!(active_members(&form), vec![InputField::Title]);
}

#[test]
fn forward_then_backward_returns_to_the_member() {
    let mut form: MultiInput<TaskStatus> = MultiInput::new();
    for _ in 0..3 {
        let before = form.active_field();
        form.switch_field(false);
        form.switch_field(true);
        assert_eq!(form.active_field(), before);
        assert_eq!(active_members(&form), vec![before]);
        form.switch_field(true);
        form.switch_field(false);
        assert_eq!(form.active_field(), before);
        form.switch_field(false);
    }
}

#[test]
fn next_field_is_the_rule_of_the_ring() {
    assert_eq!(InputField::Title.next(false), InputField::Description);
    assert_eq!(InputField::Description.next(false), InputField::Status);
    assert_eq!(InputField::Status.next(false), InputField::Title);
    assert_eq!(InputField::Title.next(true), InputField::Status);
    assert_eq!(InputField::Description.next(true), InputField::Title);
    assert_eq!(InputField::Status.next(true), InputField::Description);
}

#[test]
fn set_inputs_then_get_inputs_gives_the_values_back() {
    let mut form: MultiInput<TaskStatus> = MultiInput::new();
    form.set_inputs(
        "Write".to_string(),
        Some("the report".to_string()),
        TaskStatus::InReview,
    );
    let inputs = form.get_inputs();
    assert_eq!(inputs.title, "Write");
    assert_eq!(inputs.description, "the report");
    assert_eq!(*inputs.status, TaskStatus::InReview);
    assert_eq!(form.status_list().selected_index(), Some(3));
    assert_eq!(form.title_field().cursor(), 5);
    assert_eq!(form.description_field().cursor(), 10);
    assert_eq!(form.active_field(), InputField::Title);
}

#[test]
fn set_inputs_without_description_empties_the_text() {
    let mut form: MultiInput<ProjectStatus> = MultiInput::new();
    form.set_inputs("A".to_string(), None, ProjectStatus::Canceled);
    let inputs = form.get_inputs();
    assert_eq!(inputs.title, "A");
    assert_eq!(inputs.description, "");
    assert_eq!(*inputs.status, ProjectStatus::Canceled);

    form.set_inputs("B".to_string(), Some("old".to_string()), ProjectStatus::Active);
    assert_eq!(form.get_inputs().description, "old");
    form.set_inputs("C".to_string(), None, ProjectStatus::Planning);
    let inputs = form.get_inputs();
    assert_eq!(inputs.title, "C");
    assert_eq!(inputs.description, "");
    assert_eq!(*inputs.status, ProjectStatus::Planning);
    assert_eq!(form.description_field().cursor(), 0);
}

#[test]
fn set_inputs_overwrites_what_was_typed() {
    let mut form: MultiInput<TaskStatus> = MultiInput::new();
    form.handle_key_events(Key::char('x'));
    form.handle_key_events(Key::plain(KeyCode::Tab));
    form.handle_key_events(Key::char('y'));
    form.handle_key_events(Key::plain(KeyCode::Tab));
    form.handle_key_events(Key::char('j'));
    form.set_inputs("T".to_string(), None, TaskStatus::Completed);
    let inputs = form.get_inputs();
    assert_eq!(inputs.title, "T");
    assert_eq!(inputs.description, "");
    assert_eq!(*inputs.status, TaskStatus::Completed);
    assert_eq!(form.active_field(), InputField::Status);
    assert!(form.status_list().is_active());
    assert!(!form.description_field().is_active());
}

#[test]
fn reset_clears_the_form_and_focuses_the_title() {
    let mut form: MultiInput<TaskStatus> = MultiInput::new();
    form.set_inputs("A".to_string(), Some("b".to_string()), TaskStatus::OnHold);
    form.switch_field(false);
    form.switch_field(false);
    assert_eq!(form.active_field(), InputField::Status);
    form.reset();
    assert_eq!(form.active_field(), InputField::Title);
    assert_eq!(active_members(&form), vec![InputField::Title]);
    let inputs = form.get_inputs();
    assert_eq!(inputs.title, "");
    assert_eq!(inputs.description, "");
    assert_eq!(*inputs.status, TaskStatus::Todo);
    assert_eq!(form.title_field().cursor(), 0);
}

#[test]
fn reset_from_the_description_leaves_one_member_active() {
    let mut form: MultiInput<TaskStatus> = MultiInput::new();
    form.switch_field(false);
    form.reset();
    assert_eq!(active_members(&form), vec![InputField::Title]);
}

#[test]
fn tab_moves_the_focus_and_shift_tab_moves_it_back() {
    let mut form: MultiInput<TaskStatus> = MultiInput::new();
    form.handle_key_events(Key::plain(KeyCode::Tab));
    assert_eq!(form.active_field(), InputField::Description);
    form.handle_key_events(Key::shifted(KeyCode::Tab));
    assert_eq!(form.active_field(), InputField::Title);
    form.handle_key_events(Key::shifted(KeyCode::Tab));
    assert_eq!(form.active_field(), InputField::Status);
    assert_eq!(active_members(&form), vec![InputField::Status]);
}

#[test]
fn other_keys_go_to_the_active_member_only() {
    let mut form: MultiInput<TaskStatus> = MultiInput::new();
    form.handle_key_events(Key::char('j'));
    form.handle_key_events(Key::char('k'));
    assert_eq!(form.title_field().get_input(), "jk");
    assert_eq!(form.description_field().get_input(), "");
    assert_eq!(form.status_list().selected_index(), Some(0));

    form.handle_key_events(Key::plain(KeyCode::Tab));
    form.handle_key_events(Key::char('x'));
    form.handle_key_events(Key::plain(KeyCode::Backspace));
    form.handle_key_events(Key::char('j'));
    assert_eq!(form.title_field().get_input(), "jk");
    assert_eq!(form.description_field().get_input(), "j");
    assert_eq!(form.status_list().selected_index(), Some(0));

    form.handle_key_events(Key::plain(KeyCode::Tab));
    form.handle_key_events(Key::char('j'));
    form.handle_key_events(Key::char('j'));
    form.handle_key_events(Key::char('x'));
    assert_eq!(form.title_field().get_input(), "jk");
    assert_eq!(form.description_field().get_input(), "j");
    assert_eq!(form.status_list().selected_index(), Some(2));
    assert_eq!(*form.get_inputs().status, TaskStatus::Blocked);

    form.handle_key_events(Key::char('k'));
    form.handle_key_events(Key::char('k'));
    form.handle_key_events(Key::char('k'));
    assert_eq!(*form.get_inputs().status, TaskStatus::Canceled);
}
