pub mod key;
pub mod text;
pub mod status;
pub mod task_status;
pub mod project_status;
pub mod user_input;
pub mod list_selection;
pub mod multi_input;
pub mod task;
pub mod project;
pub mod submit;
pub mod task_input;
pub mod task_update;
pub mod task_delete;
pub mod project_input;
pub mod project_update;
pub mod project_delete;
pub mod popup;
pub mod task_list;
pub mod project_list;
pub mod app;
pub mod layout;
