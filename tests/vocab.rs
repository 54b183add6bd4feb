use llmdocs::models::{AdrStatus, ComponentType, SprintStatus, TaskStatus, TaskType};
use llmdocs::vocab::{normalize_task_status, normalize_task_type, parse_sprint_status, parse_task_status};

#[test]
fn in_progress_spellings_agree() {
    assert_eq!(normalize_task_status("in-progress"), TaskStatus::InProgress);
    assert_eq!(normalize_task_status("In Progress"), TaskStatus::InProgress);
    assert_eq!(normalize_task_status("doing"), TaskStatus::InProgress);
    assert_eq!(normalize_task_status("IN__PROGRESS "), TaskStatus::InProgress);
}

#[test]
fn unknown_status_defaults_to_todo() {
    assert_eq!(normalize_task_status("someday maybe"), TaskStatus::Todo);
    assert_eq!(normalize_task_status(""), TaskStatus::Todo);
    assert_eq!(normalize_task_status("Done"), TaskStatus::Done);
    assert_eq!(normalize_task_status("to-do"), TaskStatus::Todo);
    assert_eq!(normalize_task_status("Cancelled"), TaskStatus::Cancelled);
    assert_eq!(normalize_task_status("blocked"), TaskStatus::Blocked);
}

#[test]
fn task_types_and_default() {
    assert_eq!(normalize_task_type("bugfix"), TaskType::Bug);
    assert_eq!(normalize_task_type("User Story"), TaskType::Story);
    assert_eq!(normalize_task_type("research"), TaskType::Spike);
    assert_eq!(normalize_task_type("Feature"), TaskType::Feature);
    assert_eq!(normalize_task_type("chore"), TaskType::Task);
}

#[test]
fn strict_status_parsers() {
    assert_eq!(parse_task_status("CANCELED"), Ok(TaskStatus::Cancelled));
    assert_eq!(parse_task_status("nope"), Err("Invalid status: nope".to_string()));
    assert_eq!(parse_sprint_status("Active"), Ok(SprintStatus::Active));
    assert_eq!(parse_sprint_status("x"), Err("Invalid sprint status: x".to_string()));
    assert_eq!(SprintStatus::from_str("Completed"), Ok(SprintStatus::Completed));
    assert_eq!(SprintStatus::from_str("completed"), Err("Invalid SprintStatus: completed".to_string()));
    assert_eq!(AdrStatus::from_str("SUPERSEDED"), Ok(AdrStatus::Superseded));
    assert_eq!(AdrStatus::from_str("maybe"), Err("Invalid AdrStatus: maybe".to_string()));
    assert_eq!(ComponentType::from_str("Api"), Ok(ComponentType::Api));
    assert_eq!(ComponentType::from_str("thing"), Err("Invalid ComponentType: thing".to_string()));
}

#[test]
fn display_names() {
    assert_eq!(AdrStatus::Accepted.name(), "Accepted");
    assert_eq!(ComponentType::Module.name(), "Module");
    assert_eq!(ComponentType::Api.name(), "Api");
    assert_eq!(SprintStatus::Cancelled.name(), "Cancelled");
}
