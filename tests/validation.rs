use llmdocs::ids::new_uuid_v4_str;
use llmdocs::tasks::is_valid_task_id;

#[test]
fn test_is_valid_task_id() {
    assert!(is_valid_task_id("TASK-001"));
    assert!(is_valid_task_id("SPRINT-123"));
    assert!(!is_valid_task_id("task-001"));
    assert!(!is_valid_task_id("TASK001"));
    assert!(!is_valid_task_id("TASK-ABC"));
    assert!(!is_valid_task_id("TASK-001-EXTRA"));
    assert!(!is_valid_task_id(""));
}

#[test]
fn test_new_uuid_v4_str() {
    let uuid_str = new_uuid_v4_str();
    assert!(uuid::Uuid::parse_str(&uuid_str).is_ok(), "Generated string should be a valid UUID");
}

#[test]
fn uuid_strings_are_hyphenated_and_fresh() {
    let a = new_uuid_v4_str();
    let b = new_uuid_v4_str();
    assert_eq!(a.len(), 36);
    assert_eq!(&a[8..9], "-");
    assert_eq!(&a[23..24], "-");
    assert_ne!(a, b);
}
