use llmdocs::adrs::{adr_id_from_file_name, extract_adr};
use llmdocs::components::{extract_component, markdown_stem};
use llmdocs::models::{AdrStatus, ComponentType, Priority, SprintStatus, TaskStatus, TaskType};
use llmdocs::sprints::extract_sprint;
use llmdocs::stories::{extract_user_stories, story_id_exec};
use llmdocs::tasks::{extract_tasks, parse_task};

const NOW: i64 = 1_700_000_000;

#[test]
fn tasks_are_split_at_task_headings() {
    let doc = "# Backlog\n\n## TASK-001: Write parser\n**Status:** In Progress\n**Type:** bug\n\
               **Assignee:** alice\n**Sprint:** sprint-3 (current)\n**Story Points:** 5\n\
               **Dependencies:** TASK-000, , TASK-002\n**Labels:** core,parser\n\
               **Description:** Parse the docs *carefully*\n\
               ### TASK-002:   Second one  \nbody text\n## Notes\n**Status:** done\n";
    let tasks = extract_tasks(doc, NOW);
    assert_eq!(tasks.len(), 2);
    let t = &tasks[0];
    assert_eq!(t.id, "TASK-001");
    assert_eq!(t.title, "Write parser");
    assert_eq!(t.status, TaskStatus::InProgress);
    assert_eq!(t.task_type, TaskType::Bug);
    assert_eq!(t.assignee, Some("alice".to_string()));
    assert_eq!(t.sprint_id, Some("sprint-3".to_string()));
    assert_eq!(t.story_points, Some(5));
    assert_eq!(t.dependencies, vec!["TASK-000".to_string(), "TASK-002".to_string()]);
    assert_eq!(t.labels, vec!["core".to_string(), "parser".to_string()]);
    assert_eq!(t.description, Some("Parse the docs".to_string()));
    assert_eq!(t.priority, Priority::Medium);
    assert_eq!(t.created_at, NOW);
    let u = &tasks[1];
    assert_eq!(u.id, "TASK-002");
    assert_eq!(u.title, "Second one");
    assert_eq!(u.status, TaskStatus::Done);
    assert_eq!(u.task_type, TaskType::Task);
    assert!(u.labels.is_empty());
}

#[test]
fn subheadings_stay_inside_a_task() {
    let doc = "## TASK-7: Sub\n### Notes\nsome notes\n**Assignee:** bob\n## TASK-8: Next\n";
    let tasks = extract_tasks(doc, NOW);
    assert_eq!(tasks.len(), 2);
    assert_eq!(tasks[0].assignee, Some("bob".to_string()));
    assert_eq!(tasks[1].assignee, None);
}

#[test]
fn parse_task_trims_the_title() {
    let t = parse_task("T-1", "  A title ", "", NOW);
    assert_eq!(t.title, "A title");
    assert_eq!(t.id, "T-1");
}

#[test]
fn task_heading_shapes() {
    assert_eq!(extract_tasks("#### TASK-1: too deep\n", NOW).len(), 0);
    assert_eq!(extract_tasks("## TASK-1:\n", NOW).len(), 0);
    assert_eq!(extract_tasks("##TASK-1: no space\n", NOW).len(), 0);
    assert_eq!(extract_tasks("## TASK-x: letters\n", NOW).len(), 0);
    assert_eq!(extract_tasks("# A-1: shallow\n", NOW).len(), 1);
    assert_eq!(extract_tasks("", NOW).len(), 0);
}

#[test]
fn story_points_out_of_range_are_absent() {
    let t = parse_task("T-1", "x", "**Story Points:** 300\n", NOW);
    assert_eq!(t.story_points, None);
    let t = parse_task("T-1", "x", "**Story Points:** 255\n", NOW);
    assert_eq!(t.story_points, Some(255));
    let t = parse_task("T-1", "x", "**Story Points:** many\n", NOW);
    assert_eq!(t.story_points, None);
}

#[test]
fn adr_file_names() {
    assert_eq!(adr_id_from_file_name("notes.md"), None);
    assert_eq!(adr_id_from_file_name("ADR007-title.md"), Some("ADR007".to_string()));
    assert_eq!(adr_id_from_file_name("ADR7.md"), Some("ADR007".to_string()));
    assert_eq!(adr_id_from_file_name("ADR1234-big.md"), Some("ADR1234".to_string()));
    assert_eq!(adr_id_from_file_name("ADR-readme.md"), None);
    assert_eq!(adr_id_from_file_name("ADR012.txt"), None);
}

#[test]
fn adr_sections_are_read() {
    let doc = "# ADR 7: Use SQLite\n\n## Context\nWe need storage.\n\n## Decision\nSQLite.\n\n\
               ## Consequences\nOne file.\n\n## Alternatives\n- Postgres\n* Flat files\n";
    let a = extract_adr("ADR007".to_string(), doc, NOW);
    assert_eq!(a.id, "ADR007");
    assert_eq!(a.title, "ADR 7: Use SQLite");
    assert_eq!(a.status, AdrStatus::Accepted);
    assert_eq!(a.context, "We need storage.");
    assert_eq!(a.decision, "SQLite.");
    assert_eq!(a.consequences, "One file.");
    assert_eq!(a.alternatives, vec!["Postgres".to_string(), "Flat files".to_string()]);
    let empty = extract_adr("ADR001".to_string(), "no structure", NOW);
    assert_eq!(empty.title, "");
    assert_eq!(empty.context, "");
}

#[test]
fn components_take_id_from_stem() {
    assert_eq!(markdown_stem("auth_service.md"), "auth_service");
    let c = extract_component("auth_service", "# Auth Service\n## Purpose\nLogs people in.\n## Dependencies\n- db\n- cache\n", NOW);
    assert_eq!(c.id, "comp-auth-service");
    assert_eq!(c.name, "Auth Service");
    assert_eq!(c.component_type, ComponentType::Module);
    assert_eq!(c.description, "Logs people in.");
    assert_eq!(c.dependencies, vec!["db".to_string(), "cache".to_string()]);
    let d = extract_component("plain", "## Overview\nFirst.\n## Purpose\nSecond.", NOW);
    assert_eq!(d.name, "comp-plain");
    assert_eq!(d.description, "First.");
}

#[test]
fn sprints_read_dates_goals_and_name() {
    let doc = "# Sprint 12: Parser\nDates: 2024-01-01 - 2024-01-14\n## Goals\n- ship it\n- test it\n";
    let s = extract_sprint("sprint-12-plan.md", doc, SprintStatus::Completed, NOW).unwrap();
    assert_eq!(s.id, "sprint-12");
    assert_eq!(s.name, "Sprint 12: Parser");
    assert_eq!(s.status, SprintStatus::Completed);
    assert_eq!(s.start_date, 1_704_067_200);
    assert_eq!(s.end_date, 1_705_276_799);
    assert_eq!(s.goals, vec!["ship it".to_string(), "test it".to_string()]);
}

#[test]
fn sprint_without_number_or_dates() {
    assert_eq!(
        extract_sprint("current.md", "", SprintStatus::Active, NOW).unwrap_err(),
        "Could not extract sprint ID from filename"
    );
    let s = extract_sprint("sprint-4.md", "no heading\n2024-02-30 - 2024-03-01", SprintStatus::Active, NOW).unwrap();
    assert_eq!(s.name, "Sprint 4");
    assert_eq!(s.start_date, NOW);
    assert_eq!(s.end_date, NOW);
    let leap = extract_sprint("sprint-5.md", "2024-02-29-2024-03-01", SprintStatus::Active, NOW).unwrap();
    assert_eq!(leap.start_date, 1_709_164_800);
}

#[test]
fn user_stories_are_numbered_in_order() {
    let doc = "# Stories\n## Login\nAs a registered user, I want to log in so that I see my tasks.\n\
               Acceptance Criteria:\n[ ] form shown\n- errors explained\n\n## Export\nNo pattern here.\n";
    let s = extract_user_stories(doc, NOW);
    assert_eq!(s.len(), 2);
    assert_eq!(s[0].id, "US-001");
    assert_eq!(s[0].title, "Login");
    assert_eq!(s[0].persona, "registered user");
    assert_eq!(s[0].want, "to log in");
    assert_eq!(s[0].benefit, "I see my tasks");
    assert_eq!(s[0].acceptance_criteria, vec!["form shown".to_string(), "errors explained".to_string()]);
    assert_eq!(s[1].id, "US-002");
    assert_eq!(s[1].persona, "user");
    assert_eq!(s[1].want, "Export");
    assert_eq!(s[1].benefit, "value is delivered");
    assert!(s[1].acceptance_criteria.is_empty());
}

#[test]
fn story_ids_are_padded() {
    assert_eq!(story_id_exec(1), "US-001");
    assert_eq!(story_id_exec(42), "US-042");
    assert_eq!(story_id_exec(1234), "US-1234");
}

#[test]
fn story_with_an_intro() {
    let s = extract_user_stories("## Admin\nAS AN admin I want reports so that I decide\n", NOW);
    assert_eq!(s[0].persona, "admin");
    assert_eq!(s[0].want, "reports");
    assert_eq!(s[0].benefit, "I decide");
}

#[test]
fn story_criteria_keep_bullets_only() {
    let doc = "## T\nAcceptance Criteria:\n- a\nsome text\n* b\n[ ] c\n-\n  - d\n";
    let s = extract_user_stories(doc, NOW);
    assert_eq!(s.len(), 1);
    assert_eq!(s[0].id, "US-001");
    assert_eq!(
        s[0].acceptance_criteria,
        vec!["a".to_string(), "b".to_string(), "c".to_string(), "d".to_string()]
    );
}
