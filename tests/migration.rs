use llmdocs::config::Config;
use llmdocs::get_version;
use llmdocs::migration::{Category, DocumentRecord, MigrationRun, Step};
use llmdocs::models::TaskStatus;
use llmdocs::tasks::extract_tasks;

const NOW: i64 = 1_700_000_000;

/// A store double that records every write and refuses the ids it is told to.
struct RecordingStore {
    written: Vec<String>,
    refuse: Vec<String>,
}

impl RecordingStore {
    fn insert(&mut self, record: &DocumentRecord) -> Result<(), String> {
        self.written.push(record.id().clone());
        if self.refuse.contains(record.id()) {
            Err("disk full".to_string())
        } else {
            Ok(())
        }
    }
}

fn run(records: &[DocumentRecord], dry_run: bool, store: &mut RecordingStore) -> (MigrationRun, Vec<String>) {
    let mut m = MigrationRun::new(dry_run);
    let mut previews = Vec::new();
    for r in records {
        match m.begin(r) {
            Step::Preview(line) => previews.push(line),
            Step::Persist => {
                let outcome = store.insert(r);
                m.persisted(r, outcome);
            }
        }
    }
    (m, previews)
}

fn task_records(doc: &str) -> Vec<DocumentRecord> {
    extract_tasks(doc, NOW).into_iter().map(DocumentRecord::Task).collect()
}

const THREE_TASKS: &str = "## T-1: one\n## T-2: two\n## T-3: three\n";

#[test]
fn every_heading_found_and_migrated_when_store_accepts() {
    let recs = task_records(THREE_TASKS);
    let mut store = RecordingStore { written: vec![], refuse: vec![] };
    let (m, _) = run(&recs, false, &mut store);
    assert_eq!(m.stats.found(Category::Task), 3);
    assert_eq!(m.stats.migrated(Category::Task), 3);
    assert!(m.stats.errors.is_empty());
    assert_eq!(store.written, vec!["T-1", "T-2", "T-3"]);
}

#[test]
fn refused_writes_are_collected_not_fatal() {
    let recs = task_records(THREE_TASKS);
    let mut store = RecordingStore { written: vec![], refuse: vec!["T-2".to_string()] };
    let (m, _) = run(&recs, false, &mut store);
    assert_eq!(m.stats.tasks_found, 3);
    assert_eq!(m.stats.tasks_migrated, 2);
    assert_eq!(m.stats.errors, vec!["Failed to create task T-2: disk full".to_string()]);
    assert_eq!(store.written.len(), 3);
}

#[test]
fn dry_run_never_writes_and_counts_all() {
    let recs = task_records(THREE_TASKS);
    let mut store = RecordingStore { written: vec![], refuse: vec!["T-1".to_string()] };
    let (m, previews) = run(&recs, true, &mut store);
    assert!(store.written.is_empty());
    assert_eq!(m.stats.tasks_found, 3);
    assert_eq!(m.stats.tasks_migrated, 3);
    assert_eq!(previews[0], "  Would create task: T-1 - one");
    let report = m.report();
    assert!(report.contains("This was a DRY RUN"));
}

#[test]
fn end_to_end_two_tasks() {
    let doc = "## TASK-001: First\n**Status:** someday\n\n## TASK-002: Second\n**Status:** done\n";
    let tasks = extract_tasks(doc, NOW);
    assert_eq!(tasks.len(), 2);
    assert_eq!(tasks[0].status, TaskStatus::Todo);
    assert_eq!(tasks[1].status, TaskStatus::Done);
    let recs: Vec<DocumentRecord> = tasks.into_iter().map(DocumentRecord::Task).collect();
    let mut store = RecordingStore { written: vec![], refuse: vec![] };
    let (m, _) = run(&recs, false, &mut store);
    let report = m.report();
    assert!(report.contains("Tasks: 2 found, 2 migrated\n"));
    assert!(report.contains("Total: 2 documents found, 2 migrated successfully"));
    assert!(!report.contains("DRY RUN"));
}

#[test]
fn extraction_failures_count_as_found() {
    let mut m = MigrationRun::new(false);
    m.extraction_failed(Category::Sprint, "notes.md", "Could not extract sprint ID from filename");
    assert_eq!(m.stats.sprints_found, 1);
    assert_eq!(m.stats.sprints_migrated, 0);
    assert_eq!(
        m.stats.errors,
        vec!["Failed to parse sprint notes.md: Could not extract sprint ID from filename".to_string()]
    );
    let report = m.report();
    assert!(report.contains("Errors encountered:\n  - Failed to parse sprint notes.md"));
    assert!(report.contains("Sprints: 1 found, 0 migrated"));
}

#[test]
fn empty_report() {
    let m = MigrationRun::new(false);
    let r = m.report();
    assert!(r.contains("ADRs: 0 found, 0 migrated"));
    assert!(!r.contains("Errors encountered"));
}

#[test]
fn config_defaults_and_database_paths() {
    let mut c = Config::default();
    assert!(c.database_url.ends_with(".llmdocs/llmdocs.sqlite"));
    assert!(!c.database_url.starts_with('~'));
    assert_eq!(c.log_level_console, "info");
    assert_eq!(c.export.default_format, "markdown");
    assert_eq!(c.embeddings.provider, "http");
    c.database_url = "sqlite:/tmp/x.db".to_string();
    assert_eq!(c.database_url_as_path(), Some("/tmp/x.db".to_string()));
    c.database_url = "/var/db.sqlite".to_string();
    assert_eq!(c.database_url_as_path(), Some("/var/db.sqlite".to_string()));
    c.database_url = "postgres://host/db".to_string();
    assert_eq!(c.database_url_as_path(), None);
}

#[test]
fn version_is_reported() {
    assert_eq!(get_version(), "0.1.0");
}

#[test]
fn end_to_end_unrecognized_and_parsed_status() {
    let doc = "### TASK-001: First\n**Status:** frobnicated\n\n### TASK-002: Second\n**Status:** In Progress\n";
    let recs = task_records(doc);
    let mut store = RecordingStore { written: vec![], refuse: vec![] };
    let (m, _) = run(&recs, false, &mut store);
    assert_eq!(store.written, vec!["TASK-001", "TASK-002"]);
    match (&recs[0], &recs[1]) {
        (DocumentRecord::Task(a), DocumentRecord::Task(b)) => {
            assert_eq!(a.status, TaskStatus::Todo);
            assert_eq!(b.status, TaskStatus::InProgress);
        }
        _ => panic!("expected task records"),
    }
    assert_eq!(m.stats.tasks_found, 2);
    assert_eq!(m.stats.tasks_migrated, 2);
    assert!(m.stats.errors.is_empty());
    assert!(m.report().contains("Tasks: 2 found, 2 migrated"));
}

#[test]
fn dry_run_stats_equal_accepting_run() {
    let recs = task_records(THREE_TASKS);
    let mut dry_store = RecordingStore { written: vec![], refuse: vec![] };
    let (dry, _) = run(&recs, true, &mut dry_store);
    let mut real_store = RecordingStore { written: vec![], refuse: vec![] };
    let (real, _) = run(&recs, false, &mut real_store);
    assert_eq!(dry.stats.tasks_found, real.stats.tasks_found);
    assert_eq!(dry.stats.tasks_migrated, real.stats.tasks_migrated);
    assert_eq!(dry.stats.errors, real.stats.errors);
    assert!(dry_store.written.is_empty());
}
