//! Loosely spelled vocabulary mapped onto the closed enumerations.
//!
//! Migration never rejects a record over its vocabulary: an unknown status or
//! type falls back to the category's default. The strict parsers at the end
//! of this module serve interactive input, where an unknown word is an error.
use vstd::prelude::*;
use crate::models::{AdrStatus, ComponentType, SprintStatus, TaskStatus, TaskType};
use crate::text::{
    append_str, ascii_lower, ascii_lower_exec, chars_of, is_space, is_space_exec, lower, text_of,
};

verus! {

/// Characters that only separate words in a vocabulary entry.
pub open spec fn is_separator(c: char) -> bool {
    is_space(c) || c == '-' || c == '_'
}

/// `s` in lower case with every run of separators turned into one space and
/// leading separators dropped; a trailing run leaves one space.
pub open spec fn fold_words(s: Seq<char>) -> Seq<char>
    decreases s.len(),
{
    if s.len() == 0 {
        Seq::<char>::empty()
    } else {
        let r = fold_words(s.drop_last());
        if is_separator(s.last()) {
            if r.len() > 0 && r.last() != ' ' {
                r.push(' ')
            } else {
                r
            }
        } else {
            r.push(ascii_lower(s.last()))
        }
    }
}

/// The key under which a word is looked up: lower case, words separated by
/// single spaces, no separator at either end.
pub open spec fn vocab_key(s: Seq<char>) -> Seq<char> {
    let r = fold_words(s);
    if r.len() > 0 && r.last() == ' ' {
        r.drop_last()
    } else {
        r
    }
}

pub open spec fn task_status_for(k: Seq<char>) -> TaskStatus {
    if k == "todo"@ || k == "to do"@ {
        TaskStatus::Todo
    } else if k == "in progress"@ || k == "doing"@ {
        TaskStatus::InProgress
    } else if k == "done"@ || k == "completed"@ || k == "complete"@ {
        TaskStatus::Done
    } else if k == "blocked"@ {
        TaskStatus::Blocked
    } else if k == "cancelled"@ {
        TaskStatus::Cancelled
    } else {
        TaskStatus::Todo
    }
}

pub open spec fn task_type_for(k: Seq<char>) -> TaskType {
    if k == "feature"@ {
        TaskType::Feature
    } else if k == "bug"@ || k == "bugfix"@ || k == "fix"@ {
        TaskType::Bug
    } else if k == "task"@ {
        TaskType::Task
    } else if k == "epic"@ {
        TaskType::Epic
    } else if k == "story"@ || k == "user story"@ || k == "userstory"@ {
        TaskType::Story
    } else if k == "spike"@ || k == "research"@ {
        TaskType::Spike
    } else {
        TaskType::Task
    }
}

/// The lookup key of `raw`.
pub fn vocab_key_exec(raw: &str) -> (r: Vec<char>)
    ensures
        r@ == vocab_key(raw@),
{
    let v = chars_of(raw);
    let mut r: Vec<char> = Vec::new();
    let mut i: usize = 0;
    while i < v.len()
        invariant
            i <= v.len(),
            v@ == raw@,
            r@ == fold_words(v@.take(i as int)),
        decreases v.len() - i,
    {
        let c = v[i];
        assert(v@.take(i + 1).drop_last() =~= v@.take(i as int));
        if is_space_exec(c) || c == '-' || c == '_' {
            if r.len() > 0 && r[r.len() - 1] != ' ' {
                r.push(' ');
            }
        } else {
            r.push(ascii_lower_exec(c));
        }
        i = i + 1;
    }
    assert(v@.take(v.len() as int) =~= v@);
    if r.len() > 0 && r[r.len() - 1] == ' ' {
        r.pop();
        assert(r@ =~= fold_words(raw@).drop_last());
    }
    r
}

/// Whether `k` holds exactly the characters of `word`.
pub fn is_word(k: &Vec<char>, word: &str) -> (r: bool)
    ensures
        r == (k@ == word@),
{
    let w = chars_of(word);
    if k.len() != w.len() {
        return false;
    }
    let mut i: usize = 0;
    while i < k.len()
        invariant
            i <= k.len() == w.len(),
            w@ == word@,
            forall|j: int| 0 <= j < i ==> k@[j] == w@[j],
        decreases k.len() - i,
    {
        if k[i] != w[i] {
            return false;
        }
        i = i + 1;
    }
    assert(k@ =~= w@);
    true
}

/// The task status that `raw` names, compared without regard to case or to
/// `-`, `_` and space variation; anything unrecognised is `Todo`.
pub fn normalize_task_status(raw: &str) -> (r: TaskStatus)
    ensures
        r == task_status_for(vocab_key(raw@)),
{
    let k = vocab_key_exec(raw);
    if is_word(&k, "todo") || is_word(&k, "to do") {
        TaskStatus::Todo
    } else if is_word(&k, "in progress") || is_word(&k, "doing") {
        TaskStatus::InProgress
    } else if is_word(&k, "done") || is_word(&k, "completed") || is_word(&k, "complete") {
        TaskStatus::Done
    } else if is_word(&k, "blocked") {
        TaskStatus::Blocked
    } else if is_word(&k, "cancelled") {
        TaskStatus::Cancelled
    } else {
        TaskStatus::Todo
    }
}

/// The task type that `raw` names, compared as for statuses; anything
/// unrecognised is `Task`.
pub fn normalize_task_type(raw: &str) -> (r: TaskType)
    ensures
        r == task_type_for(vocab_key(raw@)),
{
    let k = vocab_key_exec(raw);
    if is_word(&k, "feature") {
        TaskType::Feature
    } else if is_word(&k, "bug") || is_word(&k, "bugfix") || is_word(&k, "fix") {
        TaskType::Bug
    } else if is_word(&k, "task") {
        TaskType::Task
    } else if is_word(&k, "epic") {
        TaskType::Epic
    } else if is_word(&k, "story") || is_word(&k, "user story") || is_word(&k, "userstory") {
        TaskType::Story
    } else if is_word(&k, "spike") || is_word(&k, "research") {
        TaskType::Spike
    } else {
        TaskType::Task
    }
}

/// `s` in ASCII lower case.
pub fn lower_exec(s: &str) -> (r: Vec<char>)
    ensures
        r@ == lower(s@),
{
    let v = chars_of(s);
    let mut r: Vec<char> = Vec::new();
    let mut i: usize = 0;
    while i < v.len()
        invariant
            i <= v.len(),
            v@ == s@,
            r@ == lower(v@.take(i as int)),
        decreases v.len() - i,
    {
        r.push(ascii_lower_exec(v[i]));
        assert(r@ =~= lower(v@.take(i + 1)));
        i = i + 1;
    }
    assert(v@.take(v.len() as int) =~= v@);
    r
}

/// `prefix` followed by `s`.
pub fn message(prefix: &str, s: &str) -> (r: String)
    ensures
        r@ == prefix@ + s@,
{
    let mut m = text_of(prefix);
    append_str(&mut m, s);
    m
}

pub open spec fn strict_task_status(k: Seq<char>) -> Option<TaskStatus> {
    if k == "todo"@ || k == "to-do"@ || k == "to_do"@ {
        Some(TaskStatus::Todo)
    } else if k == "in_progress"@ || k == "in-progress"@ || k == "inprogress"@ || k == "doing"@ {
        Some(TaskStatus::InProgress)
    } else if k == "done"@ || k == "completed"@ || k == "complete"@ {
        Some(TaskStatus::Done)
    } else if k == "blocked"@ {
        Some(TaskStatus::Blocked)
    } else if k == "cancelled"@ || k == "canceled"@ {
        Some(TaskStatus::Cancelled)
    } else {
        None
    }
}

/// A task status typed by a user, in any case; an unknown word is an error.
pub fn parse_task_status(s: &str) -> (r: Result<TaskStatus, String>)
    ensures
        strict_task_status(lower(s@)) matches Some(t) ==> r == Ok::<TaskStatus, String>(t),
        strict_task_status(lower(s@)) is None ==> (r matches Err(e) && e@ == "Invalid status: "@ + s@),
{
    let k = lower_exec(s);
    if is_word(&k, "todo") || is_word(&k, "to-do") || is_word(&k, "to_do") {
        Ok(TaskStatus::Todo)
    } else if is_word(&k, "in_progress") || is_word(&k, "in-progress") || is_word(&k, "inprogress")
        || is_word(&k, "doing") {
        Ok(TaskStatus::InProgress)
    } else if is_word(&k, "done") || is_word(&k, "completed") || is_word(&k, "complete") {
        Ok(TaskStatus::Done)
    } else if is_word(&k, "blocked") {
        Ok(TaskStatus::Blocked)
    } else if is_word(&k, "cancelled") || is_word(&k, "canceled") {
        Ok(TaskStatus::Cancelled)
    } else {
        Err(message("Invalid status: ", s))
    }
}

pub open spec fn sprint_status_lower(k: Seq<char>) -> Option<SprintStatus> {
    if k == "planning"@ {
        Some(SprintStatus::Planning)
    } else if k == "active"@ {
        Some(SprintStatus::Active)
    } else if k == "completed"@ {
        Some(SprintStatus::Completed)
    } else if k == "cancelled"@ {
        Some(SprintStatus::Cancelled)
    } else {
        None
    }
}

/// A sprint status typed by a user, in any case; an unknown word is an error.
pub fn parse_sprint_status(s: &str) -> (r: Result<SprintStatus, String>)
    ensures
        sprint_status_lower(lower(s@)) matches Some(t) ==> r == Ok::<SprintStatus, String>(t),
        sprint_status_lower(lower(s@)) is None ==> (r matches Err(e) && e@ == "Invalid sprint status: "@ + s@),
{
    let k = lower_exec(s);
    if is_word(&k, "planning") {
        Ok(SprintStatus::Planning)
    } else if is_word(&k, "active") {
        Ok(SprintStatus::Active)
    } else if is_word(&k, "completed") {
        Ok(SprintStatus::Completed)
    } else if is_word(&k, "cancelled") {
        Ok(SprintStatus::Cancelled)
    } else {
        Err(message("Invalid sprint status: ", s))
    }
}

pub open spec fn sprint_status_exact(s: Seq<char>) -> Option<SprintStatus> {
    if s == "Planning"@ {
        Some(SprintStatus::Planning)
    } else if s == "Active"@ {
        Some(SprintStatus::Active)
    } else if s == "Completed"@ {
        Some(SprintStatus::Completed)
    } else if s == "Cancelled"@ {
        Some(SprintStatus::Cancelled)
    } else {
        None
    }
}

/// The name a SprintStatus is shown under.
pub open spec fn sprint_status_name(v: SprintStatus) -> Seq<char> {
    match v {
        SprintStatus::Planning => "Planning"@,
        SprintStatus::Active => "Active"@,
        SprintStatus::Completed => "Completed"@,
        SprintStatus::Cancelled => "Cancelled"@,
    }
}

impl SprintStatus {
    /// The name the value is shown under, such as `"Planning"`.
    pub fn name(&self) -> (r: &'static str)
        ensures
            r@ == sprint_status_name(*self),
    {
        match self {
            SprintStatus::Planning => "Planning",
            SprintStatus::Active => "Active",
            SprintStatus::Completed => "Completed",
            SprintStatus::Cancelled => "Cancelled",
        }
    }
}

impl SprintStatus {
    /// The status whose name is exactly `s` (`"Planning"`, `"Active"`,
    /// `"Completed"` or `"Cancelled"`).
    pub fn from_str(s: &str) -> (r: Result<SprintStatus, String>)
        ensures
            sprint_status_exact(s@) matches Some(t) ==> r == Ok::<SprintStatus, String>(t),
            sprint_status_exact(s@) is None ==> (r matches Err(e) && e@ == "Invalid SprintStatus: "@ + s@),
    {
        let k = chars_of(s);
        if is_word(&k, "Planning") {
            Ok(SprintStatus::Planning)
        } else if is_word(&k, "Active") {
            Ok(SprintStatus::Active)
        } else if is_word(&k, "Completed") {
            Ok(SprintStatus::Completed)
        } else if is_word(&k, "Cancelled") {
            Ok(SprintStatus::Cancelled)
        } else {
            Err(message("Invalid SprintStatus: ", s))
        }
    }
}

pub open spec fn adr_status_lower(k: Seq<char>) -> Option<AdrStatus> {
    if k == "proposed"@ {
        Some(AdrStatus::Proposed)
    } else if k == "accepted"@ {
        Some(AdrStatus::Accepted)
    } else if k == "rejected"@ {
        Some(AdrStatus::Rejected)
    } else if k == "deprecated"@ {
        Some(AdrStatus::Deprecated)
    } else if k == "superseded"@ {
        Some(AdrStatus::Superseded)
    } else {
        None
    }
}

/// The name a AdrStatus is shown under.
pub open spec fn adr_status_name(v: AdrStatus) -> Seq<char> {
    match v {
        AdrStatus::Proposed => "Proposed"@,
        AdrStatus::Accepted => "Accepted"@,
        AdrStatus::Rejected => "Rejected"@,
        AdrStatus::Deprecated => "Deprecated"@,
        AdrStatus::Superseded => "Superseded"@,
    }
}

impl AdrStatus {
    /// The name the value is shown under, such as `"Proposed"`.
    pub fn name(&self) -> (r: &'static str)
        ensures
            r@ == adr_status_name(*self),
    {
        match self {
            AdrStatus::Proposed => "Proposed",
            AdrStatus::Accepted => "Accepted",
            AdrStatus::Rejected => "Rejected",
            AdrStatus::Deprecated => "Deprecated",
            AdrStatus::Superseded => "Superseded",
        }
    }
}

impl AdrStatus {
    /// The status named by `s`, in any case.
    pub fn from_str(s: &str) -> (r: Result<AdrStatus, String>)
        ensures
            adr_status_lower(lower(s@)) matches Some(t) ==> r == Ok::<AdrStatus, String>(t),
            adr_status_lower(lower(s@)) is None ==> (r matches Err(e) && e@ == "Invalid AdrStatus: "@ + s@),
    {
        let k = lower_exec(s);
        if is_word(&k, "proposed") {
            Ok(AdrStatus::Proposed)
        } else if is_word(&k, "accepted") {
            Ok(AdrStatus::Accepted)
        } else if is_word(&k, "rejected") {
            Ok(AdrStatus::Rejected)
        } else if is_word(&k, "deprecated") {
            Ok(AdrStatus::Deprecated)
        } else if is_word(&k, "superseded") {
            Ok(AdrStatus::Superseded)
        } else {
            Err(message("Invalid AdrStatus: ", s))
        }
    }
}

pub open spec fn component_type_lower(k: Seq<char>) -> Option<ComponentType> {
    if k == "module"@ {
        Some(ComponentType::Module)
    } else if k == "service"@ {
        Some(ComponentType::Service)
    } else if k == "library"@ {
        Some(ComponentType::Library)
    } else if k == "database"@ {
        Some(ComponentType::Database)
    } else if k == "api"@ {
        Some(ComponentType::Api)
    } else if k == "other"@ {
        Some(ComponentType::Other)
    } else {
        None
    }
}

/// The name a ComponentType is shown under.
pub open spec fn component_type_name(v: ComponentType) -> Seq<char> {
    match v {
        ComponentType::Module => "Module"@,
        ComponentType::Service => "Service"@,
        ComponentType::Library => "Library"@,
        ComponentType::Database => "Database"@,
        ComponentType::Api => "Api"@,
        ComponentType::Other => "Other"@,
    }
}

impl ComponentType {
    /// The name the value is shown under, such as `"Module"`.
    pub fn name(&self) -> (r: &'static str)
        ensures
            r@ == component_type_name(*self),
    {
        match self {
            ComponentType::Module => "Module",
            ComponentType::Service => "Service",
            ComponentType::Library => "Library",
            ComponentType::Database => "Database",
            ComponentType::Api => "Api",
            ComponentType::Other => "Other",
        }
    }
}

impl ComponentType {
    /// The component type named by `s`, in any case.
    pub fn from_str(s: &str) -> (r: Result<ComponentType, String>)
        ensures
            component_type_lower(lower(s@)) matches Some(t) ==> r == Ok::<ComponentType, String>(t),
            component_type_lower(lower(s@)) is None ==> (r matches Err(e) && e@ == "Invalid ComponentType: "@ + s@),
    {
        let k = lower_exec(s);
        if is_word(&k, "module") {
            Ok(ComponentType::Module)
        } else if is_word(&k, "service") {
            Ok(ComponentType::Service)
        } else if is_word(&k, "library") {
            Ok(ComponentType::Library)
        } else if is_word(&k, "database") {
            Ok(ComponentType::Database)
        } else if is_word(&k, "api") {
            Ok(ComponentType::Api)
        } else if is_word(&k, "other") {
            Ok(ComponentType::Other)
        } else {
            Err(message("Invalid ComponentType: ", s))
        }
    }
}

} // verus!
