//! The typed records that documents are migrated into, and their closed
//! vocabularies. Timestamps are whole seconds since the Unix epoch, in UTC.
use vstd::prelude::*;
use crate::text::{append_str, text_of};
use crate::ids::new_uuid_v4_str;

verus! {

#[derive(Clone, Copy, Debug, PartialEq, Eq, Structural)]
pub enum TaskStatus {
    Todo,
    InProgress,
    Done,
    Blocked,
    Cancelled,
}

#[derive(Clone, Copy, Debug, PartialEq, Eq, Structural)]
pub enum TaskType {
    Bug,
    Feature,
    Task,
    Epic,
    Story,
    Spike,
}

#[derive(Clone, Copy, Debug, PartialEq, Eq, Structural)]
pub enum Priority {
    Low,
    Medium,
    High,
    Critical,
}

#[derive(Clone, Copy, Debug, PartialEq, Eq, Structural)]
pub enum SprintStatus {
    Planning,
    Active,
    Completed,
    Cancelled,
}

#[derive(Clone, Copy, Debug, PartialEq, Eq, Structural)]
pub enum AdrStatus {
    Proposed,
    Accepted,
    Rejected,
    Deprecated,
    Superseded,
}

#[derive(Clone, Copy, Debug, PartialEq, Eq, Structural)]
pub enum ComponentType {
    Module,
    Service,
    Library,
    Database,
    Api,
    Other,
}

#[derive(Clone, Debug)]
pub struct Task {
    pub id: String,
    pub title: String,
    pub description: Option<String>,
    pub status: TaskStatus,
    pub task_type: TaskType,
    pub priority: Priority,
    pub sprint_id: Option<String>,
    pub assignee: Option<String>,
    pub story_points: Option<u8>,
    pub labels: Vec<String>,
    pub dependencies: Vec<String>,
    pub created_at: i64,
    pub updated_at: i64,
    pub created_by: Option<String>,
    pub updated_by: Option<String>,
    pub completed_at: Option<i64>,
}

#[derive(Clone, Debug, Default)]
pub struct Retrospective {
    pub what_went_well: Vec<String>,
    pub what_could_improve: Vec<String>,
    pub action_items: Vec<String>,
    pub notes: Option<String>,
}

#[derive(Clone, Debug)]
pub struct Sprint {
    pub id: String,
    pub name: String,
    pub description: Option<String>,
    pub start_date: i64,
    pub end_date: i64,
    pub goals: Vec<String>,
    pub tasks: Vec<Task>,
    pub status: SprintStatus,
    pub created_at: i64,
    pub updated_at: i64,
    pub retrospective: Option<Retrospective>,
}

/// Progress figures of one sprint.
#[derive(Clone, Debug)]
pub struct SprintReport {
    pub sprint_id: String,
    pub sprint_name: String,
    pub total_tasks: u32,
    pub completed_tasks: u32,
    pub remaining_tasks: u32,
    pub total_story_points: u32,
    pub completed_story_points: u32,
    pub remaining_story_points: u32,
    pub retrospective: Option<Retrospective>,
}

#[derive(Clone, Debug)]
pub struct Adr {
    pub id: String,
    pub title: String,
    pub status: AdrStatus,
    pub context: String,
    pub decision: String,
    pub consequences: String,
    pub alternatives: Vec<String>,
    pub related_adrs: Vec<String>,
    pub created_at: i64,
    pub updated_at: i64,
    pub created_by: Option<String>,
    pub approved_by: Option<String>,
    pub approved_at: Option<i64>,
}

#[derive(Clone, Debug)]
pub struct Component {
    pub id: String,
    pub name: String,
    pub component_type: ComponentType,
    pub description: String,
    pub dependencies: Vec<String>,
    pub interfaces: Vec<String>,
    pub tech_stack: Vec<String>,
    pub owner: Option<String>,
    pub documentation_url: Option<String>,
    pub repository_url: Option<String>,
    pub created_at: i64,
    pub updated_at: i64,
    pub metadata: Vec<(String, String)>,
}

#[derive(Clone, Debug)]
pub struct UserStory {
    pub id: String,
    pub title: String,
    pub persona: String,
    pub want: String,
    pub benefit: String,
    pub description: Option<String>,
    pub acceptance_criteria: Vec<String>,
    pub story_points: Option<u8>,
    pub priority: Priority,
    pub epic_id: Option<String>,
    pub tasks: Vec<String>,
    pub created_at: i64,
    pub updated_at: i64,
}

impl Task {
    /// A new task in the `Todo` status with medium priority and no optional
    /// field set, stamped `now`.
    pub fn new(id: String, title: String, task_type: TaskType, now: i64) -> (r: Task)
        ensures
            r.id@ == id@,
            r.title@ == title@,
            r.task_type == task_type,
            r.status == TaskStatus::Todo,
            r.priority == Priority::Medium,
            r.description is None,
            r.sprint_id is None,
            r.assignee is None,
            r.story_points is None,
            r.labels@.len() == 0,
            r.dependencies@.len() == 0,
            r.created_at == now,
            r.updated_at == now,
            r.created_by is None,
            r.updated_by is None,
            r.completed_at is None,
    {
        Task {
            id,
            title,
            description: None,
            status: TaskStatus::Todo,
            task_type,
            priority: Priority::Medium,
            sprint_id: None,
            assignee: None,
            story_points: None,
            labels: Vec::new(),
            dependencies: Vec::new(),
            created_at: now,
            updated_at: now,
            created_by: None,
            updated_by: None,
            completed_at: None,
        }
    }

    /// Moves the task to `new_status` at time `now`; a task that becomes `Done`
    /// records `now` as its completion time, any other status clears it.
    pub fn set_status(&mut self, new_status: TaskStatus, updated_by: Option<String>, now: i64)
        ensures
            final(self).status == new_status,
            final(self).updated_at == now,
            final(self).updated_by == updated_by,
            new_status == TaskStatus::Done ==> final(self).completed_at == Some(now),
            new_status != TaskStatus::Done ==> final(self).completed_at is None,
            final(self).id == old(self).id,
            final(self).title == old(self).title,
            final(self).description == old(self).description,
            final(self).task_type == old(self).task_type,
            final(self).priority == old(self).priority,
            final(self).sprint_id == old(self).sprint_id,
            final(self).assignee == old(self).assignee,
            final(self).story_points == old(self).story_points,
            final(self).labels == old(self).labels,
            final(self).dependencies == old(self).dependencies,
            final(self).created_at == old(self).created_at,
            final(self).created_by == old(self).created_by,
    {
        self.status = new_status;
        self.updated_at = now;
        self.updated_by = updated_by;
        if self.status == TaskStatus::Done {
            self.completed_at = Some(now);
        } else {
            self.completed_at = None;
        }
    }
}

impl Sprint {
    /// A new sprint in the `Planning` status with a fresh `sprint-<uuid>` id.
    pub fn new(name: String, start_date: i64, end_date: i64, now: i64) -> (r: Sprint)
        ensures
            r.id@.len() == 7 + 36,
            r.id@.subrange(0, 7) == "sprint-"@,
            r.name@ == name@,
            r.start_date == start_date,
            r.end_date == end_date,
            r.status == SprintStatus::Planning,
            r.description is None,
            r.goals@.len() == 0,
            r.tasks@.len() == 0,
            r.created_at == now,
            r.updated_at == now,
            r.retrospective is None,
    {
        let mut id = text_of("sprint-");
        let u = new_uuid_v4_str();
        append_str(&mut id, u.as_str());
        proof {
            reveal_strlit("sprint-");
            assert(id@.subrange(0, 7) =~= "sprint-"@);
        }
        Sprint {
            id,
            name,
            description: None,
            start_date,
            end_date,
            goals: Vec::new(),
            tasks: Vec::new(),
            status: SprintStatus::Planning,
            created_at: now,
            updated_at: now,
            retrospective: None,
        }
    }
}

impl Adr {
    /// A new, `Proposed` decision record with a fresh `adr-<uuid>` id.
    pub fn new(title: String, context: String, decision: String, consequences: String, now: i64) -> (r: Adr)
        ensures
            r.id@.len() == 4 + 36,
            r.id@.subrange(0, 4) == "adr-"@,
            r.title@ == title@,
            r.context@ == context@,
            r.decision@ == decision@,
            r.consequences@ == consequences@,
            r.status == AdrStatus::Proposed,
            r.alternatives@.len() == 0,
            r.related_adrs@.len() == 0,
            r.created_at == now,
            r.updated_at == now,
            r.created_by is None,
            r.approved_by is None,
            r.approved_at is None,
    {
        let mut id = text_of("adr-");
        let u = new_uuid_v4_str();
        append_str(&mut id, u.as_str());
        proof {
            reveal_strlit("adr-");
            assert(id@.subrange(0, 4) =~= "adr-"@);
        }
        Adr {
            id,
            title,
            status: AdrStatus::Proposed,
            context,
            decision,
            consequences,
            alternatives: Vec::new(),
            related_adrs: Vec::new(),
            created_at: now,
            updated_at: now,
            created_by: None,
            approved_by: None,
            approved_at: None,
        }
    }
}

impl Component {
    /// A new component with a fresh `comp-<uuid>` id and no links.
    pub fn new(name: String, component_type: ComponentType, description: String, now: i64) -> (r: Component)
        ensures
            r.id@.len() == 5 + 36,
            r.id@.subrange(0, 5) == "comp-"@,
            r.name@ == name@,
            r.component_type == component_type,
            r.description@ == description@,
            r.dependencies@.len() == 0,
            r.interfaces@.len() == 0,
            r.tech_stack@.len() == 0,
            r.owner is None,
            r.documentation_url is None,
            r.repository_url is None,
            r.created_at == now,
            r.updated_at == now,
            r.metadata@.len() == 0,
    {
        let mut id = text_of("comp-");
        let u = new_uuid_v4_str();
        append_str(&mut id, u.as_str());
        proof {
            reveal_strlit("comp-");
            assert(id@.subrange(0, 5) =~= "comp-"@);
        }
        Component {
            id,
            name,
            component_type,
            description,
            dependencies: Vec::new(),
            interfaces: Vec::new(),
            tech_stack: Vec::new(),
            owner: None,
            documentation_url: None,
            repository_url: None,
            created_at: now,
            updated_at: now,
            metadata: Vec::new(),
        }
    }
}

impl UserStory {
    /// A new story with medium priority and no optional field set.
    pub fn new(id: String, title: String, persona: String, want: String, benefit: String, now: i64) -> (r: UserStory)
        ensures
            r.id@ == id@,
            r.title@ == title@,
            r.persona@ == persona@,
            r.want@ == want@,
            r.benefit@ == benefit@,
            r.description is None,
            r.acceptance_criteria@.len() == 0,
            r.story_points is None,
            r.priority == Priority::Medium,
            r.epic_id is None,
            r.tasks@.len() == 0,
            r.created_at == now,
            r.updated_at == now,
    {
        UserStory {
            id,
            title,
            persona,
            want,
            benefit,
            description: None,
            acceptance_criteria: Vec::new(),
            story_points: None,
            priority: Priority::Medium,
            epic_id: None,
            tasks: Vec::new(),
            created_at: now,
            updated_at: now,
        }
    }
}

pub fn models_init_message() {
}

} // verus!
