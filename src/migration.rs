//! The migration coordinator: counts what each category found and migrated,
//! decides for every record whether it is previewed (dry run) or handed to the
//! store, collects per-record failures without stopping, and renders the
//! final report.
//!
//! The caller walks the categories in the fixed order Tasks, Sprints,
//! UserStories, Components, ADRs, performs each store write that `begin` asks
//! for, and reports its outcome through `persisted`.
use vstd::prelude::*;
use crate::markdown::texts;
use crate::models::{Adr, Component, Sprint, SprintStatus, Task, UserStory};

use crate::text::{append_str, decimal, decimal_exec, text_of};

verus! {

/// Where each category's sources sit under the document root.
pub const TASKS_FILE: &'static str = "agile/tasks.md";
pub const SPRINTS_DIR: &'static str = "agile/sprints";
pub const CURRENT_SPRINT_FILE: &'static str = "sprint-current-plan.md";
pub const SPRINT_ARCHIVE_DIR: &'static str = "archive";
pub const USER_STORIES_FILE: &'static str = "agile/user-stories.md";
pub const COMPONENTS_DIR: &'static str = "components";
pub const ADR_DIR: &'static str = "architecture";

#[derive(Clone, Copy, Debug, PartialEq, Eq, Structural)]
pub enum Category {
    Task,
    Sprint,
    UserStory,
    Component,
    Adr,
}

/// One extracted record, of any category.
#[derive(Clone, Debug)]
pub enum DocumentRecord {
    Task(Task),
    Sprint(Sprint),
    UserStory(UserStory),
    Component(Component),
    Adr(Adr),
}

impl DocumentRecord {
    pub open spec fn category_spec(&self) -> Category {
        match self {
            DocumentRecord::Task(_) => Category::Task,
            DocumentRecord::Sprint(_) => Category::Sprint,
            DocumentRecord::UserStory(_) => Category::UserStory,
            DocumentRecord::Component(_) => Category::Component,
            DocumentRecord::Adr(_) => Category::Adr,
        }
    }

    pub open spec fn id_spec(&self) -> Seq<char> {
        match self {
            DocumentRecord::Task(t) => t.id@,
            DocumentRecord::Sprint(s) => s.id@,
            DocumentRecord::UserStory(u) => u.id@,
            DocumentRecord::Component(c) => c.id@,
            DocumentRecord::Adr(a) => a.id@,
        }
    }

    pub fn category(&self) -> (r: Category)
        ensures
            r == self.category_spec(),
    {
        match self {
            DocumentRecord::Task(_) => Category::Task,
            DocumentRecord::Sprint(_) => Category::Sprint,
            DocumentRecord::UserStory(_) => Category::UserStory,
            DocumentRecord::Component(_) => Category::Component,
            DocumentRecord::Adr(_) => Category::Adr,
        }
    }

    pub fn id(&self) -> (r: &String)
        ensures
            r@ == self.id_spec(),
    {
        match self {
            DocumentRecord::Task(t) => &t.id,
            DocumentRecord::Sprint(s) => &s.id,
            DocumentRecord::UserStory(u) => &u.id,
            DocumentRecord::Component(c) => &c.id,
            DocumentRecord::Adr(a) => &a.id,
        }
    }
}

/// The order in which a migration visits the categories.
pub open spec fn category_order() -> Seq<Category> {
    seq![Category::Task, Category::Sprint, Category::UserStory, Category::Component, Category::Adr]
}

/// The categories in migration order.
pub fn categories_in_order() -> (r: Vec<Category>)
    ensures
        r@ == category_order(),
{
    let r = vec![Category::Task, Category::Sprint, Category::UserStory, Category::Component, Category::Adr];
    assert(r@ =~= category_order());
    r
}

/// The status a sprint file gets from its place: the current plan is
/// `Active`, every archived sprint `Completed`, whatever the file says.
pub fn sprint_status_for(archived: bool) -> (r: SprintStatus)
    ensures
        archived ==> r == SprintStatus::Completed,
        !archived ==> r == SprintStatus::Active,
{
    if archived {
        SprintStatus::Completed
    } else {
        SprintStatus::Active
    }
}

/// The word that names a record of the category in messages.
pub open spec fn kind_word(c: Category) -> Seq<char> {
    match c {
        Category::Task => "task"@,
        Category::Sprint => "sprint"@,
        Category::UserStory => "story"@,
        Category::Component => "component"@,
        Category::Adr => "ADR"@,
    }
}

pub fn kind_word_exec(c: Category) -> (r: &'static str)
    ensures
        r@ == kind_word(c),
{
    match c {
        Category::Task => "task",
        Category::Sprint => "sprint",
        Category::UserStory => "story",
        Category::Component => "component",
        Category::Adr => "ADR",
    }
}

/// Found and migrated counters per category, and the collected errors.
#[derive(Clone, Debug)]
pub struct MigrationStats {
    pub tasks_found: usize,
    pub tasks_migrated: usize,
    pub sprints_found: usize,
    pub sprints_migrated: usize,
    pub components_found: usize,
    pub components_migrated: usize,
    pub adrs_found: usize,
    pub adrs_migrated: usize,
    pub stories_found: usize,
    pub stories_migrated: usize,
    pub errors: Vec<String>,
}

/// Counters of one category: records found, records migrated.
pub type Counts = (nat, nat);

impl MigrationStats {
    pub open spec fn counts(&self, c: Category) -> Counts {
        match c {
            Category::Task => (self.tasks_found as nat, self.tasks_migrated as nat),
            Category::Sprint => (self.sprints_found as nat, self.sprints_migrated as nat),
            Category::UserStory => (self.stories_found as nat, self.stories_migrated as nat),
            Category::Component => (self.components_found as nat, self.components_migrated as nat),
            Category::Adr => (self.adrs_found as nat, self.adrs_migrated as nat),
        }
    }

    pub open spec fn error_texts(&self) -> Seq<Seq<char>> {
        texts(self.errors@)
    }

    pub open spec fn model(&self) -> StatsModel {
        StatsModel {
            task: self.counts(Category::Task),
            sprint: self.counts(Category::Sprint),
            story: self.counts(Category::UserStory),
            component: self.counts(Category::Component),
            adr: self.counts(Category::Adr),
            errors: self.error_texts(),
        }
    }

    /// Room to count one more record of the category.
    pub open spec fn has_room(&self, c: Category) -> bool {
        self.counts(c).0 < usize::MAX && self.counts(c).1 < usize::MAX
    }

    /// Nothing counted and no error.
    pub fn new() -> (r: MigrationStats)
        ensures
            forall|c: Category| #[trigger] r.counts(c) == (0nat, 0nat),
            r.errors@.len() == 0,
    {
        MigrationStats {
            tasks_found: 0,
            tasks_migrated: 0,
            sprints_found: 0,
            sprints_migrated: 0,
            components_found: 0,
            components_migrated: 0,
            adrs_found: 0,
            adrs_migrated: 0,
            stories_found: 0,
            stories_migrated: 0,
            errors: Vec::new(),
        }
    }

    pub fn found(&self, c: Category) -> (r: usize)
        ensures
            r == self.counts(c).0,
    {
        match c {
            Category::Task => self.tasks_found,
            Category::Sprint => self.sprints_found,
            Category::UserStory => self.stories_found,
            Category::Component => self.components_found,
            Category::Adr => self.adrs_found,
        }
    }

    pub fn migrated(&self, c: Category) -> (r: usize)
        ensures
            r == self.counts(c).1,
    {
        match c {
            Category::Task => self.tasks_migrated,
            Category::Sprint => self.sprints_migrated,
            Category::UserStory => self.stories_migrated,
            Category::Component => self.components_migrated,
            Category::Adr => self.adrs_migrated,
        }
    }

    /// Counts one more record found in category `c`.
    pub fn count_found(&mut self, c: Category)
        requires
            old(self).counts(c).0 < usize::MAX,
        ensures
            final(self).counts(c) == after_found(old(self).counts(c)),
            forall|d: Category| d != c ==> #[trigger] final(self).counts(d) == old(self).counts(d),
            final(self).errors@ == old(self).errors@,
    {
        match c {
            Category::Task => self.tasks_found = self.tasks_found + 1,
            Category::Sprint => self.sprints_found = self.sprints_found + 1,
            Category::UserStory => self.stories_found = self.stories_found + 1,
            Category::Component => self.components_found = self.components_found + 1,
            Category::Adr => self.adrs_found = self.adrs_found + 1,
        }
    }

    /// Counts one more record migrated in category `c`.
    pub fn count_migrated(&mut self, c: Category)
        requires
            old(self).counts(c).1 < usize::MAX,
        ensures
            final(self).counts(c) == after_migrated(old(self).counts(c)),
            forall|d: Category| d != c ==> #[trigger] final(self).counts(d) == old(self).counts(d),
            final(self).errors@ == old(self).errors@,
    {
        match c {
            Category::Task => self.tasks_migrated = self.tasks_migrated + 1,
            Category::Sprint => self.sprints_migrated = self.sprints_migrated + 1,
            Category::UserStory => self.stories_migrated = self.stories_migrated + 1,
            Category::Component => self.components_migrated = self.components_migrated + 1,
            Category::Adr => self.adrs_migrated = self.adrs_migrated + 1,
        }
    }

    /// Records an error message.
    pub fn add_error(&mut self, message: String)
        ensures
            forall|d: Category| #[trigger] final(self).counts(d) == old(self).counts(d),
            final(self).error_texts() == old(self).error_texts().push(message@),
    {
        let ghost before = self.errors@;
        self.errors.push(message);
        assert(texts(self.errors@) =~= texts(before).push(message@));
    }
}

impl Default for MigrationStats {
    fn default() -> (r: MigrationStats)
        ensures
            forall|c: Category| #[trigger] r.counts(c) == (0nat, 0nat),
            r.errors@.len() == 0,
    {
        MigrationStats::new()
    }
}

pub open spec fn after_found(p: Counts) -> Counts {
    (p.0 + 1, p.1)
}

pub open spec fn after_migrated(p: Counts) -> Counts {
    (p.0, p.1 + 1)
}

/// The counters of a category after one record: it is found, and it is
/// migrated when the run is a dry run or the store accepted it.
pub open spec fn after_record(p: Counts, dry_run: bool, accepted: bool) -> Counts {
    if dry_run || accepted {
        after_migrated(after_found(p))
    } else {
        after_found(p)
    }
}

/// The counters of a category after records were handed over one by one;
/// `accepted[i]` tells whether the store took the `i`-th record.
pub open spec fn tally(p: Counts, dry_run: bool, accepted: Seq<bool>) -> Counts
    decreases accepted.len(),
{
    if accepted.len() == 0 {
        p
    } else {
        after_record(tally(p, dry_run, accepted.drop_last()), dry_run, accepted.last())
    }
}

/// How many records the store accepted.
pub open spec fn count_accepted(accepted: Seq<bool>) -> nat
    decreases accepted.len(),
{
    if accepted.len() == 0 {
        0
    } else {
        count_accepted(accepted.drop_last()) + if accepted.last() {
            1nat
        } else {
            0nat
        }
    }
}

/// The statistics as mathematical values: the counters of each category and
/// the collected error messages.
pub struct StatsModel {
    pub task: Counts,
    pub sprint: Counts,
    pub story: Counts,
    pub component: Counts,
    pub adr: Counts,
    pub errors: Seq<Seq<char>>,
}

impl StatsModel {
    pub open spec fn counts(self, c: Category) -> Counts {
        match c {
            Category::Task => self.task,
            Category::Sprint => self.sprint,
            Category::UserStory => self.story,
            Category::Component => self.component,
            Category::Adr => self.adr,
        }
    }

    pub open spec fn with_counts(self, c: Category, p: Counts) -> StatsModel {
        match c {
            Category::Task => StatsModel { task: p, ..self },
            Category::Sprint => StatsModel { sprint: p, ..self },
            Category::UserStory => StatsModel { story: p, ..self },
            Category::Component => StatsModel { component: p, ..self },
            Category::Adr => StatsModel { adr: p, ..self },
        }
    }
}

/// The store's answer for one record, as a value: `Err` holds the cause.
pub open spec fn outcome_view(o: Result<(), String>) -> Result<(), Seq<char>> {
    match o {
        Ok(()) => Ok(()),
        Err(e) => Err(e@),
    }
}

/// A record counted as found.
pub open spec fn found_step(m: StatsModel, c: Category) -> StatsModel {
    m.with_counts(c, after_found(m.counts(c)))
}

/// A found record settled: migrated in a dry run or when the store accepted
/// it, else one error naming it and the cause.
pub open spec fn settle_step(
    m: StatsModel,
    r: DocumentRecord,
    dry_run: bool,
    outcome: Result<(), Seq<char>>,
) -> StatsModel {
    match outcome {
        Err(e) if !dry_run => StatsModel { errors: m.errors.push(store_failure(r, e)), ..m },
        _ => m.with_counts(r.category_spec(), after_migrated(m.counts(r.category_spec()))),
    }
}

/// One record handed over: found, then settled.
pub open spec fn record_step(
    m: StatsModel,
    dry_run: bool,
    r: DocumentRecord,
    outcome: Result<(), Seq<char>>,
) -> StatsModel {
    settle_step(found_step(m, r.category_spec()), r, dry_run, outcome)
}

/// The statistics after the records were handed over in order, the `i`-th
/// with the store's answer `outcomes[i]`.
pub open spec fn replay(
    m: StatsModel,
    dry_run: bool,
    records: Seq<DocumentRecord>,
    outcomes: Seq<Result<(), Seq<char>>>,
) -> StatsModel
    decreases records.len(),
{
    if records.len() == 0 || outcomes.len() == 0 {
        m
    } else {
        record_step(
            replay(m, dry_run, records.drop_last(), outcomes.drop_last()),
            dry_run,
            records.last(),
            outcomes.last(),
        )
    }
}

/// What the coordinator asks for one record.
#[derive(Debug)]
pub enum Step {
    /// Dry run: show this line instead of writing.
    Preview(String),
    /// Write the record through the store, then report the outcome.
    Persist,
}

/// The line shown for a record in a dry run.
pub open spec fn preview_line(r: DocumentRecord) -> Seq<char> {
    match r {
        DocumentRecord::Task(t) => "  Would create task: "@ + t.id@ + " - "@ + t.title@,
        DocumentRecord::Sprint(s) => "  Would create sprint: "@ + s.id@,
        DocumentRecord::UserStory(u) => "  Would create story: "@ + u.id@ + " - "@ + u.title@,
        DocumentRecord::Component(c) => "  Would create component: "@ + c.id@,
        DocumentRecord::Adr(a) => "  Would create ADR: "@ + a.id@ + " - "@ + a.title@,
    }
}

/// The error collected when the store refuses a record.
pub open spec fn store_failure(r: DocumentRecord, cause: Seq<char>) -> Seq<char> {
    "Failed to create "@ + kind_word(r.category_spec()) + " "@ + r.id_spec() + ": "@ + cause
}

/// The error collected when a source cannot give a record.
pub open spec fn extraction_failure(c: Category, source: Seq<char>, cause: Seq<char>) -> Seq<char> {
    "Failed to parse "@ + kind_word(c) + " "@ + source + ": "@ + cause
}

/// One migration invocation: the dry-run flag and the statistics.
#[derive(Clone, Debug)]
pub struct MigrationRun {
    pub dry_run: bool,
    pub stats: MigrationStats,
}

impl MigrationRun {
    pub fn new(dry_run: bool) -> (r: MigrationRun)
        ensures
            r.dry_run == dry_run,
            forall|c: Category| #[trigger] r.stats.counts(c) == (0nat, 0nat),
            r.stats.errors@.len() == 0,
    {
        MigrationRun { dry_run, stats: MigrationStats::new() }
    }

    /// Takes one extracted record: counts it as found and, in a dry run,
    /// as migrated with a preview line; otherwise asks for a store write.
    pub fn begin(&mut self, record: &DocumentRecord) -> (r: Step)
        requires
            old(self).stats.has_room(record.category_spec()),
        ensures
            final(self).dry_run == old(self).dry_run,
            old(self).dry_run ==> final(self).stats.counts(record.category_spec()) == after_migrated(
                after_found(old(self).stats.counts(record.category_spec())),
            ),
            !old(self).dry_run ==> final(self).stats.counts(record.category_spec()) == after_found(
                old(self).stats.counts(record.category_spec()),
            ),
            forall|d: Category|
                d != record.category_spec() ==> #[trigger] final(self).stats.counts(d) == old(
                    self,
                ).stats.counts(d),
            final(self).stats.errors@ == old(self).stats.errors@,
            old(self).dry_run ==> (r matches Step::Preview(line) && line@ == preview_line(*record)),
            !old(self).dry_run ==> r is Persist,
            old(self).dry_run ==> final(self).stats.model() == record_step(
                old(self).stats.model(),
                true,
                *record,
                Ok(()),
            ),
            !old(self).dry_run ==> final(self).stats.model() == found_step(
                old(self).stats.model(),
                record.category_spec(),
            ),
    {
        let c = record.category();
        self.stats.count_found(c);
        if self.dry_run {
            self.stats.count_migrated(c);
            Step::Preview(preview_line_exec(record))
        } else {
            Step::Persist
        }
    }

    /// Takes the store's answer for a record that `begin` asked to write: an
    /// accepted record counts as migrated, a refused one adds an error.
    pub fn persisted(&mut self, record: &DocumentRecord, outcome: Result<(), String>)
        requires
            !old(self).dry_run,
            old(self).stats.counts(record.category_spec()).1 < usize::MAX,
        ensures
            final(self).dry_run == old(self).dry_run,
            outcome is Ok ==> final(self).stats.counts(record.category_spec()) == after_migrated(
                old(self).stats.counts(record.category_spec()),
            ),
            outcome is Ok ==> final(self).stats.error_texts() == old(self).stats.error_texts(),
            outcome is Err ==> final(self).stats.counts(record.category_spec()) == old(
                self,
            ).stats.counts(record.category_spec()),
            outcome matches Err(e) ==> final(self).stats.error_texts() == old(
                self,
            ).stats.error_texts().push(store_failure(*record, e@)),
            forall|d: Category|
                d != record.category_spec() ==> #[trigger] final(self).stats.counts(d) == old(
                    self,
                ).stats.counts(d),
            final(self).stats.model() == settle_step(
                old(self).stats.model(),
                *record,
                false,
                outcome_view(outcome),
            ),
    {
        match outcome {
            Ok(()) => {
                self.stats.count_migrated(record.category());
            },
            Err(e) => {
                let mut m = text_of("Failed to create ");
                append_str(&mut m, kind_word_exec(record.category()));
                append_str(&mut m, " ");
                append_str(&mut m, record.id().as_str());
                append_str(&mut m, ": ");
                append_str(&mut m, e.as_str());
                self.stats.add_error(m);
            },
        }
    }

    /// A source of category `c` that cannot give a record: it counts as found
    /// and adds an error naming the source and the cause.
    pub fn extraction_failed(&mut self, c: Category, source: &str, cause: &str)
        requires
            old(self).stats.counts(c).0 < usize::MAX,
        ensures
            final(self).dry_run == old(self).dry_run,
            final(self).stats.counts(c) == after_found(old(self).stats.counts(c)),
            forall|d: Category| d != c ==> #[trigger] final(self).stats.counts(d) == old(self).stats.counts(d),
            final(self).stats.error_texts() == old(self).stats.error_texts().push(
                extraction_failure(c, source@, cause@),
            ),
    {
        self.stats.count_found(c);
        let mut m = text_of("Failed to parse ");
        append_str(&mut m, kind_word_exec(c));
        append_str(&mut m, " ");
        append_str(&mut m, source);
        append_str(&mut m, ": ");
        append_str(&mut m, cause);
        self.stats.add_error(m);
    }

    /// The final report of the run.
    pub fn report(&self) -> (r: String)
        ensures
            r@ == report_text(self.stats, self.dry_run),
    {
        let s = &self.stats;
        let mut out = text_of("\nMigration Report\n");
        append_str(&mut out, "==================================================\n");
        count_line(&mut out, "Tasks: ", s.tasks_found, s.tasks_migrated);
        count_line(&mut out, "Sprints: ", s.sprints_found, s.sprints_migrated);
        count_line(&mut out, "Stories: ", s.stories_found, s.stories_migrated);
        count_line(&mut out, "Components: ", s.components_found, s.components_migrated);
        count_line(&mut out, "ADRs: ", s.adrs_found, s.adrs_migrated);
        if s.errors.len() > 0 {
            append_str(&mut out, "\nErrors encountered:\n");
            let mut i: usize = 0;
            let ghost base = out@;
            while i < s.errors.len()
                invariant
                    i <= s.errors.len(),
                    out@ == base + error_lines(texts(s.errors@).take(i as int)),
                decreases s.errors.len() - i,
            {
                let ghost prev = out@;
                append_str(&mut out, "  - ");
                append_str(&mut out, s.errors[i].as_str());
                append_str(&mut out, "\n");
                assert(texts(s.errors@).take(i + 1).drop_last() =~= texts(s.errors@).take(i as int));
                assert(out@ =~= base + error_lines(texts(s.errors@).take(i + 1)));
                i = i + 1;
            }
            assert(texts(s.errors@).take(s.errors.len() as int) =~= texts(s.errors@));
        }
        let found = s.tasks_found as u128 + s.sprints_found as u128 + s.stories_found as u128
            + s.components_found as u128 + s.adrs_found as u128;
        let migrated = s.tasks_migrated as u128 + s.sprints_migrated as u128
            + s.stories_migrated as u128 + s.components_migrated as u128 + s.adrs_migrated as u128;
        append_str(&mut out, "\nTotal: ");
        append_str(&mut out, decimal_exec(found).as_str());
        append_str(&mut out, " documents found, ");
        append_str(&mut out, decimal_exec(migrated).as_str());
        append_str(&mut out, " migrated successfully\n");
        if self.dry_run {
            append_str(&mut out, "\nThis was a DRY RUN - no changes were made\n");
            append_str(&mut out, "   Run without --dry-run to perform the actual migration\n");
        }
        out
    }
}

/// `Label found, migrated` line of the report.
pub open spec fn counts_text(label: Seq<char>, found: nat, migrated: nat) -> Seq<char> {
    label + decimal(found) + " found, "@ + decimal(migrated) + " migrated\n"@
}

pub open spec fn error_lines(es: Seq<Seq<char>>) -> Seq<char>
    decreases es.len(),
{
    if es.len() == 0 {
        Seq::<char>::empty()
    } else {
        error_lines(es.drop_last()) + "  - "@ + es.last() + "\n"@
    }
}

pub open spec fn total_found(s: MigrationStats) -> nat {
    s.counts(Category::Task).0 + s.counts(Category::Sprint).0 + s.counts(Category::UserStory).0
        + s.counts(Category::Component).0 + s.counts(Category::Adr).0
}

pub open spec fn total_migrated(s: MigrationStats) -> nat {
    s.counts(Category::Task).1 + s.counts(Category::Sprint).1 + s.counts(Category::UserStory).1
        + s.counts(Category::Component).1 + s.counts(Category::Adr).1
}

/// The report: found and migrated per category, the collected errors if
/// any, the totals, and a closing note for a dry run.
pub open spec fn report_text(s: MigrationStats, dry_run: bool) -> Seq<char> {
    "\nMigration Report\n"@ + "==================================================\n"@
        + counts_text("Tasks: "@, s.counts(Category::Task).0, s.counts(Category::Task).1)
        + counts_text("Sprints: "@, s.counts(Category::Sprint).0, s.counts(Category::Sprint).1)
        + counts_text("Stories: "@, s.counts(Category::UserStory).0, s.counts(Category::UserStory).1)
        + counts_text("Components: "@, s.counts(Category::Component).0, s.counts(Category::Component).1)
        + counts_text("ADRs: "@, s.counts(Category::Adr).0, s.counts(Category::Adr).1) + (if s.errors@.len() > 0 {
        "\nErrors encountered:\n"@ + error_lines(texts(s.errors@))
    } else {
        Seq::<char>::empty()
    }) + "\nTotal: "@ + decimal(total_found(s)) + " documents found, "@ + decimal(total_migrated(s))
        + " migrated successfully\n"@ + (if dry_run {
        "\nThis was a DRY RUN - no changes were made\n"@
            + "   Run without --dry-run to perform the actual migration\n"@
    } else {
        Seq::<char>::empty()
    })
}

fn count_line(out: &mut String, label: &str, found: usize, migrated: usize)
    ensures
        final(out)@ == old(out)@ + counts_text(label@, found as nat, migrated as nat),
{
    append_str(out, label);
    append_str(out, decimal_exec(found as u128).as_str());
    append_str(out, " found, ");
    append_str(out, decimal_exec(migrated as u128).as_str());
    append_str(out, " migrated\n");
}

fn preview_line_exec(record: &DocumentRecord) -> (r: String)
    ensures
        r@ == preview_line(*record),
{
    match record {
        DocumentRecord::Task(t) => {
            let mut m = text_of("  Would create task: ");
            append_str(&mut m, t.id.as_str());
            append_str(&mut m, " - ");
            append_str(&mut m, t.title.as_str());
            m
        },
        DocumentRecord::Sprint(s) => {
            let mut m = text_of("  Would create sprint: ");
            append_str(&mut m, s.id.as_str());
            m
        },
        DocumentRecord::UserStory(u) => {
            let mut m = text_of("  Would create story: ");
            append_str(&mut m, u.id.as_str());
            append_str(&mut m, " - ");
            append_str(&mut m, u.title.as_str());
            m
        },
        DocumentRecord::Component(c) => {
            let mut m = text_of("  Would create component: ");
            append_str(&mut m, c.id.as_str());
            m
        },
        DocumentRecord::Adr(a) => {
            let mut m = text_of("  Would create ADR: ");
            append_str(&mut m, a.id.as_str());
            append_str(&mut m, " - ");
            append_str(&mut m, a.title.as_str());
            m
        },
    }
}

} // verus!
