//! Properties that relate several functions of the library, proved over the
//! same spec functions that their contracts use.
use vstd::prelude::*;
use crate::markdown::{
    bullet_content, find_heading, hash_run, heading_title, is_heading, is_titled, items_of_lines,
    list_items, section, section_end,
};
use crate::migration::{
    count_accepted, replay, store_failure, tally, Counts, DocumentRecord, StatsModel,
};
use crate::tasks::{is_task_heading, task_spans, task_spans_upto};
use crate::text::{ascii_lower, join_lines, lines, trim};
use crate::models::{TaskStatus, TaskType};
use crate::vocab::{fold_words, is_separator, task_status_for, task_type_for, vocab_key};

verus! {

/// The number of well-formed task headings among the lines.
pub open spec fn task_heading_count(ls: Seq<Seq<char>>) -> nat
    decreases ls.len(),
{
    if ls.len() == 0 {
        0
    } else {
        task_heading_count(ls.drop_last()) + if is_task_heading(ls.last()) {
            1nat
        } else {
            0nat
        }
    }
}

proof fn lemma_spans_match_headings(ls: Seq<Seq<char>>, n: int)
    requires
        0 <= n <= ls.len(),
    ensures
        task_spans_upto(ls, n).len() == task_heading_count(ls.take(n)),
    decreases n,
{
    if n > 0 {
        lemma_spans_match_headings(ls, n - 1);
        assert(ls.take(n).drop_last() =~= ls.take(n - 1));
        assert(ls.take(n).last() == ls[n - 1]);
    } else {
        assert(ls.take(0) =~= Seq::<Seq<char>>::empty());
    }
}

/// Every well-formed task heading of a document gives exactly one task.
pub proof fn law_one_task_per_heading(content: Seq<char>)
    ensures
        task_spans(lines(content)).len() == task_heading_count(lines(content)),
{
    let ls = lines(content);
    lemma_spans_match_headings(ls, ls.len() as int);
    assert(ls.take(ls.len() as int) =~= ls);
}

proof fn lemma_tally_found(p: Counts, dry_run: bool, accepted: Seq<bool>)
    ensures
        tally(p, dry_run, accepted).0 == p.0 + accepted.len(),
        dry_run ==> tally(p, dry_run, accepted).1 == p.1 + accepted.len(),
        !dry_run ==> tally(p, dry_run, accepted).1 == p.1 + count_accepted(accepted),
    decreases accepted.len(),
{
    if accepted.len() > 0 {
        lemma_tally_found(p, dry_run, accepted.drop_last());
    }
}

proof fn lemma_count_accepted(accepted: Seq<bool>)
    ensures
        count_accepted(accepted) <= accepted.len(),
        (forall|i: int| 0 <= i < accepted.len() ==> accepted[i]) ==> count_accepted(accepted)
            == accepted.len(),
        (exists|i: int| 0 <= i < accepted.len() && !accepted[i]) ==> count_accepted(accepted)
            < accepted.len(),
    decreases accepted.len(),
{
    if accepted.len() > 0 {
        let init = accepted.drop_last();
        lemma_count_accepted(init);
        if forall|i: int| 0 <= i < accepted.len() ==> accepted[i] {
            assert forall|i: int| 0 <= i < init.len() implies init[i] by {
                assert(init[i] == accepted[i]);
            }
        }
        if exists|i: int| 0 <= i < accepted.len() && !accepted[i] {
            let i = choose|i: int| 0 <= i < accepted.len() && !accepted[i];
            if i < init.len() {
                assert(!init[i]);
            }
        }
    }
}

/// A migration of a document with `N` well-formed task headings, with the
/// store answering `accepted[i]` for the `i`-th task: the run finds `N`
/// tasks and migrates those the store accepted, so all `N` when it accepts
/// every write and fewer than `N` when it refuses any.
pub proof fn law_task_migration_counts(content: Seq<char>, accepted: Seq<bool>)
    requires
        accepted.len() == task_heading_count(lines(content)),
    ensures
        task_spans(lines(content)).len() == accepted.len(),
        tally((0nat, 0nat), false, accepted).0 == task_heading_count(lines(content)),
        tally((0nat, 0nat), false, accepted).1 == count_accepted(accepted),
        (forall|i: int| 0 <= i < accepted.len() ==> accepted[i]) ==> tally(
            (0nat, 0nat),
            false,
            accepted,
        ).1 == task_heading_count(lines(content)),
        (exists|i: int| 0 <= i < accepted.len() && !accepted[i]) ==> tally(
            (0nat, 0nat),
            false,
            accepted,
        ).1 < task_heading_count(lines(content)),
{
    law_one_task_per_heading(content);
    lemma_tally_found((0nat, 0nat), false, accepted);
    lemma_count_accepted(accepted);
}

/// A dry run counts every record as found and as migrated, whatever a store
/// would have answered.
pub proof fn law_dry_run_counts(p: Counts, accepted: Seq<bool>, other: Seq<bool>)
    requires
        accepted.len() == other.len(),
    ensures
        tally(p, true, accepted) == (p.0 + accepted.len(), p.1 + accepted.len()),
        tally(p, true, accepted) == tally(p, true, other),
{
    lemma_tally_found(p, true, accepted);
    lemma_tally_found(p, true, other);
}

/// A line that is not a heading.
pub open spec fn is_plain_line(l: Seq<char>) -> bool {
    !is_heading(l)
}

proof fn lemma_find_heading_skip(ls: Seq<Seq<char>>, name: Seq<char>, k: int, target: int)
    requires
        0 <= k <= target < ls.len(),
        is_titled(ls[target], name),
        forall|j: int| k <= j < target ==> !is_titled(#[trigger] ls[j], name),
    ensures
        find_heading(ls, name, k) == Some(target),
    decreases target - k,
{
    if k < target {
        lemma_find_heading_skip(ls, name, k + 1, target);
    }
}

proof fn lemma_section_end_skip(ls: Seq<Seq<char>>, depth: nat, j: int, target: int)
    requires
        0 <= j <= target <= ls.len(),
        target < ls.len() ==> is_heading(ls[target]) && hash_run(ls[target]) <= depth,
        forall|i: int| j <= i < target ==> !is_heading(#[trigger] ls[i]),
    ensures
        section_end(ls, depth, j) == target,
    decreases target - j,
{
    if j < target {
        lemma_section_end_skip(ls, depth, j + 1, target);
    }
}

/// A document made of a `## Context` heading, its body lines, a
/// `## Decision` heading and its body lines, where no body line is a heading:
/// each section gives back exactly its own body, trimmed, whatever the body
/// lines say outside a heading.
pub proof fn law_sections_round_trip(
    text: Seq<char>,
    h1: Seq<char>,
    body1: Seq<Seq<char>>,
    h2: Seq<char>,
    body2: Seq<Seq<char>>,
)
    requires
        h1 == "## Context"@,
        h2 == "## Decision"@,
        forall|i: int| 0 <= i < body1.len() ==> is_plain_line(#[trigger] body1[i]),
        forall|i: int| 0 <= i < body2.len() ==> is_plain_line(#[trigger] body2[i]),
        lines(text) == seq![h1] + body1 + seq![h2] + body2,
    ensures
        section(text, "Context"@) == Some(trim(join_lines(body1))),
        section(text, "Decision"@) == Some(trim(join_lines(body2))),
{
    let ls = lines(text);
    let n1 = body1.len() as int;
    let n2 = body2.len() as int;
    reveal_strlit("## Context");
    reveal_strlit("## Decision");
    reveal_strlit("Context");
    reveal_strlit("Decision");
    assert(ls[0] == h1);
    assert(ls[n1 + 1] == h2);
    assert forall|i: int| 0 <= i < n1 implies ls[1 + i] == body1[i] by {}
    assert forall|i: int| 0 <= i < n2 implies ls[n1 + 2 + i] == body2[i] by {}
    assert(h1.subrange(3, 10) =~= "Context"@);
    assert(h2.subrange(3, 11) =~= "Decision"@);
    lemma_heading_facts(h1, 10, "Context"@);
    lemma_heading_facts(h2, 11, "Decision"@);
    // Context
    lemma_find_heading_skip(ls, "Context"@, 0, 0);
    assert forall|i: int| 1 <= i < n1 + 1 implies !is_heading(#[trigger] ls[i]) by {
        assert(ls[i] == body1[i - 1]);
    }
    lemma_section_end_skip(ls, 2, 1, n1 + 1);
    assert(ls.subrange(1, n1 + 1) =~= body1);
    // Decision
    assert forall|j: int| 0 <= j < n1 + 1 implies !is_titled(#[trigger] ls[j], "Decision"@) by {
        if j == 0 {
            assert(heading_title(ls[0]) == "Context"@);
            assert("Context"@ != "Decision"@) by {
                assert("Context"@.len() != "Decision"@.len());
            }
        } else {
            assert(ls[j] == body1[j - 1]);
        }
    }
    lemma_find_heading_skip(ls, "Decision"@, 0, n1 + 1);
    assert forall|i: int| n1 + 2 <= i < ls.len() implies !is_heading(#[trigger] ls[i]) by {
        assert(ls[i] == body2[i - n1 - 2]);
    }
    lemma_section_end_skip(ls, 2, n1 + 2, ls.len() as int);
    assert(ls.subrange(n1 + 2, ls.len() as int) =~= body2);
}

proof fn lemma_heading_facts(h: Seq<char>, n: int, name: Seq<char>)
    requires
        h.len() == n,
        n >= 3,
        h[0] == '#',
        h[1] == '#',
        h[2] == ' ',
        h.subrange(3, n) == name,
        name.len() > 0,
        !crate::text::is_space(name[0]),
        !crate::text::is_space(name.last()),
    ensures
        hash_run(h) == 2,
        is_titled(h, name),
{
    let d1 = h.drop_first();
    let d2 = d1.drop_first();
    assert(d1[0] == '#');
    assert(d2[0] == ' ');
    assert(hash_run(d2) == 0);
    assert(hash_run(d1) == 1 + hash_run(d2));
    assert(hash_run(h) == 1 + hash_run(d1));
    let rest = h.skip(2);
    assert(rest.drop_first() =~= name);
    assert(crate::text::trim_start(rest) == crate::text::trim_start(name));
    assert(crate::text::trim_start(name) == name);
    assert(crate::text::trim_end(name) == name);
}

/// Every list item is non-empty and is what some line of the body holds
/// after its bullet marker.
pub proof fn law_list_items_from_bullets(body: Seq<char>)
    ensures
        forall|i: int|
            0 <= i < list_items(body).len() ==> (#[trigger] list_items(body)[i]).len() > 0 && exists|
                k: int,
            |
                0 <= k < lines(body).len() && bullet_content(lines(body)[k]) == Some(
                    list_items(body)[i],
                ),
{
    lemma_items_from_bullets(lines(body));
}

proof fn lemma_items_from_bullets(ls: Seq<Seq<char>>)
    ensures
        forall|i: int|
            0 <= i < items_of_lines(ls).len() ==> (#[trigger] items_of_lines(ls)[i]).len() > 0
                && exists|k: int|
                0 <= k < ls.len() && bullet_content(ls[k]) == Some(items_of_lines(ls)[i]),
    decreases ls.len(),
{
    if ls.len() > 0 {
        let init = ls.drop_last();
        lemma_items_from_bullets(init);
        let r = items_of_lines(init);
        assert forall|i: int| 0 <= i < items_of_lines(ls).len() implies (
        #[trigger] items_of_lines(ls)[i]).len() > 0 && exists|k: int|
            0 <= k < ls.len() && bullet_content(ls[k]) == Some(items_of_lines(ls)[i]) by {
            if i < r.len() {
                assert(items_of_lines(ls)[i] == r[i]);
                let k = choose|k: int| 0 <= k < init.len() && bullet_content(init[k]) == Some(r[i]);
                assert(ls[k] == init[k]);
            } else {
                assert(bullet_content(ls[ls.len() - 1]) == Some(items_of_lines(ls)[i]));
            }
        }
    }
}

/// Two spellings that differ only in ASCII case and in which separator
/// (`-`, `_` or whitespace) stands between words give the same lookup key.
pub proof fn law_key_ignores_case_and_separators(a: Seq<char>, b: Seq<char>)
    requires
        a.len() == b.len(),
        forall|i: int|
            0 <= i < a.len() ==> (is_separator(#[trigger] a[i]) && is_separator(b[i])) || (
            !is_separator(a[i]) && !is_separator(b[i]) && ascii_lower(a[i]) == ascii_lower(b[i])),
    ensures
        vocab_key(a) == vocab_key(b),
    decreases a.len(),
{
    lemma_fold_words_equal(a, b);
}

proof fn lemma_fold_words_equal(a: Seq<char>, b: Seq<char>)
    requires
        a.len() == b.len(),
        forall|i: int|
            0 <= i < a.len() ==> (is_separator(#[trigger] a[i]) && is_separator(b[i])) || (
            !is_separator(a[i]) && !is_separator(b[i]) && ascii_lower(a[i]) == ascii_lower(b[i])),
    ensures
        fold_words(a) == fold_words(b),
    decreases a.len(),
{
    if a.len() > 0 {
        let a0 = a.drop_last();
        let b0 = b.drop_last();
        assert forall|i: int| 0 <= i < a0.len() implies (is_separator(#[trigger] a0[i])
            && is_separator(b0[i])) || (!is_separator(a0[i]) && !is_separator(b0[i])
            && ascii_lower(a0[i]) == ascii_lower(b0[i])) by {
            assert(a0[i] == a[i]);
            assert(b0[i] == b[i]);
        }
        lemma_fold_words_equal(a0, b0);
        assert(a.last() == a[a.len() - 1]);
    }
}

/// The words the status vocabulary knows, as lookup keys.
pub open spec fn known_status_key(k: Seq<char>) -> bool {
    k == "todo"@ || k == "to do"@ || k == "in progress"@ || k == "doing"@ || k == "done"@ || k
        == "completed"@ || k == "complete"@ || k == "blocked"@ || k == "cancelled"@
}

/// A status outside the vocabulary is never an error: it normalizes to
/// `Todo`.
pub proof fn law_unknown_status_is_todo(raw: Seq<char>)
    requires
        !known_status_key(vocab_key(raw)),
    ensures
        task_status_for(vocab_key(raw)) == TaskStatus::Todo,
{
}

/// The words the type vocabulary knows, as lookup keys.
pub open spec fn known_type_key(k: Seq<char>) -> bool {
    k == "feature"@ || k == "bug"@ || k == "bugfix"@ || k == "fix"@ || k == "task"@ || k
        == "epic"@ || k == "story"@ || k == "user story"@ || k == "userstory"@ || k == "spike"@
        || k == "research"@
}

/// A task type outside the vocabulary normalizes to `Task`.
pub proof fn law_unknown_type_is_task(raw: Seq<char>)
    requires
        !known_type_key(vocab_key(raw)),
    ensures
        task_type_for(vocab_key(raw)) == TaskType::Task,
{
}

/// How many answers are acceptances.
pub open spec fn accepted_count(outcomes: Seq<Result<(), Seq<char>>>) -> nat
    decreases outcomes.len(),
{
    if outcomes.len() == 0 {
        0
    } else {
        accepted_count(outcomes.drop_last()) + if outcomes.last() is Ok {
            1nat
        } else {
            0nat
        }
    }
}

/// The error messages for the refused records, in order.
pub open spec fn refusals(
    records: Seq<DocumentRecord>,
    outcomes: Seq<Result<(), Seq<char>>>,
) -> Seq<Seq<char>>
    decreases records.len(),
{
    if records.len() == 0 || outcomes.len() == 0 {
        Seq::<Seq<char>>::empty()
    } else {
        let rest = refusals(records.drop_last(), outcomes.drop_last());
        match outcomes.last() {
            Err(e) => rest.push(store_failure(records.last(), e)),
            Ok(()) => rest,
        }
    }
}

proof fn lemma_replay_tasks(
    m: StatsModel,
    records: Seq<DocumentRecord>,
    outcomes: Seq<Result<(), Seq<char>>>,
)
    requires
        records.len() == outcomes.len(),
        forall|i: int| 0 <= i < records.len() ==> #[trigger] records[i] is Task,
    ensures
        replay(m, false, records, outcomes).task == (
            m.task.0 + records.len(),
            m.task.1 + accepted_count(outcomes),
        ),
        replay(m, false, records, outcomes).errors == m.errors + refusals(records, outcomes),
        replay(m, false, records, outcomes).sprint == m.sprint,
        replay(m, false, records, outcomes).story == m.story,
        replay(m, false, records, outcomes).component == m.component,
        replay(m, false, records, outcomes).adr == m.adr,
        accepted_count(outcomes) <= outcomes.len(),
        (forall|i: int| 0 <= i < outcomes.len() ==> #[trigger] outcomes[i] is Ok) ==> accepted_count(
            outcomes,
        ) == outcomes.len() && refusals(records, outcomes).len() == 0,
        (exists|i: int| 0 <= i < outcomes.len() && #[trigger] outcomes[i] is Err) ==> accepted_count(
            outcomes,
        ) < outcomes.len(),
    decreases records.len(),
{
    if records.len() > 0 {
        let r0 = records.drop_last();
        let o0 = outcomes.drop_last();
        assert forall|i: int| 0 <= i < r0.len() implies #[trigger] r0[i] is Task by {
            assert(r0[i] == records[i]);
        }
        lemma_replay_tasks(m, r0, o0);
        assert(records.last() == records[records.len() - 1]);
        let prev = replay(m, false, r0, o0);
        match outcomes.last() {
            Err(e) => {
                assert(prev.errors.push(store_failure(records.last(), e)) =~= m.errors + refusals(
                    records,
                    outcomes,
                ));
            },
            Ok(()) => {},
        }
        if forall|i: int| 0 <= i < outcomes.len() ==> #[trigger] outcomes[i] is Ok {
            assert forall|i: int| 0 <= i < o0.len() implies #[trigger] o0[i] is Ok by {
                assert(o0[i] == outcomes[i]);
            }
            assert(outcomes[outcomes.len() - 1] is Ok);
        }
        if exists|i: int| 0 <= i < outcomes.len() && #[trigger] outcomes[i] is Err {
            let i = choose|i: int| 0 <= i < outcomes.len() && #[trigger] outcomes[i] is Err;
            if i < o0.len() {
                assert(o0[i] is Err);
            }
        }
    } else {
        assert(m.errors + Seq::<Seq<char>>::empty() =~= m.errors);
    }
}

/// A real run over the tasks of a document with `N` well-formed task
/// headings, the store answering `outcomes[i]` for the `i`-th: the run finds
/// `N` tasks, migrates exactly the accepted ones, and adds one error per
/// refused task, naming it, in document order; other categories are
/// untouched. So all `N` are migrated with no error when the store accepts
/// every write, and fewer than `N` when it refuses any.
pub proof fn law_task_run_counts_and_refusals(
    content: Seq<char>,
    m: StatsModel,
    records: Seq<DocumentRecord>,
    outcomes: Seq<Result<(), Seq<char>>>,
)
    requires
        records.len() == task_heading_count(lines(content)),
        outcomes.len() == records.len(),
        forall|i: int| 0 <= i < records.len() ==> #[trigger] records[i] is Task,
    ensures
        task_spans(lines(content)).len() == records.len(),
        replay(m, false, records, outcomes).task.0 == m.task.0 + task_heading_count(lines(content)),
        replay(m, false, records, outcomes).task.1 == m.task.1 + accepted_count(outcomes),
        replay(m, false, records, outcomes).errors == m.errors + refusals(records, outcomes),
        replay(m, false, records, outcomes).sprint == m.sprint,
        replay(m, false, records, outcomes).story == m.story,
        replay(m, false, records, outcomes).component == m.component,
        replay(m, false, records, outcomes).adr == m.adr,
        (forall|i: int| 0 <= i < outcomes.len() ==> #[trigger] outcomes[i] is Ok) ==> (replay(
            m,
            false,
            records,
            outcomes,
        ).task.1 == m.task.1 + task_heading_count(lines(content)) && refusals(
            records,
            outcomes,
        ).len() == 0),
        (exists|i: int| 0 <= i < outcomes.len() && #[trigger] outcomes[i] is Err) ==> replay(
            m,
            false,
            records,
            outcomes,
        ).task.1 < m.task.1 + task_heading_count(lines(content)),
{
    law_one_task_per_heading(content);
    lemma_replay_tasks(m, records, outcomes);
}

/// Answers that accept every one of `n` writes.
pub open spec fn all_accepted(n: nat) -> Seq<Result<(), Seq<char>>> {
    Seq::new(n, |i: int| Ok::<(), Seq<char>>(()))
}

/// A dry run ends with the same statistics as a real run whose store accepts
/// every write, whatever a store would have answered in the dry run.
pub proof fn law_dry_run_matches_accepting_run(
    m: StatsModel,
    records: Seq<DocumentRecord>,
    outcomes: Seq<Result<(), Seq<char>>>,
)
    requires
        outcomes.len() == records.len(),
    ensures
        replay(m, true, records, outcomes) == replay(
            m,
            false,
            records,
            all_accepted(records.len()),
        ),
    decreases records.len(),
{
    if records.len() > 0 {
        let n = records.len();
        law_dry_run_matches_accepting_run(m, records.drop_last(), outcomes.drop_last());
        assert(all_accepted(n).drop_last() =~= all_accepted((n - 1) as nat));
        assert(all_accepted(n).last() == Ok::<(), Seq<char>>(()));
    }
}

} // verus!
