//! The task grammar: an aggregate file in which each task opens with a heading
//! `## <PREFIX>-<digits>: <title>` and carries `**Key:** value` lines up to
//! the next task heading.
use vstd::prelude::*;
use crate::text::opt_view;
use crate::markdown::{hash_run, hash_run_exec, texts};
use crate::models::{Priority, Task, TaskStatus, TaskType};
use crate::text::{
    chars_of, copy_range, digits_value, find_from, find_from_exec, in_class, is_digit_exec,
    lines, run_exec, run_of, split_lines, split_on, split_on_exec, starts_with, starts_with_exec,
    string_from,
    trim, trim_bounds, views, DIGIT, SPACE, WORD,
};
use crate::vocab::{
    normalize_task_status, normalize_task_type, task_status_for, task_type_for, vocab_key,
};

verus! {

/// The deepest heading that opens a task.
pub const TASK_DEPTH: usize = 3;

/// A task heading line: one to three `#`, whitespace, an identifier made of a
/// word, `-` and digits, a colon, and a non-empty title. Gives the identifier
/// and the trimmed title.
pub open spec fn task_heading(l: Seq<char>) -> Option<(Seq<char>, Seq<char>)> {
    let h = hash_run(l) as int;
    let id_start = h + run_of(l.skip(h), SPACE);
    let dash = id_start + run_of(l.skip(id_start), WORD);
    let colon = dash + 1 + run_of(l.skip(dash + 1), DIGIT);
    if 1 <= h <= TASK_DEPTH && id_start > h && dash > id_start && dash < l.len() && l[dash] == '-' && colon > dash + 1
        && colon < l.len() && l[colon] == ':' && trim(l.subrange(colon + 1, l.len() as int)).len() > 0 {
        Some((l.subrange(id_start, colon), trim(l.subrange(colon + 1, l.len() as int))))
    } else {
        None
    }
}

pub open spec fn is_task_heading(l: Seq<char>) -> bool {
    task_heading(l) is Some
}

/// One task in the text: identifier, title and the lines of its body.
pub type TaskSpan = (Seq<char>, Seq<char>, Seq<Seq<char>>);

/// The index of the first task heading at or after `j`, or the number of
/// lines when there is none.
pub open spec fn next_task(ls: Seq<Seq<char>>, j: int) -> int
    decreases ls.len() - j,
{
    if j < 0 || j >= ls.len() {
        ls.len() as int
    } else if is_task_heading(ls[j]) {
        j
    } else {
        next_task(ls, j + 1)
    }
}

/// The body of the task whose heading is line `i`: the lines after it up to
/// the next task heading.
pub open spec fn task_body(ls: Seq<Seq<char>>, i: int) -> Seq<Seq<char>> {
    ls.subrange(i + 1, next_task(ls, i + 1))
}

/// The tasks whose headings lie among the first `n` lines, in order.
pub open spec fn task_spans_upto(ls: Seq<Seq<char>>, n: int) -> Seq<TaskSpan>
    decreases n,
{
    if n <= 0 || n > ls.len() {
        Seq::<TaskSpan>::empty()
    } else {
        let r = task_spans_upto(ls, n - 1);
        match task_heading(ls[n - 1]) {
            Some((id, title)) => r.push((id, title, task_body(ls, n - 1))),
            None => r,
        }
    }
}

pub open spec fn task_spans(ls: Seq<Seq<char>>) -> Seq<TaskSpan> {
    task_spans_upto(ls, ls.len() as int)
}

/// The value of the first line that holds `marker`: the text after the marker,
/// trimmed.
pub open spec fn field_from(ls: Seq<Seq<char>>, marker: Seq<char>, k: int) -> Option<Seq<char>>
    decreases ls.len() - k,
{
    if k < 0 || k >= ls.len() {
        None
    } else {
        match find_from(ls[k], marker, 0) {
            Some(p) => Some(trim(ls[k].subrange(p + marker.len(), ls[k].len() as int))),
            None => field_from(ls, marker, k + 1),
        }
    }
}

pub open spec fn field(ls: Seq<Seq<char>>, marker: Seq<char>) -> Option<Seq<char>> {
    field_from(ls, marker, 0)
}

/// The non-empty trimmed pieces, in order.
pub open spec fn nonempty_trimmed(ps: Seq<Seq<char>>) -> Seq<Seq<char>>
    decreases ps.len(),
{
    if ps.len() == 0 {
        Seq::<Seq<char>>::empty()
    } else {
        let r = nonempty_trimmed(ps.drop_last());
        if trim(ps.last()).len() > 0 {
            r.push(trim(ps.last()))
        } else {
            r
        }
    }
}

/// A comma-separated list: its trimmed, non-empty entries in order.
pub open spec fn comma_list(v: Seq<char>) -> Seq<Seq<char>> {
    nonempty_trimmed(split_on(v, ','))
}

/// The text of `v` before its first `c`.
pub open spec fn before_char(v: Seq<char>, c: char) -> Seq<char>
    decreases v.len(),
{
    if v.len() == 0 || v[0] == c {
        Seq::<char>::empty()
    } else {
        seq![v[0]] + before_char(v.drop_first(), c)
    }
}

pub open spec fn status_of(body: Seq<Seq<char>>) -> TaskStatus {
    match field(body, "**Status:**"@) {
        Some(v) => task_status_for(vocab_key(v)),
        None => TaskStatus::Todo,
    }
}

pub open spec fn type_of(body: Seq<Seq<char>>) -> TaskType {
    match field(body, "**Type:**"@) {
        Some(v) => task_type_for(vocab_key(v)),
        None => TaskType::Task,
    }
}

/// The description: the value up to its first `*`, when that is not blank.
pub open spec fn description_of(body: Seq<Seq<char>>) -> Option<Seq<char>> {
    match field(body, "**Description:**"@) {
        Some(v) => if trim(before_char(v, '*')).len() > 0 {
            Some(trim(before_char(v, '*')))
        } else {
            None
        },
        None => None,
    }
}

/// A value that must not be blank.
pub open spec fn nonblank(o: Option<Seq<char>>) -> Option<Seq<char>> {
    match o {
        Some(v) => if v.len() > 0 {
            Some(v)
        } else {
            None
        },
        None => None,
    }
}

/// The sprint reference: `sprint-` and the digits that follow it.
pub open spec fn sprint_ref_of(body: Seq<Seq<char>>) -> Option<Seq<char>> {
    match field(body, "**Sprint:**"@) {
        Some(v) => if starts_with(v, "sprint-"@) && run_of(v.skip(7), DIGIT) > 0 {
            Some(v.take(7 + run_of(v.skip(7), DIGIT) as int))
        } else {
            None
        },
        None => None,
    }
}

/// Story points: the leading digits of the value, when they fit in a `u8`.
pub open spec fn points_of(body: Seq<Seq<char>>) -> Option<u8> {
    match field(body, "**Story Points:**"@) {
        Some(v) => if run_of(v, DIGIT) > 0 && digits_value(v.take(run_of(v, DIGIT) as int)) <= 255 {
            Some(digits_value(v.take(run_of(v, DIGIT) as int)) as u8)
        } else {
            None
        },
        None => None,
    }
}

pub open spec fn list_of(body: Seq<Seq<char>>, marker: Seq<char>) -> Seq<Seq<char>> {
    match field(body, marker) {
        Some(v) => comma_list(v),
        None => Seq::<Seq<char>>::empty(),
    }
}

/// The task built from an identifier, a title and the body lines.
pub open spec fn is_task_of(t: Task, id: Seq<char>, title: Seq<char>, body: Seq<Seq<char>>, now: i64) -> bool {
    &&& t.id@ == id
    &&& t.title@ == title
    &&& t.status == status_of(body)
    &&& t.task_type == type_of(body)
    &&& t.priority == Priority::Medium
    &&& opt_view(t.description) == description_of(body)
    &&& opt_view(t.assignee) == nonblank(field(body, "**Assignee:**"@))
    &&& opt_view(t.sprint_id) == sprint_ref_of(body)
    &&& t.story_points == points_of(body)
    &&& texts(t.dependencies@) == list_of(body, "**Dependencies:**"@)
    &&& texts(t.labels@) == list_of(body, "**Labels:**"@)
    &&& t.created_at == now
    &&& t.updated_at == now
    &&& t.created_by is None
    &&& t.updated_by is None
    &&& t.completed_at is None
}

/// The identifier and title of a task heading line.
pub fn task_heading_exec(l: &Vec<char>) -> (r: Option<(Vec<char>, Vec<char>)>)
    ensures
        r matches Some(p) ==> task_heading(l@) == Some((p.0@, p.1@)),
        r is None ==> task_heading(l@) is None,
{
    let h = hash_run_exec(l);
    if h < 1 || h > TASK_DEPTH {
        return None;
    }
    let id_start = h + run_exec(l, h, SPACE);
    if id_start == h {
        return None;
    }
    let dash = id_start + run_exec(l, id_start, WORD);
    if dash == id_start || dash >= l.len() || l[dash] != '-' {
        return None;
    }
    let colon = dash + 1 + run_exec(l, dash + 1, DIGIT);
    if colon == dash + 1 || colon >= l.len() || l[colon] != ':' {
        return None;
    }
    let (a, b) = trim_bounds(l, colon + 1, l.len());
    if a == b {
        return None;
    }
    Some((copy_range(l, id_start, colon), copy_range(l, a, b)))
}

/// The value after `marker` on the first of the lines `ls[lo..hi]` that holds it.
pub fn field_exec(ls: &Vec<Vec<char>>, lo: usize, hi: usize, marker: &Vec<char>) -> (r: Option<Vec<char>>)
    requires
        lo <= hi <= ls.len(),
    ensures
        r matches Some(v) ==> field(views(ls@).subrange(lo as int, hi as int), marker@) == Some(v@),
        r is None ==> field(views(ls@).subrange(lo as int, hi as int), marker@) is None,
{
    let ghost sub = views(ls@).subrange(lo as int, hi as int);
    let mut k = lo;
    while k < hi
        invariant
            lo <= k <= hi <= ls.len(),
            sub == views(ls@).subrange(lo as int, hi as int),
            field(sub, marker@) == field_from(sub, marker@, k - lo),
        decreases hi - k,
    {
        let line = &ls[k];
        assert(sub[k - lo] == line@);
        match find_from_exec(line, marker, 0) {
            Some(p) => {
                let (a, b) = trim_bounds(line, p + marker.len(), line.len());
                return Some(copy_range(line, a, b));
            },
            None => {},
        }
        k = k + 1;
    }
    None
}

proof fn lemma_before_char(v: Seq<char>, c: char, n: int)
    requires
        0 <= n <= v.len(),
        forall|j: int| 0 <= j < n ==> v[j] != c,
        n == v.len() || v[n] == c,
    ensures
        before_char(v, c) == v.take(n),
    decreases n,
{
    if n > 0 {
        let t = v.drop_first();
        assert forall|j: int| 0 <= j < n - 1 implies t[j] != c by {
            assert(t[j] == v[j + 1]);
        }
        if n - 1 < t.len() {
            assert(t[n - 1] == v[n]);
        }
        lemma_before_char(t, c, n - 1);
        assert(seq![v[0]] + t.take(n - 1) =~= v.take(n));
    } else {
        assert(v.take(0) =~= Seq::<char>::empty());
    }
}

/// The position of the first `c` in `v`, or its length.
pub(crate) fn position_of(v: &Vec<char>, c: char) -> (r: usize)
    ensures
        r <= v.len(),
        before_char(v@, c) == v@.take(r as int),
{
    let mut n: usize = 0;
    while n < v.len() && v[n] != c
        invariant
            n <= v.len(),
            forall|j: int| 0 <= j < n ==> v@[j] != c,
        decreases v.len() - n,
    {
        n = n + 1;
    }
    proof {
        lemma_before_char(v@, c, n as int);
    }
    n
}

/// The non-empty trimmed entries of a comma-separated list.
pub fn comma_list_exec(v: &Vec<char>) -> (r: Vec<String>)
    ensures
        texts(r@) == comma_list(v@),
{
    let ps = split_on_exec(v, ',');
    let mut r: Vec<String> = Vec::new();
    let mut k: usize = 0;
    while k < ps.len()
        invariant
            k <= ps.len(),
            texts(r@) == nonempty_trimmed(views(ps@).take(k as int)),
        decreases ps.len() - k,
    {
        let ghost next = views(ps@).take(k + 1);
        assert(next.drop_last() =~= views(ps@).take(k as int));
        assert(next.last() == ps@[k as int]@);
        let p = &ps[k];
        let (a, b) = trim_bounds(p, 0, p.len());
        assert(p@.subrange(0, p.len() as int) =~= p@);
        if a < b {
            let ghost before = r@;
            let s = string_from(&copy_range(p, a, b));
            r.push(s);
            assert(texts(r@) =~= texts(before).push(s@));
        }
        k = k + 1;
    }
    assert(views(ps@).take(ps.len() as int) =~= views(ps@));
    r
}

/// The value of the digits `v[0..n]` as a `u8`, or `None` when it exceeds 255.
fn small_number(v: &Vec<char>, n: usize) -> (r: Option<u8>)
    requires
        n <= v.len(),
        forall|j: int| 0 <= j < n ==> '0' <= #[trigger] v@[j] <= '9',
    ensures
        digits_value(v@.take(n as int)) <= 255 ==> r == Some(digits_value(v@.take(n as int)) as u8),
        digits_value(v@.take(n as int)) > 255 ==> r is None,
{
    let mut acc: u32 = 0;
    let mut i: usize = 0;
    while i < n
        invariant
            i <= n <= v.len(),
            forall|j: int| 0 <= j < n ==> '0' <= #[trigger] v@[j] <= '9',
            acc <= 255,
            acc == digits_value(v@.take(i as int)),
        decreases n - i,
    {
        assert(v@.take(i + 1).drop_last() =~= v@.take(i as int));
        let d = (v[i] as u32) - 48;
        acc = acc * 10 + d;
        if acc > 255 {
            proof {
                lemma_digits_grow(v@, i + 1, n as int);
            }
            return None;
        }
        i = i + 1;
    }
    Some(acc as u8)
}

proof fn lemma_digits_grow(v: Seq<char>, i: int, n: int)
    requires
        0 <= i <= n <= v.len(),
        forall|j: int| 0 <= j < n ==> '0' <= #[trigger] v[j] <= '9',
    ensures
        digits_value(v.take(n)) >= digits_value(v.take(i)),
    decreases n - i,
{
    if i < n {
        lemma_digits_grow(v, i + 1, n);
        assert(v.take(i + 1).drop_last() =~= v.take(i));
    }
}

pub open spec fn body_of(ls: &Vec<Vec<char>>, lo: usize, hi: usize) -> Seq<Seq<char>> {
    views(ls@).subrange(lo as int, hi as int)
}

/// The value of the `**Key:**` line named by `marker`.
fn field_of(ls: &Vec<Vec<char>>, lo: usize, hi: usize, marker: &str) -> (r: Option<Vec<char>>)
    requires
        lo <= hi <= ls.len(),
    ensures
        r matches Some(v) ==> field(body_of(ls, lo, hi), marker@) == Some(v@),
        r is None ==> field(body_of(ls, lo, hi), marker@) is None,
{
    field_exec(ls, lo, hi, &chars_of(marker))
}

fn status_field(ls: &Vec<Vec<char>>, lo: usize, hi: usize) -> (r: TaskStatus)
    requires
        lo <= hi <= ls.len(),
    ensures
        r == status_of(body_of(ls, lo, hi)),
{
    match field_of(ls, lo, hi, "**Status:**") {
        Some(v) => normalize_task_status(string_from(&v).as_str()),
        None => TaskStatus::Todo,
    }
}

fn type_field(ls: &Vec<Vec<char>>, lo: usize, hi: usize) -> (r: TaskType)
    requires
        lo <= hi <= ls.len(),
    ensures
        r == type_of(body_of(ls, lo, hi)),
{
    match field_of(ls, lo, hi, "**Type:**") {
        Some(v) => normalize_task_type(string_from(&v).as_str()),
        None => TaskType::Task,
    }
}

fn description_field(ls: &Vec<Vec<char>>, lo: usize, hi: usize) -> (r: Option<String>)
    requires
        lo <= hi <= ls.len(),
    ensures
        opt_view(r) == description_of(body_of(ls, lo, hi)),
{
    match field_of(ls, lo, hi, "**Description:**") {
        Some(v) => {
            let n = position_of(&v, '*');
            let (a, b) = trim_bounds(&v, 0, n);
            assert(v@.subrange(0, n as int) =~= v@.take(n as int));
            if a < b {
                Some(string_from(&copy_range(&v, a, b)))
            } else {
                None
            }
        },
        None => None,
    }
}

fn assignee_field(ls: &Vec<Vec<char>>, lo: usize, hi: usize) -> (r: Option<String>)
    requires
        lo <= hi <= ls.len(),
    ensures
        opt_view(r) == nonblank(field(body_of(ls, lo, hi), "**Assignee:**"@)),
{
    match field_of(ls, lo, hi, "**Assignee:**") {
        Some(v) => if v.len() > 0 {
            Some(string_from(&v))
        } else {
            None
        },
        None => None,
    }
}

fn sprint_field(ls: &Vec<Vec<char>>, lo: usize, hi: usize) -> (r: Option<String>)
    requires
        lo <= hi <= ls.len(),
    ensures
        opt_view(r) == sprint_ref_of(body_of(ls, lo, hi)),
{
    match field_of(ls, lo, hi, "**Sprint:**") {
        Some(v) => {
            let prefix = chars_of("sprint-");
            proof {
                reveal_strlit("sprint-");
            }
            if starts_with_exec(&v, &prefix) {
                let d = run_exec(&v, 7, DIGIT);
                if d > 0 {
                    assert(v@.subrange(0, 7 + d) =~= v@.take(7 + d));
                    Some(string_from(&copy_range(&v, 0, 7 + d)))
                } else {
                    None
                }
            } else {
                None
            }
        },
        None => None,
    }
}

fn points_field(ls: &Vec<Vec<char>>, lo: usize, hi: usize) -> (r: Option<u8>)
    requires
        lo <= hi <= ls.len(),
    ensures
        r == points_of(body_of(ls, lo, hi)),
{
    match field_of(ls, lo, hi, "**Story Points:**") {
        Some(v) => {
            let d = run_exec(&v, 0, DIGIT);
            assert(v@.skip(0) =~= v@);
            if d > 0 {
                proof {
                    assert forall|j: int| 0 <= j < d implies '0' <= #[trigger] v@[j] <= '9' by {
                        lemma_run_digits(v@, j);
                    }
                }
                small_number(&v, d)
            } else {
                None
            }
        },
        None => None,
    }
}

fn list_field(ls: &Vec<Vec<char>>, lo: usize, hi: usize, marker: &str) -> (r: Vec<String>)
    requires
        lo <= hi <= ls.len(),
    ensures
        texts(r@) == list_of(body_of(ls, lo, hi), marker@),
{
    match field_of(ls, lo, hi, marker) {
        Some(v) => comma_list_exec(&v),
        None => {
            let r: Vec<String> = Vec::new();
            assert(texts(r@) =~= Seq::<Seq<char>>::empty());
            r
        },
    }
}

/// Builds the task with identifier `id` and title `title` from the lines
/// `ls[lo..hi]` of its body. Each `**Key:**` line is read on its own; a
/// missing or unreadable field leaves its default.
pub fn parse_task_lines(id: Vec<char>, title: Vec<char>, ls: &Vec<Vec<char>>, lo: usize, hi: usize, now: i64) -> (r: Task)
    requires
        lo <= hi <= ls.len(),
    ensures
        is_task_of(r, id@, title@, views(ls@).subrange(lo as int, hi as int), now),
{
    Task {
        id: string_from(&id),
        title: string_from(&title),
        description: description_field(ls, lo, hi),
        status: status_field(ls, lo, hi),
        task_type: type_field(ls, lo, hi),
        priority: Priority::Medium,
        sprint_id: sprint_field(ls, lo, hi),
        assignee: assignee_field(ls, lo, hi),
        story_points: points_field(ls, lo, hi),
        labels: list_field(ls, lo, hi, "**Labels:**"),
        dependencies: list_field(ls, lo, hi, "**Dependencies:**"),
        created_at: now,
        updated_at: now,
        created_by: None,
        updated_by: None,
        completed_at: None,
    }
}

proof fn lemma_run_digits(v: Seq<char>, j: int)
    requires
        0 <= j < run_of(v, DIGIT),
    ensures
        j < v.len(),
        '0' <= v[j] <= '9',
    decreases j,
{
    assert(v.len() > 0 && in_class(v[0], DIGIT));
    if j > 0 {
        lemma_run_digits(v.drop_first(), j - 1);
    }
}

/// Builds a task from its identifier, title (trimmed) and body text.
pub fn parse_task(id: &str, title: &str, body: &str, now: i64) -> (r: Task)
    ensures
        is_task_of(r, id@, trim(title@), lines(body@), now),
{
    let ls = split_lines(&chars_of(body));
    let tv = chars_of(title);
    let (a, b) = trim_bounds(&tv, 0, tv.len());
    assert(tv@.subrange(0, tv.len() as int) =~= tv@);
    let r = parse_task_lines(chars_of(id), copy_range(&tv, a, b), &ls, 0, ls.len(), now);
    assert(views(ls@).subrange(0, ls.len() as int) =~= views(ls@));
    r
}

/// Every task in a task file, in document order. A task opens with a heading
/// of depth one to three of the form `<PREFIX>-<digits>: <title>`; its body
/// runs to the next task heading.
pub fn extract_tasks(content: &str, now: i64) -> (r: Vec<Task>)
    ensures
        r.len() == task_spans(lines(content@)).len(),
        forall|i: int|
            0 <= i < r.len() ==> #[trigger] is_task_of(
                r@[i],
                task_spans(lines(content@))[i].0,
                task_spans(lines(content@))[i].1,
                task_spans(lines(content@))[i].2,
                now,
            ),
{
    let ls = split_lines(&chars_of(content));
    let ghost vs = views(ls@);
    let mut r: Vec<Task> = Vec::new();
    let mut k: usize = 0;
    while k < ls.len()
        invariant
            k <= ls.len(),
            vs == views(ls@),
            r.len() == task_spans_upto(vs, k as int).len(),
            forall|i: int|
                0 <= i < r.len() ==> #[trigger] is_task_of(
                    r@[i],
                    task_spans_upto(vs, k as int)[i].0,
                    task_spans_upto(vs, k as int)[i].1,
                    task_spans_upto(vs, k as int)[i].2,
                    now,
                ),
        decreases ls.len() - k,
    {
        assert(vs[k as int] == ls@[k as int]@);
        match task_heading_exec(&ls[k]) {
            Some((id, title)) => {
                let mut e = k + 1;
                while e < ls.len() && task_heading_exec(&ls[e]).is_none()
                    invariant
                        k < e <= ls.len(),
                        vs == views(ls@),
                        next_task(vs, k + 1) == next_task(vs, e as int),
                    decreases ls.len() - e,
                {
                    assert(vs[e as int] == ls@[e as int]@);
                    e = e + 1;
                }
                if e < ls.len() {
                    assert(vs[e as int] == ls@[e as int]@);
                }
                let t = parse_task_lines(id, title, &ls, k + 1, e, now);
                r.push(t);
            },
            None => {},
        }
        k = k + 1;
    }
    r
}

pub open spec fn is_upper(c: char) -> bool {
    'A' <= c && c <= 'Z'
}

/// A task identifier: capital letters, `-`, digits, and nothing else.
pub open spec fn valid_task_id(s: Seq<char>) -> bool {
    exists|k: int|
        0 < k && k + 1 < s.len() && s[k] == '-' && (forall|j: int| 0 <= j < k ==> is_upper(#[trigger] s[j]))
            && (forall|j: int| k < j < s.len() ==> crate::text::is_digit(#[trigger] s[j]))
}

/// Whether `id` has the form of a task identifier, such as `TASK-001`.
pub fn is_valid_task_id(id: &str) -> (r: bool)
    ensures
        r == valid_task_id(id@),
{
    let v = chars_of(id);
    let mut k: usize = 0;
    while k < v.len() && 'A' <= v[k] && v[k] <= 'Z'
        invariant
            k <= v.len(),
            v@ == id@,
            forall|j: int| 0 <= j < k ==> is_upper(#[trigger] v@[j]),
        decreases v.len() - k,
    {
        k = k + 1;
    }
    if k == 0 || k >= v.len() || v[k] != '-' || k + 1 == v.len() {
        proof {
            if valid_task_id(id@) {
                let m = choose|m: int|
                    0 < m && m + 1 < v@.len() && v@[m] == '-' && (forall|j: int|
                        0 <= j < m ==> is_upper(#[trigger] v@[j])) && (forall|j: int|
                        m < j < v@.len() ==> crate::text::is_digit(#[trigger] v@[j]));
                if m < k {
                    assert(is_upper(v@[m]));
                } else if m > k {
                    assert(is_upper(v@[k as int]));
                }
            }
        }
        return false;
    }
    let mut j = k + 1;
    while j < v.len()
        invariant
            0 < k < v.len(),
            k + 1 <= j <= v.len(),
            v@ == id@,
            v@[k as int] == '-',
            forall|t: int| 0 <= t < k ==> is_upper(#[trigger] v@[t]),
            forall|t: int| k < t < j ==> crate::text::is_digit(#[trigger] v@[t]),
        decreases v.len() - j,
    {
        if !is_digit_exec(v[j]) {
            proof {
                if valid_task_id(id@) {
                    let m = choose|m: int|
                        0 < m && m + 1 < v@.len() && v@[m] == '-' && (forall|t: int|
                            0 <= t < m ==> is_upper(#[trigger] v@[t])) && (forall|t: int|
                            m < t < v@.len() ==> crate::text::is_digit(#[trigger] v@[t]));
                    if m < k {
                        assert(is_upper(v@[m]));
                    } else if m > k {
                        assert(is_upper(v@[k as int]));
                    } else {
                        assert(crate::text::is_digit(v@[j as int]));
                    }
                }
            }
            return false;
        }
        j = j + 1;
    }
    assert(0 < k && k + 1 < v@.len() && v@[k as int] == '-');
    true
}

} // verus!
