//! The sprint grammar: one markdown file per sprint, whose name embeds the
//! sprint number; the file's place (current plan or archive) fixes its status.
use vstd::prelude::*;
use crate::text::opt_view;
use crate::components::{section_items, section_items_exec};
use crate::markdown::{extract_section, hash_run_exec, heading_title, is_heading, texts};
use crate::models::{Sprint, SprintStatus};
use crate::text::{
    append_str, chars_of, digits_value, is_digit, is_digit_exec, lines, occurs_at,
    occurs_at_exec, run_exec, run_of, split_lines, string_of, text_of, trim_bounds, views,
    DIGIT, SPACE,
};

verus! {

pub open spec fn is_leap_year(y: int) -> bool {
    (y % 4 == 0 && y % 100 != 0) || y % 400 == 0
}

pub open spec fn days_in_month(y: int, m: int) -> int {
    if m == 2 {
        if is_leap_year(y) {
            29
        } else {
            28
        }
    } else if m == 4 || m == 6 || m == 9 || m == 11 {
        30
    } else {
        31
    }
}

/// A day of the proleptic Gregorian calendar.
pub open spec fn is_calendar_date(y: int, m: int, d: int) -> bool {
    1 <= m <= 12 && 1 <= d <= days_in_month(y, m)
}

/// Days from 1970-01-01 to a day of the proleptic Gregorian calendar,
/// counted in 400-year eras of 146097 days whose years start in March.
pub open spec fn days_from_civil(y: int, m: int, d: int) -> int {
    let yp = if m <= 2 { y - 1 } else { y };
    let era = yp / 400;
    let yoe = yp - era * 400;
    let mp = (m + 9) % 12;
    let doy = (153 * mp + 2) / 5 + d - 1;
    let doe = yoe * 365 + yoe / 4 - yoe / 100 + doy;
    era * 146097 + doe - 719468
}

/// Seconds from the Unix epoch to the start (00:00:00 UTC) of a calendar day.
pub open spec fn utc_midnight_seconds(y: int, m: int, d: int) -> int {
    86400 * days_from_civil(y, m, d)
}

/// Relies on `chrono::NaiveDate::from_ymd_opt`, which gives `None` exactly for
/// days that do not exist, and on `and_time`, `and_utc` and `timestamp`, which
/// give the seconds from the epoch to that day's midnight in UTC.
#[verifier::external_body]
fn utc_midnight(y: i32, m: u32, d: u32) -> (r: Option<i64>)
    requires
        0 <= y <= 9999,
    ensures
        r is Some == is_calendar_date(y as int, m as int, d as int),
        r matches Some(t) ==> t == utc_midnight_seconds(y as int, m as int, d as int),
{
    match chrono::NaiveDate::from_ymd_opt(y, m, d) {
        Some(day) => Some(day.and_time(chrono::NaiveTime::MIN).and_utc().timestamp()),
        None => None,
    }
}

/// `sprint-` followed by a digit at position `i`.
pub open spec fn sprint_number_at(s: Seq<char>, i: int) -> bool {
    occurs_at(s, "sprint-"@, i) && i + 7 < s.len() && is_digit(s[i + 7])
}

pub open spec fn first_sprint_number(s: Seq<char>, i: int) -> Option<int>
    decreases s.len() - i,
{
    if i < 0 || i >= s.len() {
        None
    } else if sprint_number_at(s, i) {
        Some(i)
    } else {
        first_sprint_number(s, i + 1)
    }
}

/// The sprint number embedded in a file name: the digits after the first
/// `sprint-` that a digit follows.
pub open spec fn sprint_digits(name: Seq<char>) -> Option<Seq<char>> {
    match first_sprint_number(name, 0) {
        Some(i) => Some(name.subrange(i + 7, i + 7 + run_of(name.skip(i + 7), DIGIT))),
        None => None,
    }
}

/// The title of the first heading, when it is not blank.
pub open spec fn first_heading_title(ls: Seq<Seq<char>>, k: int) -> Option<Seq<char>>
    decreases ls.len() - k,
{
    if k < 0 || k >= ls.len() {
        None
    } else if is_heading(ls[k]) {
        if heading_title(ls[k]).len() > 0 {
            Some(heading_title(ls[k]))
        } else {
            None
        }
    } else {
        first_heading_title(ls, k + 1)
    }
}

pub open spec fn all_digits(s: Seq<char>, i: int, n: int) -> bool {
    forall|j: int| i <= j < i + n ==> is_digit(#[trigger] s[j])
}

/// A date `YYYY-MM-DD` at position `i`.
pub open spec fn date_at(s: Seq<char>, i: int) -> bool {
    0 <= i && i + 10 <= s.len() && all_digits(s, i, 4) && s[i + 4] == '-' && all_digits(s, i + 5, 2)
        && s[i + 7] == '-' && all_digits(s, i + 8, 2)
}

/// Where the second date of a range `<date> - <date>` that opens at `i`
/// starts; the dash may be surrounded by whitespace.
pub open spec fn range_end_date(s: Seq<char>, i: int) -> Option<int> {
    let j = i + 10 + run_of(s.skip(i + 10), SPACE);
    let k = j + 1 + run_of(s.skip(j + 1), SPACE);
    if date_at(s, i) && j < s.len() && s[j] == '-' && date_at(s, k) {
        Some(k)
    } else {
        None
    }
}

/// The leftmost date range at or after position `i`: where its two dates start.
pub open spec fn first_date_range(s: Seq<char>, i: int) -> Option<(int, int)>
    decreases s.len() - i,
{
    if i < 0 || i >= s.len() {
        None
    } else {
        match range_end_date(s, i) {
            Some(k) => Some((i, k)),
            None => first_date_range(s, i + 1),
        }
    }
}

pub open spec fn year_at(s: Seq<char>, i: int) -> int {
    digits_value(s.subrange(i, i + 4)) as int
}

pub open spec fn month_at(s: Seq<char>, i: int) -> int {
    digits_value(s.subrange(i + 5, i + 7)) as int
}

pub open spec fn day_at(s: Seq<char>, i: int) -> int {
    digits_value(s.subrange(i + 8, i + 10)) as int
}

pub open spec fn valid_date_at(s: Seq<char>, i: int) -> bool {
    is_calendar_date(year_at(s, i), month_at(s, i), day_at(s, i))
}

pub open spec fn midnight_at(s: Seq<char>, i: int) -> int {
    utc_midnight_seconds(year_at(s, i), month_at(s, i), day_at(s, i))
}

/// Start and end of the sprint: midnight of the first date of the first range
/// and the last second of its second date. Without a range, or when either
/// date does not exist, both stay at `now`.
pub open spec fn sprint_dates(s: Seq<char>, now: i64) -> (int, int) {
    match first_date_range(s, 0) {
        Some((i, k)) => if valid_date_at(s, i) && valid_date_at(s, k) && midnight_at(s, k) + 86399
            <= i64::MAX {
            (midnight_at(s, i), midnight_at(s, k) + 86399)
        } else {
            (now as int, now as int)
        },
        None => (now as int, now as int),
    }
}

/// The sprint goals: the items of the Goals section, else of the Goal section.
pub open spec fn goal_items(s: Seq<char>) -> Seq<Seq<char>> {
    if crate::markdown::section(s, "Goals"@) is Some {
        section_items(s, "Goals"@)
    } else {
        section_items(s, "Goal"@)
    }
}

pub open spec fn is_sprint_of(
    sp: Sprint,
    digits: Seq<char>,
    text: Seq<char>,
    status: SprintStatus,
    now: i64,
) -> bool {
    &&& sp.id@ == "sprint-"@ + digits
    &&& sp.name@ == match first_heading_title(lines(text), 0) {
        Some(t) => t,
        None => "Sprint "@ + digits,
    }
    &&& sp.description is None
    &&& (sp.start_date as int, sp.end_date as int) == sprint_dates(text, now)
    &&& texts(sp.goals@) == goal_items(text)
    &&& sp.tasks@.len() == 0
    &&& sp.status == status
    &&& sp.created_at == now
    &&& sp.updated_at == now
    &&& sp.retrospective is None
}

fn sprint_number_at_exec(v: &Vec<char>, pat: &Vec<char>, i: usize) -> (r: bool)
    requires
        pat@ == "sprint-"@,
    ensures
        r == sprint_number_at(v@, i as int),
{
    proof {
        reveal_strlit("sprint-");
    }
    if i >= v.len() || v.len() - i <= 7 {
        return false;
    }
    occurs_at_exec(v, pat, i) && is_digit_exec(v[i + 7])
}

/// The sprint number embedded in the file name `name`.
pub fn sprint_number_of(name: &str) -> (r: Option<String>)
    ensures
        opt_view(r) == sprint_digits(name@),
{
    let v = chars_of(name);
    let pat = chars_of("sprint-");
    let mut i: usize = 0;
    while i < v.len() && !sprint_number_at_exec(&v, &pat, i)
        invariant
            i <= v.len(),
            pat@ == "sprint-"@,
            first_sprint_number(v@, 0) == first_sprint_number(v@, i as int),
        decreases v.len() - i,
    {
        i = i + 1;
    }
    if i == v.len() {
        return None;
    }
    proof {
        reveal_strlit("sprint-");
    }
    let d = run_exec(&v, i + 7, DIGIT);
    Some(string_of(&v, i + 7, i + 7 + d))
}

/// The title of the first heading among the lines, when it is not blank.
fn first_heading_title_exec(ls: &Vec<Vec<char>>) -> (r: Option<String>)
    ensures
        opt_view(r) == first_heading_title(views(ls@), 0),
{
    let ghost vs = views(ls@);
    let mut k: usize = 0;
    while k < ls.len() && hash_run_exec(&ls[k]) == 0
        invariant
            k <= ls.len(),
            vs == views(ls@),
            first_heading_title(vs, 0) == first_heading_title(vs, k as int),
        decreases ls.len() - k,
    {
        k = k + 1;
    }
    if k == ls.len() {
        return None;
    }
    let l = &ls[k];
    assert(vs[k as int] == l@);
    let h = hash_run_exec(l);
    let (a, b) = trim_bounds(l, h, l.len());
    assert(l@.subrange(h as int, l.len() as int) =~= l@.skip(h as int));
    if a < b {
        Some(string_of(l, a, b))
    } else {
        None
    }
}

fn all_digits_exec(v: &Vec<char>, i: usize, n: usize) -> (r: bool)
    requires
        i + n <= v.len(),
    ensures
        r == all_digits(v@, i as int, n as int),
{
    let mut j = i;
    while j < i + n
        invariant
            i <= j <= i + n <= v.len(),
            forall|t: int| i <= t < j ==> is_digit(#[trigger] v@[t]),
        decreases i + n - j,
    {
        if !is_digit_exec(v[j]) {
            return false;
        }
        j = j + 1;
    }
    true
}

fn date_at_exec(v: &Vec<char>, i: usize) -> (r: bool)
    ensures
        r == date_at(v@, i as int),
{
    if i > v.len() || v.len() - i < 10 {
        return false;
    }
    all_digits_exec(v, i, 4) && v[i + 4] == '-' && all_digits_exec(v, i + 5, 2) && v[i + 7] == '-'
        && all_digits_exec(v, i + 8, 2)
}

fn range_end_date_exec(v: &Vec<char>, i: usize) -> (r: Option<usize>)
    ensures
        r matches Some(k) ==> range_end_date(v@, i as int) == Some(k as int),
        r is None ==> range_end_date(v@, i as int) is None,
{
    if !date_at_exec(v, i) {
        return None;
    }
    assert(i + 10 <= v.len());
    let j = i + 10 + run_exec(v, i + 10, SPACE);
    if j >= v.len() || v[j] != '-' {
        return None;
    }
    let k = j + 1 + run_exec(v, j + 1, SPACE);
    if date_at_exec(v, k) {
        Some(k)
    } else {
        None
    }
}

/// The value of the `n` digits at position `i`.
fn number_at(v: &Vec<char>, i: usize, n: usize) -> (r: u32)
    requires
        i + n <= v.len(),
        n <= 4,
        all_digits(v@, i as int, n as int),
    ensures
        r == digits_value(v@.subrange(i as int, (i + n) as int)),
        r < 10000,
{
    let mut acc: u32 = 0;
    let mut j: usize = 0;
    while j < n
        invariant
            j <= n <= 4,
            i + n <= v.len(),
            all_digits(v@, i as int, n as int),
            acc == digits_value(v@.subrange(i as int, (i + j) as int)),
            acc < pow10(j as nat),
        decreases n - j,
    {
        assert(v@.subrange(i as int, (i + j + 1) as int).drop_last() =~= v@.subrange(
            i as int,
            (i + j) as int,
        ));
        assert(is_digit(v@[(i + j) as int]));
        let d = (v[i + j] as u32) - 48;
        assert(pow10((j + 1) as nat) == 10 * pow10(j as nat));
        assert(j < 4);
        assert(pow10(j as nat) <= 1000) by {
            reveal_with_fuel(pow10, 5);
        }
        acc = acc * 10 + d;
        j = j + 1;
    }
    assert(pow10(n as nat) <= 10000) by {
        reveal_with_fuel(pow10, 5);
    }
    acc
}

pub open spec fn pow10(n: nat) -> nat
    decreases n,
{
    if n == 0 {
        1
    } else {
        10 * pow10((n - 1) as nat)
    }
}

/// Midnight of the date at `i`, when the day exists.
fn midnight_of(v: &Vec<char>, i: usize) -> (r: Option<i64>)
    requires
        date_at(v@, i as int),
    ensures
        r is Some == valid_date_at(v@, i as int),
        r matches Some(t) ==> t == midnight_at(v@, i as int),
{
    assert(i + 10 <= v.len());
    let y = number_at(v, i, 4);
    let m = number_at(v, i + 5, 2);
    let d = number_at(v, i + 8, 2);
    utc_midnight(y as i32, m, d)
}

/// `sprint_dates` of `v`.
fn sprint_dates_exec(v: &Vec<char>, now: i64) -> (r: (i64, i64))
    ensures
        (r.0 as int, r.1 as int) == sprint_dates(v@, now),
{
    let mut i: usize = 0;
    while i < v.len()
        invariant
            i <= v.len(),
            first_date_range(v@, 0) == first_date_range(v@, i as int),
        decreases v.len() - i,
    {
        match range_end_date_exec(v, i) {
            Some(k) => {
                let start = midnight_of(v, i);
                let end = midnight_of(v, k);
                match (start, end) {
                    (Some(a), Some(b)) => match b.checked_add(86399) {
                        Some(e) => {
                            return (a, e);
                        },
                        None => {
                            return (now, now);
                        },
                    },
                    _ => {
                        return (now, now);
                    },
                }
            },
            None => {},
        }
        i = i + 1;
    }
    (now, now)
}

/// The sprint record held by the file `file_name` with text `content`, in the
/// status that the file's place gives. A file name without a sprint number
/// cannot give a record.
pub fn extract_sprint(file_name: &str, content: &str, status: SprintStatus, now: i64) -> (r: Result<Sprint, String>)
    ensures
        sprint_digits(file_name@) matches Some(d) ==> (r matches Ok(sp) && is_sprint_of(
            sp,
            d,
            content@,
            status,
            now,
        )),
        sprint_digits(file_name@) is None ==> (r matches Err(e) && e@
            == "Could not extract sprint ID from filename"@),
{
    let digits = match sprint_number_of(file_name) {
        Some(d) => d,
        None => {
            return Err(text_of("Could not extract sprint ID from filename"));
        },
    };
    let mut id = text_of("sprint-");
    append_str(&mut id, digits.as_str());
    let v = chars_of(content);
    let ls = split_lines(&v);
    let name = match first_heading_title_exec(&ls) {
        Some(t) => t,
        None => {
            let mut n = text_of("Sprint ");
            append_str(&mut n, digits.as_str());
            n
        },
    };
    let (start_date, end_date) = sprint_dates_exec(&v, now);
    let goals = if extract_section(content, "Goals").is_some() {
        section_items_exec(content, "Goals")
    } else {
        section_items_exec(content, "Goal")
    };
    Ok(
        Sprint {
            id,
            name,
            description: None,
            start_date,
            end_date,
            goals,
            tasks: Vec::new(),
            status,
            created_at: now,
            updated_at: now,
            retrospective: None,
        },
    )
}

} // verus!
