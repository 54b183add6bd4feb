//! The user-story grammar: an aggregate file in which each story opens with
//! a second-level heading; stories are numbered `US-001`, `US-002`, ... in
//! document order.
use vstd::prelude::*;
use crate::text::opt_view;
use crate::markdown::{
    hash_run, hash_run_exec, is_heading, items_of_lines, items_of_lines_exec, texts,
};
use crate::models::{Priority, UserStory};
use crate::tasks::before_char;
use crate::text::{
    append_str, ascii_lower_exec, chars_of, copy_range, decimal, decimal_exec, find_from,
    find_from_exec, is_space, is_space_exec, lines, lower, occurs_at, occurs_at_exec, run_exec,
    run_of, split_lines, string_of, text_of, trim, trim_bounds, views, zero_pad, SPACE,
};

verus! {

/// A line that opens a story: exactly `##` followed by whitespace.
pub open spec fn is_story_boundary(l: Seq<char>) -> bool {
    hash_run(l) == 2 && l.len() > 2 && is_space(l[2])
}

/// The title of a story heading, when it is not blank.
pub open spec fn story_title(l: Seq<char>) -> Option<Seq<char>> {
    if is_story_boundary(l) && trim(l.skip(2)).len() > 0 {
        Some(trim(l.skip(2)))
    } else {
        None
    }
}

/// The first line at or after `j` that opens a story, or the number of lines.
pub open spec fn story_end(ls: Seq<Seq<char>>, j: int) -> int
    decreases ls.len() - j,
{
    if j < 0 || j >= ls.len() {
        ls.len() as int
    } else if is_story_boundary(ls[j]) {
        j
    } else {
        story_end(ls, j + 1)
    }
}

/// One story in the text: its title and the lines of its body.
pub type StorySpan = (Seq<char>, Seq<Seq<char>>);

pub open spec fn story_spans_upto(ls: Seq<Seq<char>>, n: int) -> Seq<StorySpan>
    decreases n,
{
    if n <= 0 || n > ls.len() {
        Seq::<StorySpan>::empty()
    } else {
        let r = story_spans_upto(ls, n - 1);
        match story_title(ls[n - 1]) {
            Some(t) => r.push((t, ls.subrange(n, story_end(ls, n)))),
            None => r,
        }
    }
}

pub open spec fn story_spans(ls: Seq<Seq<char>>) -> Seq<StorySpan> {
    story_spans_upto(ls, ls.len() as int)
}

/// Where the opening `as a` / `as an` that starts at `i` ends, with the
/// whitespace after it (on lower-cased text).
pub open spec fn intro_end(t: Seq<char>, i: int) -> Option<int> {
    let j = i + 2 + run_of(t.skip(i + 2), SPACE);
    if occurs_at(t, "as"@, i) && j > i + 2 && j < t.len() && t[j] == 'a' {
        if j + 1 < t.len() && t[j + 1] == 'n' && run_of(t.skip(j + 2), SPACE) > 0 {
            Some(j + 2 + run_of(t.skip(j + 2), SPACE))
        } else if run_of(t.skip(j + 1), SPACE) > 0 {
            Some(j + 1 + run_of(t.skip(j + 1), SPACE))
        } else {
            None
        }
    } else {
        None
    }
}

/// Where the phrase `<w1> <w2>`, with whitespace before, between and after
/// its words, ends when it starts at `i`.
pub open spec fn phrase_end(t: Seq<char>, i: int, w1: Seq<char>, w2: Seq<char>) -> Option<int> {
    let b = i + run_of(t.skip(i), SPACE) + w1.len();
    let d = b + run_of(t.skip(b), SPACE) + w2.len();
    if run_of(t.skip(i), SPACE) > 0 && occurs_at(t, w1, i + run_of(t.skip(i), SPACE)) && run_of(
        t.skip(b),
        SPACE,
    ) > 0 && occurs_at(t, w2, b + run_of(t.skip(b), SPACE)) && run_of(t.skip(d), SPACE) > 0 {
        Some(d + run_of(t.skip(d), SPACE))
    } else {
        None
    }
}

/// The first position at or after `i` where the opening stands.
pub open spec fn first_intro(t: Seq<char>, i: int) -> Option<(int, int)>
    decreases t.len() - i,
{
    if i < 0 || i >= t.len() {
        None
    } else {
        match intro_end(t, i) {
            Some(e) => Some((i, e)),
            None => first_intro(t, i + 1),
        }
    }
}

/// The first position at or after `i` where the phrase stands.
pub open spec fn first_phrase(t: Seq<char>, i: int, w1: Seq<char>, w2: Seq<char>) -> Option<(int, int)>
    decreases t.len() - i,
{
    if i < 0 || i >= t.len() {
        None
    } else {
        match phrase_end(t, i, w1, w2) {
            Some(e) => Some((i, e)),
            None => first_phrase(t, i + 1, w1, w2),
        }
    }
}

pub open spec fn drop_comma(s: Seq<char>) -> Seq<char> {
    if s.len() > 0 && s.last() == ',' {
        s.drop_last()
    } else {
        s
    }
}

/// The persona, want and benefit of a line `As a <persona>, I want <want> so
/// that <benefit>.`, matched without regard to ASCII case. Each part must be
/// non-empty; the benefit runs to the first `.` or the end of the line.
pub open spec fn story_triple(l: Seq<char>) -> Option<(Seq<char>, Seq<char>, Seq<char>)> {
    let t = lower(l);
    match first_intro(t, 0) {
        Some((_, p)) => match first_phrase(t, p + 1, "i"@, "want"@) {
            Some((a, e1)) => match first_phrase(t, e1 + 1, "so"@, "that"@) {
                Some((b, e2)) => {
                    let benefit = trim(before_char(l.skip(e2), '.'));
                    if benefit.len() > 0 {
                        Some(
                            (
                                trim(drop_comma(l.subrange(p, a))),
                                trim(l.subrange(e1, b)),
                                benefit,
                            ),
                        )
                    } else {
                        None
                    }
                },
                None => None,
            },
            None => None,
        },
        None => None,
    }
}

/// The triple of the first body line that states one.
pub open spec fn first_triple(ls: Seq<Seq<char>>, k: int) -> Option<(Seq<char>, Seq<char>, Seq<char>)>
    decreases ls.len() - k,
{
    if k < 0 || k >= ls.len() {
        None
    } else {
        match story_triple(ls[k]) {
            Some(x) => Some(x),
            None => first_triple(ls, k + 1),
        }
    }
}

/// The first line at or after `k` that mentions the acceptance criteria.
pub open spec fn criteria_line(ls: Seq<Seq<char>>, k: int) -> Option<int>
    decreases ls.len() - k,
{
    if k < 0 || k >= ls.len() {
        None
    } else if find_from(ls[k], "Acceptance Criteria"@, 0) is Some {
        Some(k)
    } else {
        criteria_line(ls, k + 1)
    }
}

/// The first heading line at or after `j`, or the number of lines.
pub open spec fn next_heading(ls: Seq<Seq<char>>, j: int) -> int
    decreases ls.len() - j,
{
    if j < 0 || j >= ls.len() {
        ls.len() as int
    } else if is_heading(ls[j]) {
        j
    } else {
        next_heading(ls, j + 1)
    }
}

/// The acceptance criteria: the list items of the lines that follow the line
/// mentioning them, up to the next heading.
pub open spec fn criteria_of(ls: Seq<Seq<char>>) -> Seq<Seq<char>> {
    match criteria_line(ls, 0) {
        Some(k) => items_of_lines(ls.subrange(k + 1, next_heading(ls, k + 1))),
        None => Seq::<Seq<char>>::empty(),
    }
}

/// The identifier of the `n`-th story.
pub open spec fn story_id(n: nat) -> Seq<char> {
    "US-"@ + zero_pad(decimal(n), 3)
}

pub open spec fn is_story_of(s: UserStory, n: nat, title: Seq<char>, body: Seq<Seq<char>>, now: i64) -> bool {
    &&& s.id@ == story_id(n)
    &&& s.title@ == title
    &&& match first_triple(body, 0) {
        Some((p, w, b)) => s.persona@ == p && s.want@ == w && s.benefit@ == b,
        None => s.persona@ == "user"@ && s.want@ == title && s.benefit@ == "value is delivered"@,
    }
    &&& s.description is None
    &&& texts(s.acceptance_criteria@) == criteria_of(body)
    &&& s.story_points is None
    &&& s.priority == Priority::Medium
    &&& s.epic_id is None
    &&& s.tasks@.len() == 0
    &&& s.created_at == now
    &&& s.updated_at == now
}

fn is_story_boundary_exec(l: &Vec<char>) -> (r: bool)
    ensures
        r == is_story_boundary(l@),
{
    hash_run_exec(l) == 2 && l.len() > 2 && is_space_exec(l[2])
}

fn story_title_exec(l: &Vec<char>) -> (r: Option<String>)
    ensures
        opt_view(r) == story_title(l@),
{
    if !is_story_boundary_exec(l) {
        return None;
    }
    let (a, b) = trim_bounds(l, 2, l.len());
    assert(l@.subrange(2, l.len() as int) =~= l@.skip(2));
    if a < b {
        Some(string_of(l, a, b))
    } else {
        None
    }
}

fn intro_end_exec(t: &Vec<char>, i: usize) -> (r: Option<usize>)
    ensures
        r matches Some(e) ==> intro_end(t@, i as int) == Some(e as int),
        r is None ==> intro_end(t@, i as int) is None,
{
    let as_word = chars_of("as");
    proof {
        reveal_strlit("as");
    }
    if i > t.len() || t.len() - i < 2 || !occurs_at_exec(t, &as_word, i) {
        return None;
    }
    let j = i + 2 + run_exec(t, i + 2, SPACE);
    if j == i + 2 || j >= t.len() || t[j] != 'a' {
        return None;
    }
    if j + 1 < t.len() && t[j + 1] == 'n' {
        let s = run_exec(t, j + 2, SPACE);
        if s > 0 {
            return Some(j + 2 + s);
        }
    }
    let s = run_exec(t, j + 1, SPACE);
    if s > 0 {
        Some(j + 1 + s)
    } else {
        None
    }
}

fn phrase_end_exec(t: &Vec<char>, i: usize, w1: &Vec<char>, w2: &Vec<char>) -> (r: Option<usize>)
    requires
        i <= t.len(),
    ensures
        r matches Some(e) ==> phrase_end(t@, i as int, w1@, w2@) == Some(e as int),
        r is None ==> phrase_end(t@, i as int, w1@, w2@) is None,
{
    let a = run_exec(t, i, SPACE);
    if a == 0 || !occurs_at_exec(t, w1, i + a) {
        return None;
    }
    let b = i + a + w1.len();
    let c = run_exec(t, b, SPACE);
    if c == 0 || !occurs_at_exec(t, w2, b + c) {
        return None;
    }
    let d = b + c + w2.len();
    let e = run_exec(t, d, SPACE);
    if e == 0 {
        return None;
    }
    Some(d + e)
}

fn first_intro_exec(t: &Vec<char>) -> (r: Option<(usize, usize)>)
    ensures
        r matches Some(p) ==> first_intro(t@, 0) == Some((p.0 as int, p.1 as int)) && p.1 <= t.len(),
        r is None ==> first_intro(t@, 0) is None,
{
    let mut i: usize = 0;
    while i < t.len()
        invariant
            i <= t.len(),
            first_intro(t@, 0) == first_intro(t@, i as int),
        decreases t.len() - i,
    {
        match intro_end_exec(t, i) {
            Some(e) => {
                proof {
                    lemma_intro_bound(t@, i as int);
                }
                return Some((i, e));
            },
            None => {},
        }
        i = i + 1;
    }
    None
}

proof fn lemma_run_bound(s: Seq<char>, k: u8)
    ensures
        run_of(s, k) <= s.len(),
    decreases s.len(),
{
    if s.len() > 0 {
        lemma_run_bound(s.drop_first(), k);
    }
}

proof fn lemma_intro_bound(t: Seq<char>, i: int)
    requires
        intro_end(t, i) is Some,
    ensures
        intro_end(t, i)->0 <= t.len(),
{
    let j = i + 2 + run_of(t.skip(i + 2), SPACE);
    lemma_run_bound(t.skip(j + 2), SPACE);
    lemma_run_bound(t.skip(j + 1), SPACE);
}

proof fn lemma_phrase_bound(t: Seq<char>, i: int, w1: Seq<char>, w2: Seq<char>)
    requires
        0 <= i <= t.len(),
        phrase_end(t, i, w1, w2) is Some,
    ensures
        i <= phrase_end(t, i, w1, w2)->0 <= t.len(),
{
    let b = i + run_of(t.skip(i), SPACE) + w1.len();
    let d = b + run_of(t.skip(b), SPACE) + w2.len();
    lemma_run_bound(t.skip(d), SPACE);
}

fn first_phrase_exec(t: &Vec<char>, from: usize, w1: &Vec<char>, w2: &Vec<char>) -> (r: Option<(usize, usize)>)
    ensures
        r matches Some(p) ==> first_phrase(t@, from as int, w1@, w2@) == Some((p.0 as int, p.1 as int))
            && from <= p.0 <= p.1 <= t.len(),
        r is None ==> first_phrase(t@, from as int, w1@, w2@) is None,
{
    let mut i = from;
    while i < t.len()
        invariant
            from <= i,
            first_phrase(t@, from as int, w1@, w2@) == first_phrase(t@, i as int, w1@, w2@),
        decreases t.len() - i,
    {
        match phrase_end_exec(t, i, w1, w2) {
            Some(e) => {
                proof {
                    lemma_phrase_bound(t@, i as int, w1@, w2@);
                }
                return Some((i, e));
            },
            None => {},
        }
        i = i + 1;
    }
    None
}

fn lower_vec(l: &Vec<char>) -> (r: Vec<char>)
    ensures
        r@ == lower(l@),
{
    let mut r: Vec<char> = Vec::new();
    let mut i: usize = 0;
    while i < l.len()
        invariant
            i <= l.len(),
            r@ == lower(l@.take(i as int)),
        decreases l.len() - i,
    {
        r.push(ascii_lower_exec(l[i]));
        assert(r@ =~= lower(l@.take(i + 1)));
        i = i + 1;
    }
    assert(l@.take(l.len() as int) =~= l@);
    r
}

/// The persona, want and benefit stated by the line, if it states them.
pub fn story_triple_exec(l: &Vec<char>) -> (r: Option<(String, String, String)>)
    ensures
        r matches Some(x) ==> story_triple(l@) == Some((x.0@, x.1@, x.2@)),
        r is None ==> story_triple(l@) is None,
{
    let t = lower_vec(l);
    let (_, p) = match first_intro_exec(&t) {
        Some(x) => x,
        None => {
            return None;
        },
    };
    if p >= t.len() {
        assert(first_phrase(t@, p + 1, "i"@, "want"@) is None);
        return None;
    }
    let (a, e1) = match first_phrase_exec(&t, p + 1, &chars_of("i"), &chars_of("want")) {
        Some(x) => x,
        None => {
            return None;
        },
    };
    if e1 >= t.len() {
        assert(first_phrase(t@, e1 + 1, "so"@, "that"@) is None);
        return None;
    }
    let (b, e2) = match first_phrase_exec(&t, e1 + 1, &chars_of("so"), &chars_of("that")) {
        Some(x) => x,
        None => {
            return None;
        },
    };
    let rest = copy_range(l, e2, l.len());
    assert(rest@ =~= l@.skip(e2 as int));
    let n = crate::tasks::position_of(&rest, '.');
    let (c, d) = trim_bounds(&rest, 0, n);
    assert(rest@.subrange(0, n as int) =~= rest@.take(n as int));
    if c == d {
        return None;
    }
    let benefit = string_of(&rest, c, d);
    let mut pe = a;
    if pe > p && l[pe - 1] == ',' {
        pe = pe - 1;
    }
    assert(l@.subrange(p as int, pe as int) =~= drop_comma(l@.subrange(p as int, a as int)));
    let (pa, pb) = trim_bounds(l, p, pe);
    let (w1, w2) = trim_bounds(l, e1, b);
    Some((string_of(l, pa, pb), string_of(l, w1, w2), benefit))
}

/// The triple of the first of the lines `ls[lo..hi]` that states one.
fn first_triple_exec(ls: &Vec<Vec<char>>, lo: usize, hi: usize) -> (r: Option<(String, String, String)>)
    requires
        lo <= hi <= ls.len(),
    ensures
        r matches Some(x) ==> first_triple(views(ls@).subrange(lo as int, hi as int), 0) == Some(
            (x.0@, x.1@, x.2@),
        ),
        r is None ==> first_triple(views(ls@).subrange(lo as int, hi as int), 0) is None,
{
    let ghost sub = views(ls@).subrange(lo as int, hi as int);
    let mut k = lo;
    while k < hi
        invariant
            lo <= k <= hi <= ls.len(),
            sub == views(ls@).subrange(lo as int, hi as int),
            first_triple(sub, 0) == first_triple(sub, k - lo),
        decreases hi - k,
    {
        assert(sub[k - lo] == ls@[k as int]@);
        match story_triple_exec(&ls[k]) {
            Some(x) => {
                return Some(x);
            },
            None => {},
        }
        k = k + 1;
    }
    None
}

/// The acceptance criteria stated by the lines `ls[lo..hi]`.
fn criteria_exec(ls: &Vec<Vec<char>>, lo: usize, hi: usize) -> (r: Vec<String>)
    requires
        lo <= hi <= ls.len(),
    ensures
        texts(r@) == criteria_of(views(ls@).subrange(lo as int, hi as int)),
{
    let ghost sub = views(ls@).subrange(lo as int, hi as int);
    let marker = chars_of("Acceptance Criteria");
    let mut k = lo;
    while k < hi && find_from_exec(&ls[k], &marker, 0).is_none()
        invariant
            lo <= k <= hi <= ls.len(),
            sub == views(ls@).subrange(lo as int, hi as int),
            marker@ == "Acceptance Criteria"@,
            criteria_line(sub, 0) == criteria_line(sub, k - lo),
        decreases hi - k,
    {
        assert(sub[k - lo] == ls@[k as int]@);
        k = k + 1;
    }
    if k == hi {
        let r: Vec<String> = Vec::new();
        assert(texts(r@) =~= Seq::<Seq<char>>::empty());
        return r;
    }
    assert(sub[k - lo] == ls@[k as int]@);
    let mut e = k + 1;
    while e < hi && hash_run_exec(&ls[e]) == 0
        invariant
            lo <= k < e <= hi <= ls.len(),
            sub == views(ls@).subrange(lo as int, hi as int),
            next_heading(sub, k - lo + 1) == next_heading(sub, e - lo),
        decreases hi - e,
    {
        assert(sub[e - lo] == ls@[e as int]@);
        e = e + 1;
    }
    if e < hi {
        assert(sub[e - lo] == ls@[e as int]@);
    }
    let part = copy_lines(ls, k + 1, e);
    assert(views(part@) =~= sub.subrange(k - lo + 1, e - lo));
    items_of_lines_exec(&part)
}

/// The lines `ls[lo..hi]`.
fn copy_lines(ls: &Vec<Vec<char>>, lo: usize, hi: usize) -> (r: Vec<Vec<char>>)
    requires
        lo <= hi <= ls.len(),
    ensures
        views(r@) == views(ls@).subrange(lo as int, hi as int),
{
    let mut r: Vec<Vec<char>> = Vec::new();
    let mut k = lo;
    while k < hi
        invariant
            lo <= k <= hi <= ls.len(),
            views(r@) == views(ls@).subrange(lo as int, k as int),
        decreases hi - k,
    {
        let line = &ls[k];
        let c = copy_range(line, 0, line.len());
        assert(line@.subrange(0, line.len() as int) =~= line@);
        let ghost before = r@;
        r.push(c);
        assert(views(r@) =~= views(before).push(line@));
        assert(views(r@) =~= views(ls@).subrange(lo as int, k + 1));
        k = k + 1;
    }
    r
}

/// The identifier of the `n`-th story: `US-` and `n` padded to three digits.
pub fn story_id_exec(n: usize) -> (r: String)
    ensures
        r@ == story_id(n as nat),
{
    let mut id = text_of("US-");
    let digits = pad3(decimal_exec(n as u128));
    append_str(&mut id, digits.as_str());
    id
}

fn pad3(s: String) -> (r: String)
    ensures
        r@ == zero_pad(s@, 3),
    decreases 3 - s@.len(),
{
    let v = chars_of(s.as_str());
    if v.len() >= 3 {
        s
    } else {
        let mut t = text_of("0");
        append_str(&mut t, s.as_str());
        proof {
            reveal_strlit("0");
            assert(t@ =~= seq!['0'].add(s@));
        }
        pad3(t)
    }
}

/// The story numbered `n`, titled `title`, from the lines `ls[lo..hi]` of its
/// body. Without an `As a ..., I want ... so that ...` line the persona is
/// `user`, the want is the title and the benefit `value is delivered`.
fn build_story(n: usize, title: String, ls: &Vec<Vec<char>>, lo: usize, hi: usize, now: i64) -> (r: UserStory)
    requires
        lo <= hi <= ls.len(),
    ensures
        is_story_of(r, n as nat, title@, views(ls@).subrange(lo as int, hi as int), now),
{
    let (persona, want, benefit) = match first_triple_exec(ls, lo, hi) {
        Some(x) => x,
        None => (text_of("user"), title.clone(), text_of("value is delivered")),
    };
    UserStory {
        id: story_id_exec(n),
        title,
        persona,
        want,
        benefit,
        description: None,
        acceptance_criteria: criteria_exec(ls, lo, hi),
        story_points: None,
        priority: Priority::Medium,
        epic_id: None,
        tasks: Vec::new(),
        created_at: now,
        updated_at: now,
    }
}

/// Every user story in a stories file, in document order. A story opens with
/// a `## ` heading and runs to the next one; the `k`-th story found is
/// numbered `k`.
pub fn extract_user_stories(content: &str, now: i64) -> (r: Vec<UserStory>)
    ensures
        r.len() == story_spans(lines(content@)).len(),
        forall|i: int|
            0 <= i < r.len() ==> #[trigger] is_story_of(
                r@[i],
                (i + 1) as nat,
                story_spans(lines(content@))[i].0,
                story_spans(lines(content@))[i].1,
                now,
            ),
{
    let ls = split_lines(&chars_of(content));
    let ghost vs = views(ls@);
    let mut r: Vec<UserStory> = Vec::new();
    let mut k: usize = 0;
    while k < ls.len()
        invariant
            k <= ls.len(),
            vs == views(ls@),
            r.len() == story_spans_upto(vs, k as int).len(),
            r.len() <= k,
            forall|i: int|
                0 <= i < r.len() ==> #[trigger] is_story_of(
                    r@[i],
                    (i + 1) as nat,
                    story_spans_upto(vs, k as int)[i].0,
                    story_spans_upto(vs, k as int)[i].1,
                    now,
                ),
        decreases ls.len() - k,
    {
        assert(vs[k as int] == ls@[k as int]@);
        match story_title_exec(&ls[k]) {
            Some(title) => {
                let mut e = k + 1;
                while e < ls.len() && !is_story_boundary_exec(&ls[e])
                    invariant
                        k < e <= ls.len(),
                        vs == views(ls@),
                        story_end(vs, k + 1) == story_end(vs, e as int),
                    decreases ls.len() - e,
                {
                    assert(vs[e as int] == ls@[e as int]@);
                    e = e + 1;
                }
                if e < ls.len() {
                    assert(vs[e as int] == ls@[e as int]@);
                }
                let s = build_story(r.len() + 1, title, &ls, k + 1, e, now);
                r.push(s);
            },
            None => {},
        }
        k = k + 1;
    }
    r
}

} // verus!
