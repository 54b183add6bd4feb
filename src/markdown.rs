//! The two grammar primitives shared by all document kinds: sections under a
//! heading, and bullet lists.
use vstd::prelude::*;
use crate::text::opt_view;
use crate::text::{
    chars_of, copy_range, is_space, is_space_exec, join_lines, lines, split_lines, starts_with,
    string_from, string_of, trim, trim_bounds, trimmed_string, views,
};

verus! {

/// The number of `#` characters that open the line.
pub open spec fn hash_run(l: Seq<char>) -> nat
    decreases l.len(),
{
    if l.len() > 0 && l[0] == '#' {
        1 + hash_run(l.drop_first())
    } else {
        0
    }
}

/// A heading line opens with at least one `#`; the count is its depth.
pub open spec fn is_heading(l: Seq<char>) -> bool {
    hash_run(l) > 0
}

/// The text of a heading after its `#` marker, trimmed.
pub open spec fn heading_title(l: Seq<char>) -> Seq<char> {
    trim(l.skip(hash_run(l) as int))
}

pub open spec fn is_titled(l: Seq<char>, name: Seq<char>) -> bool {
    is_heading(l) && heading_title(l) == name
}

/// The index of the first line at or after `k` that is a heading titled `name`.
pub open spec fn find_heading(ls: Seq<Seq<char>>, name: Seq<char>, k: int) -> Option<int>
    decreases ls.len() - k,
{
    if k < 0 || k >= ls.len() {
        None
    } else if is_titled(ls[k], name) {
        Some(k)
    } else {
        find_heading(ls, name, k + 1)
    }
}

/// The index of the first line at or after `j` that is a heading of depth at
/// most `depth`, or the number of lines if there is none.
pub open spec fn section_end(ls: Seq<Seq<char>>, depth: nat, j: int) -> int
    decreases ls.len() - j,
{
    if j < 0 || j >= ls.len() {
        ls.len() as int
    } else if is_heading(ls[j]) && hash_run(ls[j]) <= depth {
        j
    } else {
        section_end(ls, depth, j + 1)
    }
}

/// The body of the first section titled `name` among the lines `ls`: the lines
/// after its heading up to the next heading of the same or a shallower depth,
/// joined and trimmed.
pub open spec fn section_of_lines(ls: Seq<Seq<char>>, name: Seq<char>) -> Option<Seq<char>> {
    match find_heading(ls, name, 0) {
        Some(h) => Some(
            trim(join_lines(ls.subrange(h + 1, section_end(ls, hash_run(ls[h]), h + 1)))),
        ),
        None => None,
    }
}

pub open spec fn section(text: Seq<char>, name: Seq<char>) -> Option<Seq<char>> {
    section_of_lines(lines(text), name)
}

pub open spec fn checkbox() -> Seq<char> {
    seq!['[', ' ', ']']
}

/// What a line holds as a list item: after trimming, the text that follows a
/// `-`, `*` or `[ ]` marker, trimmed again.
pub open spec fn bullet_content(l: Seq<char>) -> Option<Seq<char>> {
    let t = trim(l);
    if t.len() > 0 && (t[0] == '-' || t[0] == '*') {
        Some(trim(t.drop_first()))
    } else if starts_with(t, checkbox()) {
        Some(trim(t.skip(3)))
    } else {
        None
    }
}

/// The non-empty list items of the lines, in order.
pub open spec fn items_of_lines(ls: Seq<Seq<char>>) -> Seq<Seq<char>>
    decreases ls.len(),
{
    if ls.len() == 0 {
        Seq::<Seq<char>>::empty()
    } else {
        let rest = items_of_lines(ls.drop_last());
        match bullet_content(ls.last()) {
            Some(c) => if c.len() > 0 {
                rest.push(c)
            } else {
                rest
            },
            None => rest,
        }
    }
}

pub open spec fn list_items(body: Seq<char>) -> Seq<Seq<char>> {
    items_of_lines(lines(body))
}

/// The characters of each string, in order.
pub open spec fn texts(v: Seq<String>) -> Seq<Seq<char>> {
    v.map_values(|s: String| s@)
}

/// The length of the run of `#` that opens `l`.
pub fn hash_run_exec(l: &Vec<char>) -> (r: usize)
    ensures
        r == hash_run(l@),
        r <= l.len(),
{
    let mut n: usize = 0;
    while n < l.len() && l[n] == '#'
        invariant
            n <= l.len(),
            forall|j: int| 0 <= j < n ==> l@[j] == '#',
        decreases l.len() - n,
    {
        n = n + 1;
    }
    proof {
        lemma_hash_run_prefix(l@, n as int);
    }
    n
}

proof fn lemma_hash_run_prefix(l: Seq<char>, n: int)
    requires
        0 <= n <= l.len(),
        forall|j: int| 0 <= j < n ==> l[j] == '#',
        n == l.len() || l[n] != '#',
    ensures
        hash_run(l) == n,
    decreases n,
{
    if n > 0 {
        let t = l.drop_first();
        assert forall|j: int| 0 <= j < n - 1 implies t[j] == '#' by {
            assert(t[j] == l[j + 1]);
        }
        if n - 1 < t.len() {
            assert(t[n - 1] == l[n]);
        }
        lemma_hash_run_prefix(t, n - 1);
    } else if l.len() > 0 {
        assert(l[0] != '#');
    }
}

/// Whether `v[a..b]` holds exactly the characters of `w`.
pub fn range_equals(v: &Vec<char>, a: usize, b: usize, w: &Vec<char>) -> (r: bool)
    requires
        a <= b <= v.len(),
    ensures
        r == (v@.subrange(a as int, b as int) == w@),
{
    if b - a != w.len() {
        assert(v@.subrange(a as int, b as int).len() != w@.len());
        return false;
    }
    let mut k: usize = 0;
    while k < w.len()
        invariant
            a <= b <= v.len(),
            b - a == w.len(),
            k <= w.len(),
            forall|j: int| 0 <= j < k ==> v@[a + j] == w@[j],
        decreases w.len() - k,
    {
        if v[a + k] != w[k] {
            assert(v@.subrange(a as int, b as int)[k as int] != w@[k as int]);
            return false;
        }
        k = k + 1;
    }
    assert(v@.subrange(a as int, b as int) =~= w@);
    true
}

/// Whether the line is a heading titled `name`.
pub fn is_titled_exec(l: &Vec<char>, name: &Vec<char>) -> (r: bool)
    ensures
        r == is_titled(l@, name@),
{
    let h = hash_run_exec(l);
    if h == 0 {
        return false;
    }
    let (a, b) = trim_bounds(l, h, l.len());
    assert(l@.subrange(h as int, l.len() as int) =~= l@.skip(h as int));
    range_equals(l, a, b, name)
}

/// The lines `ls[lo..hi]` joined with newline characters.
pub fn join_range(ls: &Vec<Vec<char>>, lo: usize, hi: usize) -> (r: Vec<char>)
    requires
        lo <= hi <= ls.len(),
    ensures
        r@ == join_lines(views(ls@).subrange(lo as int, hi as int)),
{
    let mut r: Vec<char> = Vec::new();
    let mut k = lo;
    while k < hi
        invariant
            lo <= k <= hi <= ls.len(),
            r@ == join_lines(views(ls@).subrange(lo as int, k as int)),
        decreases hi - k,
    {
        let ghost prev = views(ls@).subrange(lo as int, k as int);
        let ghost next = views(ls@).subrange(lo as int, k + 1);
        assert(next.drop_last() =~= prev);
        assert(next.last() == ls@[k as int]@);
        if k > lo {
            r.push('\n');
        }
        let line = &ls[k];
        let mut j: usize = 0;
        let ghost base = r@;
        while j < line.len()
            invariant
                j <= line.len(),
                r@ == base + line@.take(j as int),
            decreases line.len() - j,
        {
            r.push(line[j]);
            assert(line@.take(j + 1) =~= line@.take(j as int).push(line@[j as int]));
            j = j + 1;
        }
        assert(line@.take(line.len() as int) =~= line@);
        if k > lo {
            assert(r@ =~= join_lines(next));
        } else {
            assert(next.len() == 1);
            assert(r@ =~= join_lines(next));
        }
        k = k + 1;
    }
    r
}

/// Whether the line is a heading of depth at most `depth`.
fn closes_section(l: &Vec<char>, depth: usize) -> (r: bool)
    ensures
        r == (is_heading(l@) && hash_run(l@) <= depth),
{
    let d = hash_run_exec(l);
    d > 0 && d <= depth
}

/// The body of the section titled `section_name` in `content`: the text after
/// that heading up to the next heading of the same or a shallower depth,
/// trimmed; `None` when no heading carries that title.
pub fn extract_section(content: &str, section_name: &str) -> (r: Option<String>)
    ensures
        r matches Some(s) ==> section(content@, section_name@) == Some(s@),
        r is None ==> section(content@, section_name@) is None,
{
    let v = chars_of(content);
    let name = chars_of(section_name);
    let ls = split_lines(&v);
    extract_section_of_lines(&ls, &name)
}

/// `extract_section` on text already split into lines.
pub fn extract_section_of_lines(ls: &Vec<Vec<char>>, name: &Vec<char>) -> (r: Option<String>)
    ensures
        r matches Some(s) ==> section_of_lines(views(ls@), name@) == Some(s@),
        r is None ==> section_of_lines(views(ls@), name@) is None,
{
    let ghost vs = views(ls@);
    let mut h: usize = 0;
    while h < ls.len() && !is_titled_exec(&ls[h], name)
        invariant
            h <= ls.len(),
            vs == views(ls@),
            find_heading(vs, name@, 0) == find_heading(vs, name@, h as int),
        decreases ls.len() - h,
    {
        h = h + 1;
    }
    if h == ls.len() {
        return None;
    }
    let depth = hash_run_exec(&ls[h]);
    let mut e: usize = h + 1;
    while e < ls.len() && !closes_section(&ls[e], depth)
        invariant
            h < e <= ls.len(),
            vs == views(ls@),
            depth == hash_run(vs[h as int]),
            section_end(vs, depth as nat, h + 1) == section_end(vs, depth as nat, e as int),
        decreases ls.len() - e,
    {
        e = e + 1;
    }
    let joined = join_range(ls, h + 1, e);
    proof {
        lemma_full_range(joined@);
        assert(is_titled(vs[h as int], name@));
        assert(find_heading(vs, name@, 0) == Some(h as int));
        assert(section_end(vs, depth as nat, h + 1) == e);
    }
    Some(trimmed_string(&joined, 0, joined.len()))
}

proof fn lemma_full_range(s: Seq<char>)
    ensures
        s.subrange(0, s.len() as int) == s,
{
    assert(s.subrange(0, s.len() as int) =~= s);
}

/// The list item a line holds, if any, as a possibly empty vector.
pub fn bullet_content_exec(l: &Vec<char>) -> (r: Option<Vec<char>>)
    ensures
        r matches Some(c) ==> bullet_content(l@) == Some(c@),
        r is None ==> bullet_content(l@) is None,
{
    let (a, b) = trim_bounds(l, 0, l.len());
    proof {
        lemma_full_range(l@);
    }
    let ghost t = l@.subrange(a as int, b as int);
    if a < b && (l[a] == '-' || l[a] == '*') {
        let (c, d) = trim_bounds(l, a + 1, b);
        assert(l@.subrange(a + 1, b as int) =~= t.drop_first());
        Some(copy_range(l, c, d))
    } else if b - a >= 3 && l[a] == '[' && l[a + 1] == ' ' && l[a + 2] == ']' {
        assert(t.subrange(0, 3) =~= checkbox());
        let (c, d) = trim_bounds(l, a + 3, b);
        assert(l@.subrange(a + 3, b as int) =~= t.skip(3));
        Some(copy_range(l, c, d))
    } else {
        proof {
            if t.len() >= 3 && t.subrange(0, 3) == checkbox() {
                assert(t[0] == t.subrange(0, 3)[0]);
                assert(t[1] == t.subrange(0, 3)[1]);
                assert(t[2] == t.subrange(0, 3)[2]);
            }
        }
        None
    }
}

/// The list items of the lines, in order: the text after each `-`, `*` or
/// `[ ]` marker, trimmed, with empty items left out.
pub fn items_of_lines_exec(ls: &Vec<Vec<char>>) -> (r: Vec<String>)
    ensures
        texts(r@) == items_of_lines(views(ls@)),
{
    let mut r: Vec<String> = Vec::new();
    let mut k: usize = 0;
    while k < ls.len()
        invariant
            k <= ls.len(),
            texts(r@) == items_of_lines(views(ls@).take(k as int)),
        decreases ls.len() - k,
    {
        let ghost next = views(ls@).take(k + 1);
        assert(next.drop_last() =~= views(ls@).take(k as int));
        assert(next.last() == ls@[k as int]@);
        match bullet_content_exec(&ls[k]) {
            Some(c) => {
                if c.len() > 0 {
                    let s = string_from(&c);
                    let ghost before = r@;
                    r.push(s);
                    assert(texts(r@) =~= texts(before).push(s@));
                }
            },
            None => {},
        }
        k = k + 1;
    }
    assert(views(ls@).take(ls.len() as int) =~= views(ls@));
    r
}

/// The bullet items of `body`: each line whose first non-blank character is
/// `-`, `*` or the checkbox `[ ]`, with the marker and surrounding whitespace
/// removed; empty items are dropped and the order is kept.
pub fn extract_items(body: &str) -> (r: Vec<String>)
    ensures
        texts(r@) == list_items(body@),
{
    let v = chars_of(body);
    let ls = split_lines(&v);
    items_of_lines_exec(&ls)
}

} // verus!

verus! {

/// The title given by a first line of the form `# <title>`: a single `#`,
/// whitespace, and a non-blank title, trimmed.
pub open spec fn top_title(text: Seq<char>) -> Option<Seq<char>> {
    let l = lines(text)[0];
    if l.len() >= 2 && l[0] == '#' && is_space(l[1]) && trim(l.skip(1)).len() > 0 {
        Some(trim(l.skip(1)))
    } else {
        None
    }
}

/// A file name with the `.md` extension and a non-empty stem.
pub open spec fn is_markdown_name(name: Seq<char>) -> bool {
    name.len() > 3 && name.subrange(name.len() - 3, name.len() as int) == ".md"@
}

/// `top_title` of `content`.
pub fn top_title_exec(content: &Vec<char>) -> (r: Option<String>)
    ensures
        opt_view(r) == top_title(content@),
{
    let ls = split_lines(content);
    proof {
        crate::text::lemma_split_nonempty(content@, '\n');
    }
    let l = &ls[0];
    assert(l@ == lines(content@)[0]);
    if l.len() >= 2 && l[0] == '#' && is_space_exec(l[1]) {
        let (a, b) = trim_bounds(l, 1, l.len());
        assert(l@.subrange(1, l.len() as int) =~= l@.skip(1));
        if a < b {
            return Some(string_of(l, a, b));
        }
    }
    None
}

/// Whether `name` is a markdown file name: a non-empty stem and `.md`.
pub fn is_markdown_file(name: &str) -> (r: bool)
    ensures
        r == is_markdown_name(name@),
{
    let v = chars_of(name);
    let ext = chars_of(".md");
    proof {
        reveal_strlit(".md");
    }
    if v.len() <= 3 {
        return false;
    }
    range_equals(&v, v.len() - 3, v.len(), &ext)
}

} // verus!
