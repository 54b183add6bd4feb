//! The decision-record grammar: one markdown file per record, whose name
//! opens with `ADR` and embeds the record's number.
use vstd::prelude::*;
use crate::text::opt_view;
use crate::components::{section_items, section_items_exec, section_or_empty, section_or_empty_exec};
use crate::markdown::{is_markdown_file, is_markdown_name, texts, top_title, top_title_exec};
use crate::models::{Adr, AdrStatus};
use crate::text::{
    append_str, chars_of, is_digit, is_digit_exec, occurs_at, occurs_at_exec, run_exec, run_of,
    starts_with, starts_with_exec, string_of, text_of, zero_pad, DIGIT,
};

verus! {

/// `ADR` followed by a digit at position `i`.
pub open spec fn adr_number_at(s: Seq<char>, i: int) -> bool {
    occurs_at(s, "ADR"@, i) && i + 3 < s.len() && is_digit(s[i + 3])
}

/// The first position at or after `i` where `ADR` and a digit stand.
pub open spec fn first_adr_number(s: Seq<char>, i: int) -> Option<int>
    decreases s.len() - i,
{
    if i < 0 || i >= s.len() {
        None
    } else if adr_number_at(s, i) {
        Some(i)
    } else {
        first_adr_number(s, i + 1)
    }
}

/// Digits without their leading zeros, keeping at least one digit.
pub open spec fn strip_zeros(d: Seq<char>) -> Seq<char>
    decreases d.len(),
{
    if d.len() > 1 && d[0] == '0' {
        strip_zeros(d.drop_first())
    } else {
        d
    }
}

/// The identifier of the record in the file `name`: `ADR` and its number,
/// zero-padded to three digits. Files that are not markdown, do not open with
/// `ADR`, or carry no number are not decision records.
pub open spec fn adr_id_of(name: Seq<char>) -> Option<Seq<char>> {
    if is_markdown_name(name) && starts_with(name, "ADR"@) {
        match first_adr_number(name, 0) {
            Some(i) => {
                let d = name.subrange(i + 3, i + 3 + run_of(name.skip(i + 3), DIGIT));
                Some("ADR"@ + zero_pad(strip_zeros(d), 3))
            },
            None => None,
        }
    } else {
        None
    }
}

pub open spec fn is_adr_of(a: Adr, id: Seq<char>, text: Seq<char>, now: i64) -> bool {
    &&& a.id@ == id
    &&& a.title@ == match top_title(text) {
        Some(t) => t,
        None => Seq::<char>::empty(),
    }
    &&& a.status == AdrStatus::Accepted
    &&& a.context@ == section_or_empty(text, "Context"@)
    &&& a.decision@ == section_or_empty(text, "Decision"@)
    &&& a.consequences@ == section_or_empty(text, "Consequences"@)
    &&& texts(a.alternatives@) == section_items(text, "Alternatives"@)
    &&& a.related_adrs@.len() == 0
    &&& a.created_at == now
    &&& a.updated_at == now
    &&& a.created_by is None
    &&& a.approved_by is None
    &&& a.approved_at is None
}

/// `strip_zeros` on `v[lo..hi]`: the position where the kept digits start.
fn strip_zeros_from(v: &Vec<char>, lo: usize, hi: usize) -> (r: usize)
    requires
        lo <= hi <= v.len(),
    ensures
        lo <= r <= hi,
        v@.subrange(r as int, hi as int) == strip_zeros(v@.subrange(lo as int, hi as int)),
{
    let mut a = lo;
    while hi - a > 1 && v[a] == '0'
        invariant
            lo <= a <= hi <= v.len(),
            strip_zeros(v@.subrange(lo as int, hi as int)) == strip_zeros(
                v@.subrange(a as int, hi as int),
            ),
        decreases hi - a,
    {
        assert(v@.subrange(a as int, hi as int).drop_first() =~= v@.subrange(a + 1, hi as int));
        a = a + 1;
    }
    a
}

/// Prepends zeros to `s` until it has at least `w` characters.
fn zero_pad_exec(s: String, w: usize) -> (r: String)
    ensures
        r@ == zero_pad(s@, w as nat),
    decreases w - s@.len(),
{
    let v = chars_of(s.as_str());
    if v.len() >= w {
        s
    } else {
        let mut t = text_of("0");
        append_str(&mut t, s.as_str());
        proof {
            reveal_strlit("0");
            assert(t@ =~= seq!['0'].add(s@));
        }
        zero_pad_exec(t, w)
    }
}

fn adr_number_at_exec(v: &Vec<char>, adr: &Vec<char>, i: usize) -> (r: bool)
    requires
        adr@ == "ADR"@,
    ensures
        r == adr_number_at(v@, i as int),
{
    proof {
        reveal_strlit("ADR");
    }
    if i >= v.len() || v.len() - i <= 3 {
        return false;
    }
    occurs_at_exec(v, adr, i) && is_digit_exec(v[i + 3])
}

/// The identifier of the decision record held by the file named `name`, or
/// `None` when the file is not one.
pub fn adr_id_from_file_name(name: &str) -> (r: Option<String>)
    ensures
        opt_view(r) == adr_id_of(name@),
{
    let v = chars_of(name);
    let adr = chars_of("ADR");
    proof {
        reveal_strlit("ADR");
    }
    if !is_markdown_file(name) || !starts_with_exec(&v, &adr) {
        return None;
    }
    let mut i: usize = 0;
    while i < v.len() && !adr_number_at_exec(&v, &adr, i)
        invariant
            i <= v.len(),
            adr@ == "ADR"@,
            first_adr_number(v@, 0) == first_adr_number(v@, i as int),
        decreases v.len() - i,
    {
        i = i + 1;
    }
    if i == v.len() {
        return None;
    }
    let d = run_exec(&v, i + 3, DIGIT);
    let start = strip_zeros_from(&v, i + 3, i + 3 + d);
    let digits = string_of(&v, start, i + 3 + d);
    let mut id = text_of("ADR");
    let padded = zero_pad_exec(digits, 3);
    append_str(&mut id, padded.as_str());
    Some(id)
}

/// The decision record `id` held by the text `content`: its `# ` title, its
/// Context, Decision and Consequences sections (empty when absent) and the
/// items of its Alternatives section. Migrated records are `Accepted`.
pub fn extract_adr(id: String, content: &str, now: i64) -> (r: Adr)
    ensures
        is_adr_of(r, id@, content@, now),
{
    let text = chars_of(content);
    let title = match top_title_exec(&text) {
        Some(t) => t,
        None => String::new(),
    };
    Adr {
        id,
        title,
        status: AdrStatus::Accepted,
        context: section_or_empty_exec(content, "Context"),
        decision: section_or_empty_exec(content, "Decision"),
        consequences: section_or_empty_exec(content, "Consequences"),
        alternatives: section_items_exec(content, "Alternatives"),
        related_adrs: Vec::new(),
        created_at: now,
        updated_at: now,
        created_by: None,
        approved_by: None,
        approved_at: None,
    }
}

} // verus!
