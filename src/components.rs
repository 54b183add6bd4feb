//! The component grammar: one markdown file per component, named after it.
use vstd::prelude::*;
use crate::markdown::{
    extract_items, extract_section, is_markdown_name, list_items, section, texts, top_title,
    top_title_exec,
};
use crate::models::{Component, ComponentType};
use crate::text::{chars_of, push_char, string_of, text_of};

verus! {

pub open spec fn hyphenate(s: Seq<char>) -> Seq<char> {
    s.map_values(|c: char| if c == '_' { '-' } else { c })
}

/// The identifier of the component described by the file with this stem.
pub open spec fn component_id(stem: Seq<char>) -> Seq<char> {
    "comp-"@ + hyphenate(stem)
}

/// The items of the named section, or none when it is absent.
pub open spec fn section_items(text: Seq<char>, name: Seq<char>) -> Seq<Seq<char>> {
    match section(text, name) {
        Some(b) => list_items(b),
        None => Seq::<Seq<char>>::empty(),
    }
}

/// The body of the named section, or the empty text when it is absent.
pub open spec fn section_or_empty(text: Seq<char>, name: Seq<char>) -> Seq<char> {
    match section(text, name) {
        Some(b) => b,
        None => Seq::<char>::empty(),
    }
}

/// The description: the Overview section, else the Purpose section.
pub open spec fn component_description(text: Seq<char>) -> Seq<char> {
    match section(text, "Overview"@) {
        Some(d) => d,
        None => section_or_empty(text, "Purpose"@),
    }
}

pub open spec fn is_component_of(c: Component, stem: Seq<char>, text: Seq<char>, now: i64) -> bool {
    &&& c.id@ == component_id(stem)
    &&& c.name@ == match top_title(text) {
        Some(t) => t,
        None => component_id(stem),
    }
    &&& c.component_type == ComponentType::Module
    &&& c.description@ == component_description(text)
    &&& texts(c.dependencies@) == section_items(text, "Dependencies"@)
    &&& c.interfaces@.len() == 0
    &&& c.tech_stack@.len() == 0
    &&& c.owner is None
    &&& c.documentation_url is None
    &&& c.repository_url is None
    &&& c.created_at == now
    &&& c.updated_at == now
    &&& c.metadata@.len() == 0
}

/// The stem of a markdown file name: the name without `.md`.
pub fn markdown_stem(name: &str) -> (r: String)
    requires
        is_markdown_name(name@),
    ensures
        r@ == name@.subrange(0, name@.len() - 3),
{
    let v = chars_of(name);
    string_of(&v, 0, v.len() - 3)
}

/// The items of the section titled `name`, or none when it is absent.
pub fn section_items_exec(content: &str, name: &str) -> (r: Vec<String>)
    ensures
        texts(r@) == section_items(content@, name@),
{
    match extract_section(content, name) {
        Some(b) => extract_items(b.as_str()),
        None => {
            let r: Vec<String> = Vec::new();
            assert(texts(r@) =~= Seq::<Seq<char>>::empty());
            r
        },
    }
}

/// The body of the section titled `name`, or the empty text.
pub fn section_or_empty_exec(content: &str, name: &str) -> (r: String)
    ensures
        r@ == section_or_empty(content@, name@),
{
    match extract_section(content, name) {
        Some(b) => b,
        None => String::new(),
    }
}

/// The component record of the file with stem `file_stem` and text `content`.
/// Its identifier is `comp-` and the stem with `_` turned into `-`; its name
/// is the document's `# ` title when there is one, else the identifier.
pub fn extract_component(file_stem: &str, content: &str, now: i64) -> (r: Component)
    ensures
        is_component_of(r, file_stem@, content@, now),
{
    let stem = chars_of(file_stem);
    let mut id = text_of("comp-");
    let mut i: usize = 0;
    while i < stem.len()
        invariant
            i <= stem.len(),
            stem@ == file_stem@,
            id@ == "comp-"@ + hyphenate(stem@.take(i as int)),
        decreases stem.len() - i,
    {
        let c = if stem[i] == '_' { '-' } else { stem[i] };
        push_char(&mut id, c);
        assert(hyphenate(stem@.take(i + 1)) =~= hyphenate(stem@.take(i as int)).push(c));
        assert(id@ =~= "comp-"@ + hyphenate(stem@.take(i + 1)));
        i = i + 1;
    }
    assert(stem@.take(stem.len() as int) =~= stem@);
    let text = chars_of(content);
    let name = match top_title_exec(&text) {
        Some(t) => t,
        None => id.clone(),
    };
    let description = match extract_section(content, "Overview") {
        Some(d) => d,
        None => section_or_empty_exec(content, "Purpose"),
    };
    Component {
        id,
        name,
        component_type: ComponentType::Module,
        description,
        dependencies: section_items_exec(content, "Dependencies"),
        interfaces: Vec::new(),
        tech_stack: Vec::new(),
        owner: None,
        documentation_url: None,
        repository_url: None,
        created_at: now,
        updated_at: now,
        metadata: Vec::new(),
    }
}

} // verus!
