//! The content of an embed the bot answers with.
use vstd::prelude::*;

verus! {

/// An embed's texts: its title, its description and, where it has one, its
/// footer.
pub struct Notice {
    pub title: String,
    pub description: String,
    pub footer: Option<String>,
}

/// The text of a footer, where there is one.
pub open spec fn footer_text(footer: Option<String>) -> Option<Seq<char>> {
    match footer {
        Some(f) => Some(f@),
        None => None,
    }
}

/// A notice from its title, description and footer.
pub fn notice(title: &str, description: &str, footer: Option<String>) -> (n: Notice)
    ensures
        n.title@ == title@,
        n.description@ == description@,
        n.footer == footer,
{
    Notice { title: String::from_str(title), description: String::from_str(description), footer }
}

/// A field of an embed: its name, its value, and whether it stands inline.
pub struct Field {
    pub name: String,
    pub value: String,
    pub inline: bool,
}

/// The texts of a field and whether it stands inline.
pub open spec fn field_view(f: Field) -> (Seq<char>, Seq<char>, bool) {
    (f.name@, f.value@, f.inline)
}

/// The texts of a list of fields.
pub open spec fn fields_view(fields: Seq<Field>) -> Seq<(Seq<char>, Seq<char>, bool)> {
    fields.map_values(|f: Field| field_view(f))
}

/// A field from its name, value and placement.
pub fn field(name: &str, value: String, inline: bool) -> (f: Field)
    ensures
        field_view(f) == (name@, value@, inline),
{
    Field { name: String::from_str(name), value, inline }
}

/// `prefix` followed by `name`.
pub fn labelled(prefix: &str, name: &str) -> (s: String)
    ensures
        s@ == prefix@ + name@,
{
    String::from_str(prefix).concat(name)
}

} // verus!
