use vstd::prelude::*;

verus! {

/// What a TOML document holds under a dotted key, as far as the settings of
/// `Cross.toml` read it: nothing, a string, a boolean, an array (each element
/// the string it holds, or `None` where it holds something else), or a value of
/// another kind.
#[derive(Clone, Debug, PartialEq, Eq)]
pub enum TomlItem {
    Absent,
    Str(String),
    Boolean(bool),
    Array(Vec<Option<String>>),
    Other,
}

/// Whether the `toml` crate's parser accepts `text` as a TOML document.
pub uninterp spec fn toml_parses(text: Seq<char>) -> bool;

/// What the `toml` crate finds under the dotted key `path` of the document `text`,
/// sorted into a `TomlItem`.
pub uninterp spec fn toml_lookup(text: Seq<char>, path: Seq<char>) -> TomlItem;

/// Runs the parser of the `toml` crate (`toml::Parser::new(text).parse()`) and
/// reports whether it returned a table. Trusted: the contract only names the
/// answer; what the parser accepts is the crate's grammar and is not stated here.
#[verifier::external_body]
pub(crate) fn text_parses(text: &str) -> (r: bool)
    ensures
        r == toml_parses(text@),
{
    ::toml::Parser::new(text).parse().is_some()
}

/// Parses `text` with the `toml` crate, looks `path` up with `toml::Value::lookup`
/// and sorts what it finds (`None` from either step is `Absent`). Trusted: the
/// contract names the result as a function of `text` and `path`; how the crate
/// splits a dotted path and walks tables and arrays is not stated here.
#[verifier::external_body]
pub(crate) fn lookup_item(text: &str, path: &str) -> (r: TomlItem)
    ensures
        r == toml_lookup(text@, path@),
{
    let found = match ::toml::Parser::new(text).parse() {
        Some(table) => ::toml::Value::Table(table),
        None => return TomlItem::Absent,
    };
    match found.lookup(path) {
        None => TomlItem::Absent,
        Some(&::toml::Value::String(ref s)) => TomlItem::Str(s.clone()),
        Some(&::toml::Value::Boolean(b)) => TomlItem::Boolean(b),
        Some(&::toml::Value::Array(ref items)) => TomlItem::Array(items.iter().map(|v| match *v {
            ::toml::Value::String(ref s) => Some(s.clone()),
            _ => None,
        }).collect()),
        Some(_) => TomlItem::Other,
    }
}

} // verus!
