//! The calls this library makes into other crates, with what it relies on
//! of each.
use vstd::prelude::*;

verus! {

/// The string that a TOML document `text` holds under the top-level key
/// `key`, if `text` parses and holds a string there.
pub uninterp spec fn toml_string_entry(text: Seq<char>, key: Seq<char>) -> Option<Seq<char>>;

/// Whether `name` is accepted as a project name.
pub uninterp spec fn project_name_valid(name: Seq<char>) -> bool;

/// Relies on `toml::from_str` (into a `toml::Value`), `toml::Value::get` and
/// `toml::Value::as_str` to read a string entry of a TOML document. The
/// result depends on the text and the key alone.
#[verifier::external_body]
pub(crate) fn toml_string_field(text: &str, key: &str) -> (r: Option<String>)
    ensures
        r is Some <==> toml_string_entry(text@, key@) is Some,
        r is Some ==> r->Some_0@ == toml_string_entry(text@, key@)->Some_0,
{
    let doc: toml::Value = toml::from_str(text).ok()?;
    doc.get(key)?.as_str().map(|s| s.to_string())
}

/// Relies on `shuttle_common::project::ProjectName::is_valid`, which decides
/// from the name alone whether it names a project; it refuses the empty name.
#[verifier::external_body]
pub(crate) fn is_valid_project_name(name: &str) -> (r: bool)
    ensures
        r == project_name_valid(name@),
        name@.len() == 0 ==> !r,
{
    shuttle_common::project::ProjectName::is_valid(name)
}

} // verus!
