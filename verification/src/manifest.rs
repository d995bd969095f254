//! The name under which the application presents itself, taken from the
//! package manifest. The manifest is TOML, which the `toml` crate reads.

use vstd::prelude::*;
use vstd::string::*;

verus! {

/// A TOML value of the `toml` crate. Nothing of what it holds is visible
/// here; the functions below ask the crate.
#[verifier::external_type_specification]
#[verifier::external_body]
pub struct ExTomlValue(toml::Value);

/// The document that the `toml` crate reads from `text`, or `None` where
/// `text` is no TOML document.
pub uninterp spec fn parsed_document(text: Seq<char>) -> Option<toml::Value>;

/// The value that the table `value` holds under `key`, or `None` where
/// `value` is no table or holds no such key.
pub uninterp spec fn member(value: toml::Value, key: Seq<char>) -> Option<toml::Value>;

/// The text of `value`, or `None` where `value` is no string.
pub uninterp spec fn string_held(value: toml::Value) -> Option<Seq<char>>;

/// Reads a TOML document, as `str::parse::<toml::Value>` does.
///
/// Trusted: the result depends on `text` alone, so it is given the name
/// `parsed_document`. An error of the parser becomes `None`.
#[verifier::external_body]
pub(crate) fn parse_document(text: &str) -> (document: Option<toml::Value>)
    ensures
        document == parsed_document(text@),
{
    match text.parse::<toml::Value>() {
        Ok(value) => Some(value),
        Err(_) => None,
    }
}

/// Looks a key up in a table with `toml::Value::get`.
///
/// Trusted: the result depends on the value and the key alone, so it is
/// given the name `member`.
#[verifier::external_body]
pub(crate) fn get_member<'a>(value: &'a toml::Value, key: &str) -> (found: Option<&'a toml::Value>)
    ensures
        match found {
            Some(inner) => member(*value, key@) == Some(*inner),
            None => member(*value, key@) is None,
        },
{
    value.get(key)
}

/// Takes the text out of a string value with `toml::Value::as_str`.
///
/// Trusted: the result depends on the value alone, so it is given the
/// name `string_held`.
#[verifier::external_body]
pub(crate) fn get_string<'a>(value: &'a toml::Value) -> (found: Option<&'a str>)
    ensures
        match found {
            Some(text) => string_held(*value) == Some(text@),
            None => string_held(*value) is None,
        },
{
    value.as_str()
}

/// The package name that a manifest declares: the string under `name` in
/// the table `package`.
pub open spec fn package_name(manifest: Seq<char>) -> Option<Seq<char>> {
    match parsed_document(manifest) {
        None => None,
        Some(document) => match member(document, "package"@) {
            None => None,
            Some(package) => match member(package, "name"@) {
                None => None,
                Some(name) => string_held(name),
            },
        },
    }
}

/// A package name as it is shown: a space for each underscore.
pub open spec fn spaced(name: Seq<char>) -> Seq<char> {
    name.map_values(|letter: char| if letter == '_' { ' ' } else { letter })
}

/// Turns a package name into the name that is shown.
pub fn display_name(package: &str) -> (shown: String)
    ensures
        shown@ == spaced(package@),
{
    let length = package.unicode_len();
    let mut shown = String::new();
    let mut at: usize = 0;
    while at < length
        invariant
            length == package@.len(),
            at <= length,
            shown@ == spaced(package@.subrange(0, at as int)),
        decreases length - at,
    {
        let ghost before = shown@;
        if package.get_char(at) == '_' {
            shown.append(" ");
            proof {
                reveal_strlit(" ");
                assert(" "@ =~= seq![' ']);
            }
        } else {
            shown.append(package.substring_char(at, at + 1));
        }
        assert(shown@ =~= spaced(package@.subrange(0, at + 1)));
        at = at + 1;
    }
    assert(package@.subrange(0, length as int) =~= package@);
    shown
}

/// The name that the application shows for itself, where the manifest
/// declares a package name.
pub fn app_name_from_cargo_toml(manifest: &str) -> (name: Option<String>)
    ensures
        match name {
            Some(shown) => package_name(manifest@) is Some && shown@ == spaced(
                package_name(manifest@)->0,
            ),
            None => package_name(manifest@) is None,
        },
{
    let document = match parse_document(manifest) {
        Some(document) => document,
        None => {
            return None;
        },
    };
    let package = match get_member(&document, "package") {
        Some(package) => package,
        None => {
            return None;
        },
    };
    let name = match get_member(package, "name") {
        Some(name) => name,
        None => {
            return None;
        },
    };
    match get_string(name) {
        Some(text) => Some(display_name(text)),
        None => None,
    }
}

} // verus!
