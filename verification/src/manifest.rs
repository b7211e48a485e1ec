//! Manifests: the descriptor that each app carries in its directory.

use crate::error::{FaultView, ManifestFault};
use vstd::prelude::*;
use vstd::string::*;

verus! {

/// The descriptor of one app: its identifier, and the phrase that a command
/// must begin with to reach it.
#[derive(Debug, Clone, PartialEq, Eq)]
pub struct Manifest {
    pub id: String,
    pub trigger_phrase: String,
}

/// The mathematical content of a [`Manifest`].
pub struct ManifestView {
    pub id: Seq<char>,
    pub trigger_phrase: Seq<char>,
}

impl View for Manifest {
    type V = ManifestView;

    open spec fn view(&self) -> ManifestView {
        ManifestView { id: self.id@, trigger_phrase: self.trigger_phrase@ }
    }
}

#[verifier::external_type_specification]
#[verifier::external_body]
#[verifier::reject_recursive_types(K)]
#[verifier::reject_recursive_types(V)]
pub struct ExTomlMap<K, V>(toml::map::Map<K, V>);

#[verifier::external_type_specification]
#[verifier::external_body]
pub struct ExTomlValue(toml::Value);

/// What `toml::from_str` makes of a text: the top-level keys of the document
/// whose values are strings, each with its string, or the parser's report
/// where the text is not a TOML document.
pub uninterp spec fn toml_document(text: Seq<char>) -> Result<Map<Seq<char>, Seq<char>>, Seq<char>>;

/// The keys of a TOML table whose values are strings, each with its string.
pub uninterp spec fn string_entries(table: toml::Table) -> Map<Seq<char>, Seq<char>>;

/// `toml::from_str`, at the type `toml::Table`. The crate parses the text as
/// a whole document; the contract only names what comes back, and says that
/// the same text always gives the same table or the same report. An error is
/// handed on as the text that the crate prints for it.
#[verifier::external_body]
fn parse_document(text: &str) -> (r: Result<toml::Table, String>)
    ensures
        match r {
            Ok(table) => toml_document(text@) == Ok::<_, Seq<char>>(string_entries(table)),
            Err(report) => toml_document(text@) == Err::<Map<Seq<char>, Seq<char>>, _>(report@),
        },
{
    match toml::from_str::<toml::Table>(text) {
        Ok(table) => Ok(table),
        Err(e) => Err(e.to_string()),
    }
}

/// `toml::map::Map::get`, for a value that is a string: the string under
/// `key`, or `None` where the table has no such key or holds another kind of
/// value there.
#[verifier::external_body]
fn string_entry(table: &toml::Table, key: &str) -> (r: Option<String>)
    ensures
        match r {
            Some(s) => string_entries(*table).contains_key(key@) && string_entries(*table)[key@]
                == s@,
            None => !string_entries(*table).contains_key(key@),
        },
{
    match table.get(key) {
        Some(toml::Value::String(s)) => Some(s.clone()),
        Some(toml::Value::Integer(_)) => None,
        Some(toml::Value::Float(_)) => None,
        Some(toml::Value::Boolean(_)) => None,
        Some(toml::Value::Datetime(_)) => None,
        Some(toml::Value::Array(_)) => None,
        Some(toml::Value::Table(_)) => None,
        None => None,
    }
}

/// The value under `key`, if there is one.
pub open spec fn field(strings: Map<Seq<char>, Seq<char>>, key: Seq<char>) -> Option<Seq<char>> {
    if strings.contains_key(key) {
        Some(strings[key])
    } else {
        None
    }
}

/// The manifest that two string fields make, or the first of them that is
/// missing.
pub open spec fn shaped(id: Option<Seq<char>>, trigger_phrase: Option<Seq<char>>) -> Result<
    ManifestView,
    FaultView,
> {
    match (id, trigger_phrase) {
        (None, _) => Err(FaultView::Id),
        (Some(_), None) => Err(FaultView::TriggerPhrase),
        (Some(id), Some(trigger_phrase)) => Ok(ManifestView { id, trigger_phrase }),
    }
}

/// The manifest that a text describes: the text must be a TOML document with
/// string values under `id` and `trigger_phrase`. Other keys are ignored.
pub open spec fn manifest_of(text: Seq<char>) -> Result<ManifestView, FaultView> {
    match toml_document(text) {
        Err(report) => Err(FaultView::Syntax { report }),
        Ok(strings) => shaped(field(strings, "id"@), field(strings, "trigger_phrase"@)),
    }
}

/// Whether a result of loading agrees with what the manifest's text describes.
pub open spec fn agrees(r: Result<Manifest, ManifestFault>, expected: Result<ManifestView, FaultView>) -> bool {
    match (r, expected) {
        (Ok(m), Ok(v)) => m@ == v,
        (Err(f), Err(v)) => f@ == v,
        _ => false,
    }
}

/// Builds a manifest from the two string fields found in a document.
pub fn manifest_from_fields(id: Option<String>, trigger_phrase: Option<String>) -> (r: Result<
    Manifest,
    ManifestFault,
>)
    ensures
        agrees(
            r,
            shaped(
                match id {
                    Some(s) => Some(s@),
                    None => None,
                },
                match trigger_phrase {
                    Some(s) => Some(s@),
                    None => None,
                },
            ),
        ),
{
    match id {
        None => Err(ManifestFault::Id),
        Some(id) => match trigger_phrase {
            None => Err(ManifestFault::TriggerPhrase),
            Some(trigger_phrase) => Ok(Manifest { id, trigger_phrase }),
        },
    }
}

/// Reads a manifest from the text of a `manifest.toml`.
pub fn load_manifest(text: &str) -> (r: Result<Manifest, ManifestFault>)
    ensures
        agrees(r, manifest_of(text@)),
{
    match parse_document(text) {
        Err(report) => Err(ManifestFault::Syntax { report }),
        Ok(table) => {
            let id = string_entry(&table, "id");
            let trigger_phrase = string_entry(&table, "trigger_phrase");
            manifest_from_fields(id, trigger_phrase)
        },
    }
}

/// The path of the manifest inside an app's directory.
pub fn manifest_path(app_dir: &str) -> (path: String)
    ensures
        path@ == app_dir@ + "/manifest.toml"@,
{
    String::from_str(app_dir).concat("/manifest.toml")
}

} // verus!
