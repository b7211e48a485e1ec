use rosie::error::ManifestFault;
use rosie::manifest::{load_manifest, manifest_from_fields, manifest_path, Manifest};

fn lights() -> Manifest {
    Manifest { id: String::from("lights"), trigger_phrase: String::from("turn on") }
}

#[test]
fn manifest_round_trips_through_toml() {
    let manifest = lights();
    let mut table = toml::Table::new();
    table.insert(String::from("id"), toml::Value::String(manifest.id.clone()));
    table.insert(
        String::from("trigger_phrase"),
        toml::Value::String(manifest.trigger_phrase.clone()),
    );
    let text = toml::to_string(&table).unwrap();
    assert_eq!(load_manifest(&text), Ok(manifest));
}

#[test]
fn manifest_is_read_from_text() {
    let text = "id = \"lights\"\ntrigger_phrase = \"turn on\"\n";
    assert_eq!(load_manifest(text), Ok(lights()));
}

#[test]
fn manifest_keys_may_come_in_any_order() {
    let text = "trigger_phrase = \"turn on\"\nid = \"lights\"\n";
    assert_eq!(load_manifest(text), Ok(lights()));
}

#[test]
fn manifest_ignores_other_keys() {
    let text = "id = \"lights\"\nversion = 3\ntrigger_phrase = \"turn on\"\n[author]\nname = \"x\"\n";
    assert_eq!(load_manifest(text), Ok(lights()));
}

#[test]
fn manifest_keeps_text_as_written() {
    let text = "id = \"caf\u{e9}\"\ntrigger_phrase = \"  Turn  ON \"\n";
    let manifest = load_manifest(text).unwrap();
    assert_eq!(manifest.id, "caf\u{e9}");
    assert_eq!(manifest.trigger_phrase, "  Turn  ON ");
}

#[test]
fn manifest_may_have_an_empty_trigger_phrase() {
    let manifest = load_manifest("id = \"all\"\ntrigger_phrase = \"\"\n").unwrap();
    assert_eq!(manifest.trigger_phrase, "");
}

#[test]
fn manifest_without_id_is_refused() {
    assert_eq!(load_manifest("trigger_phrase = \"turn on\"\n"), Err(ManifestFault::Id));
}

#[test]
fn manifest_without_trigger_phrase_is_refused() {
    assert_eq!(load_manifest("id = \"lights\"\n"), Err(ManifestFault::TriggerPhrase));
}

#[test]
fn empty_manifest_lacks_its_id_first() {
    assert_eq!(load_manifest(""), Err(ManifestFault::Id));
}

#[test]
fn manifest_id_must_be_a_string() {
    let text = "id = 7\ntrigger_phrase = \"turn on\"\n";
    assert_eq!(load_manifest(text), Err(ManifestFault::Id));
}

#[test]
fn manifest_trigger_phrase_must_be_a_string() {
    let text = "id = \"lights\"\ntrigger_phrase = [\"turn on\"]\n";
    assert_eq!(load_manifest(text), Err(ManifestFault::TriggerPhrase));
}

#[test]
fn manifest_fields_in_a_section_do_not_count() {
    let text = "[app]\nid = \"lights\"\ntrigger_phrase = \"turn on\"\n";
    assert_eq!(load_manifest(text), Err(ManifestFault::Id));
}

#[test]
fn text_that_is_not_toml_is_refused_with_a_report() {
    match load_manifest("id = \"lights\ntrigger_phrase = ") {
        Err(ManifestFault::Syntax { report }) => assert!(!report.is_empty()),
        other => panic!("expected a syntax fault, got {:?}", other),
    }
}

#[test]
fn repeated_key_is_not_toml() {
    let text = "id = \"a\"\nid = \"b\"\ntrigger_phrase = \"x\"\n";
    assert!(matches!(load_manifest(text), Err(ManifestFault::Syntax { .. })));
}

#[test]
fn same_text_gives_the_same_report() {
    let first = load_manifest("id = ");
    let second = load_manifest("id = ");
    assert!(first.is_err());
    assert_eq!(first, second);
}

#[test]
fn fields_make_a_manifest() {
    let made = manifest_from_fields(Some(String::from("lights")), Some(String::from("turn on")));
    assert_eq!(made, Ok(lights()));
}

#[test]
fn missing_fields_are_named_in_order() {
    assert_eq!(manifest_from_fields(None, None), Err(ManifestFault::Id));
    assert_eq!(manifest_from_fields(None, Some(String::from("turn on"))), Err(ManifestFault::Id));
    assert_eq!(
        manifest_from_fields(Some(String::from("lights")), None),
        Err(ManifestFault::TriggerPhrase)
    );
}

#[test]
fn manifest_lies_in_the_app_directory() {
    assert_eq!(manifest_path("apps/lights"), "apps/lights/manifest.toml");
    assert_eq!(manifest_path(""), "/manifest.toml");
}

#[test]
fn special_characters_round_trip_through_toml() {
    let manifests = [
        Manifest { id: String::from("a \"quoted\" id"), trigger_phrase: String::from("say \\n") },
        Manifest { id: String::from("caf\u{e9}"), trigger_phrase: String::from("\u{1F600} on") },
        Manifest { id: String::new(), trigger_phrase: String::from("line\nbreak\ttab") },
    ];
    for manifest in manifests.iter() {
        let mut table = toml::Table::new();
        table.insert(String::from("id"), toml::Value::String(manifest.id.clone()));
        table.insert(
            String::from("trigger_phrase"),
            toml::Value::String(manifest.trigger_phrase.clone()),
        );
        let text = toml::to_string(&table).unwrap();
        assert_eq!(load_manifest(&text).as_ref(), Ok(manifest));
    }
}
