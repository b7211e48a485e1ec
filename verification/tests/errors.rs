use rosie::error::{Error, ManifestFault};

#[test]
fn io_error_names_the_path() {
    let error = Error::Io { path: String::from("apps/lights/manifest.toml") };
    assert_eq!(error.message(), "Error accessing apps/lights/manifest.toml");
}

#[test]
fn unrecognized_command_is_quoted() {
    let error = Error::UnrecognizedCommand { command: String::from("open the door") };
    assert_eq!(error.message(), "Unable to find an app which can handle 'open the door'");
}

#[test]
fn manifest_faults_are_told_apart() {
    let error = Error::Manifest { fault: ManifestFault::Id };
    assert_eq!(error.message(), "Manifest: no string field `id`");
    let error = Error::Manifest { fault: ManifestFault::TriggerPhrase };
    assert_eq!(error.message(), "Manifest: no string field `trigger_phrase`");
    let error =
        Error::Manifest { fault: ManifestFault::Syntax { report: String::from("bad line 2") } };
    assert_eq!(error.message(), "Manifest: bad line 2");
}

#[test]
fn duplicate_id_is_quoted() {
    let error = Error::DuplicateId { id: String::from("lights") };
    assert_eq!(error.message(), "Duplicate app id 'lights'");
}

#[test]
fn script_errors_carry_the_report() {
    let error = Error::ScriptLoad { report: String::from("syntax error") };
    assert_eq!(error.message(), "Script failed to load: syntax error");
    let error = Error::ScriptExecution { report: String::from("boom") };
    assert_eq!(error.message(), "Script failed to run: boom");
}

#[test]
fn empty_fields_give_bare_messages() {
    assert_eq!(Error::Io { path: String::new() }.message(), "Error accessing ");
    assert_eq!(
        Error::UnrecognizedCommand { command: String::new() }.message(),
        "Unable to find an app which can handle ''"
    );
}
