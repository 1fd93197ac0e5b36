use functor_runtime_common::cli::{metadata_file_name, preflight, resolve_working_directory};
use functor_runtime_common::error::CliError;

#[test]
fn preflight_fails_without_metadata() {
    assert_eq!(preflight(false), Err(CliError::MissingMetadata));
}

#[test]
fn preflight_passes_with_metadata() {
    assert_eq!(preflight(true), Ok(()));
}

#[test]
fn metadata_file_name_is_functor_json() {
    assert_eq!(metadata_file_name(), "functor.json");
}

#[test]
fn working_directory_prefers_override() {
    let chosen = resolve_working_directory(
        Some(String::from("/tmp/project")),
        String::from("/home/user"),
    );
    assert_eq!(chosen, "/tmp/project");
}

#[test]
fn working_directory_defaults_to_current() {
    let chosen = resolve_working_directory(None, String::from("/home/user"));
    assert_eq!(chosen, "/home/user");
}
