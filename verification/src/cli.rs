use vstd::prelude::*;

use crate::error::CliError;

verus! {

/// The name of the project metadata file every command requires in its
/// working directory.
pub fn metadata_file_name() -> (name: &'static str)
    ensures
        name@ == "functor.json"@,
{
    "functor.json"
}

/// The working directory a command runs against: the explicit override when
/// one was given, otherwise the process's current directory.
pub fn resolve_working_directory(override_dir: Option<String>, current_dir: String) -> (chosen:
    String)
    ensures
        override_dir matches Some(d) ==> chosen@ == d@,
        override_dir is None ==> chosen@ == current_dir@,
{
    match override_dir {
        Some(d) => d,
        None => current_dir,
    }
}

/// The start-up check every command runs before any other work: it passes
/// exactly when the metadata file is present in the working directory, and
/// reports `MissingMetadata` otherwise, so the caller can exit with a
/// failure before any rendering begins.
pub fn preflight(metadata_present: bool) -> (r: Result<(), CliError>)
    ensures
        r is Ok <==> metadata_present,
        !metadata_present ==> (r matches Err(e) && e == CliError::MissingMetadata),
{
    if metadata_present {
        Ok(())
    } else {
        Err(CliError::MissingMetadata)
    }
}

} // verus!
