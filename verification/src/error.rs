use vstd::prelude::*;

verus! {

/// Errors raised by geometry construction and GPU resource creation.
#[derive(Clone, Copy, Debug, PartialEq, Eq, Structural)]
pub enum GeometryError {
    /// The vertex scalar count is not a multiple of the attribute stride.
    InvalidVertexData,
    /// The graphics context could not allocate or upload a buffer or
    /// vertex-array object.
    ResourceCreationFailed,
}

/// Errors raised by the command-line pre-flight checks, before any
/// rendering work starts.
#[derive(Clone, Copy, Debug, PartialEq, Eq, Structural)]
pub enum CliError {
    /// The project metadata file is absent from the working directory.
    MissingMetadata,
}

} // verus!
