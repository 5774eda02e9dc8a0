use vstd::prelude::*;

verus! {

/// Kinds of failure a mesh or UV-mesh submission can be rejected with.
///
/// The engine reports these as a small closed set of integer status codes;
/// `add_mesh_error_result` and `status_code` translate between the two forms.
#[derive(Clone, Copy, Debug, PartialEq, Eq, Structural)]
pub enum AddMeshError {
    /// Unspecified error.
    Error,
    /// An index value is at or past the declared vertex count.
    IndexOutOfRange,
    /// A per-face vertex count is below 3.
    InvalidFaceVertexCount,
    /// The index count is not evenly divisible by 3 when faces are triangles.
    InvalidIndexCount,
}

/// The engine's integer status code for a rejection kind. Code 0 stands for
/// success and is taken by no rejection.
pub open spec fn spec_status_code(e: AddMeshError) -> int {
    match e {
        AddMeshError::Error => 1,
        AddMeshError::IndexOutOfRange => 2,
        AddMeshError::InvalidFaceVertexCount => 3,
        AddMeshError::InvalidIndexCount => 4,
    }
}

/// The structured outcome an engine status code stands for.
pub open spec fn spec_status_result(code: int) -> Result<(), AddMeshError>
    recommends
        0 <= code <= 4,
{
    if code == 0 {
        Ok(())
    } else if code == 1 {
        Err(AddMeshError::Error)
    } else if code == 2 {
        Err(AddMeshError::IndexOutOfRange)
    } else if code == 3 {
        Err(AddMeshError::InvalidFaceVertexCount)
    } else {
        Err(AddMeshError::InvalidIndexCount)
    }
}

/// Translates an engine status code into the structured result type.
///
/// Codes outside the closed set 0 through 4 cannot occur under the engine's
/// documented contract; such a code would be an internal-invariant violation,
/// so it is excluded here rather than handled.
pub fn add_mesh_error_result(code: u32) -> (r: Result<(), AddMeshError>)
    requires
        code <= 4,
    ensures
        r == spec_status_result(code as int),
{
    match code {
        0 => Ok(()),
        1 => Err(AddMeshError::Error),
        2 => Err(AddMeshError::IndexOutOfRange),
        3 => Err(AddMeshError::InvalidFaceVertexCount),
        _ => Err(AddMeshError::InvalidIndexCount),
    }
}

/// The engine status code a rejection kind maps back to.
pub fn status_code(e: &AddMeshError) -> (r: u32)
    ensures
        r == spec_status_code(*e),
{
    match e {
        AddMeshError::Error => 1,
        AddMeshError::IndexOutOfRange => 2,
        AddMeshError::InvalidFaceVertexCount => 3,
        AddMeshError::InvalidIndexCount => 4,
    }
}

/// Law: translating a rejection kind to its status code and back yields the
/// same kind; the mapping between kinds and codes loses nothing.
pub proof fn lemma_status_round_trip(e: AddMeshError)
    ensures
        spec_status_result(spec_status_code(e)) == Err::<(), AddMeshError>(e),
{
}

/// Law: distinct rejection kinds carry distinct status codes, and no
/// rejection takes the success code.
pub proof fn lemma_status_codes_distinct(e1: AddMeshError, e2: AddMeshError)
    ensures
        e1 != e2 ==> spec_status_code(e1) != spec_status_code(e2),
        spec_status_code(e1) != 0,
{
}

} // verus!
