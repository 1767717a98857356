use vstd::prelude::*;

verus! {

/// Declares `openxr::sys::Result`, the XR runtime's result code, so that an
/// error can carry it; nothing here looks inside it.
#[verifier::external_type_specification]
#[verifier::external_body]
pub struct ExXrResult(openxr::sys::Result);

/// Errors surfaced by the rendering core.
#[derive(Debug, PartialEq, Eq)]
pub enum HothamError {
    /// An XR runtime call failed with this result.
    OpenXRError(openxr::sys::Result),
    /// A list that must hold at least one element was empty
    /// (for instance, pipeline creation returned no pipeline object).
    EmptyListError,
    /// The version of Vulkan or OpenXR is not supported.
    UnsupportedVersionError,
    /// The data provided is not in a format this operation accepts.
    InvalidFormatError,
    /// The driver rejected a device allocation or object creation;
    /// carries the raw driver result code.
    ResourceCreationFailure(i32),
    /// A fence wait exceeded its bound.
    SynchronizationTimeout,
    /// The skin with this entity id could not be skinned this tick: no joint
    /// references it, or one of its joints has no resolved matrix.
    SkinningTraversalError(u64),
    /// The skin attached to this entity has a number of joints other than
    /// the number its buffer was allocated for.
    JointCountMismatch(u64),
    /// An update would write more elements than a buffer was allocated for.
    BufferCapacityExceeded,
    /// Any other failure, with a description.
    Other(String),
}

pub type HothamResult<T> = Result<T, HothamError>;

/// Maps the raw outcome of a driver object creation to the library's result:
/// a rejected creation becomes a `ResourceCreationFailure` with its code.
pub fn check_created<T>(created: Result<T, i32>) -> (r: HothamResult<T>)
    ensures
        match created {
            Ok(v) => r == Ok::<T, HothamError>(v),
            Err(code) => r == Err::<T, HothamError>(HothamError::ResourceCreationFailure(code)),
        },
{
    match created {
        Ok(v) => Ok(v),
        Err(code) => Err(HothamError::ResourceCreationFailure(code)),
    }
}

} // verus!
