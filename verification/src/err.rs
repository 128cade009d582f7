//! The error taxonomy. Every fallible operation of the library returns one
//! of these values; none is retried internally and none is downgraded to a
//! silent no-op.

use vstd::prelude::*;
use crate::shader::StageKind;

verus! {

/// One error value per failure condition of the resource manager. The
/// windowing and image-decoding variants are produced by the unverified
/// glue around the library; the shader, uniform and texture variants are
/// produced by the library itself.
#[derive(Debug, PartialEq, Eq)]
pub enum Error {
    /// Initialising the windowing collaborator failed.
    ContextInitFailed(String),
    /// The window or its graphics context could not be created.
    WindowOrContextCreationFailed,
    /// A required graphics entry point could not be resolved.
    FunctionLoadFailed(String),
    /// Allocating a shader-stage resource failed; carries the stage kind.
    StageCreationFailed(StageKind),
    /// Compiling a shader stage failed; carries the stage kind and the
    /// compiler's diagnostic text (bounded by the caller's buffer).
    StageCompilationFailed(StageKind, String),
    /// Allocating the program resource failed.
    ProgramCreationFailed,
    /// Linking the program failed; carries the linker's diagnostic text.
    ProgramLinkFailed(String),
    /// A uniform name was not found in the linked program.
    UniformNotFound(String),
    /// A handle-derived texture unit fell outside the hardware range;
    /// carries the texture handle.
    TextureUnitOutOfRange(u32),
    /// A decoded image had a channel count the library does not support;
    /// carries that channel count.
    UnsupportedImageFormat(u8),
    /// The image-decoding collaborator failed.
    ImageDecodeFailed(String),
}

} // verus!
