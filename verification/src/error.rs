//! Error taxonomy of the engine core.
//!
//! Fatal conditions (no suitable adapter, misaligned shader bytecode) abort a
//! run; resource-state conditions (duplicate or missing asset names) are
//! reported to the caller of the asset store; format conditions (a malformed
//! cache blob, an unsupported file extension) are reported, never coerced.

use vstd::prelude::*;

verus! {

/// A typed error of the engine core.
#[derive(Clone, Copy, Debug, PartialEq, Eq, Structural)]
pub enum EngineError {
    /// No reported memory type satisfies the requirements mask and flags.
    NoSuitableMemoryType,
    /// No physical adapter qualifies for rendering and presentation.
    NoSuitableDevice,
    /// Shader bytecode whose length is not a multiple of four bytes.
    MisalignedShaderBytecode,
    /// An asset load used a name that is already bound to a live resource.
    DuplicateName,
    /// An asset lookup or unload named an entry that does not exist.
    NameNotFound,
    /// No file with a supported extension was found for an asset.
    UnsupportedSource,
    /// A cache blob that no serialized asset could have produced.
    MalformedCache,
    /// The presentation engine handed back an image index out of range.
    InvalidImageIndex,
    /// Acquiring the next swapchain image failed for a reason that is not
    /// staleness.
    AcquireFailed,
}

impl EngineError {
    /// A short description of the error, for the embedding application.
    pub fn message(&self) -> (r: &'static str)
        ensures
            r@ == self.spec_message(),
    {
        match self {
            EngineError::NoSuitableMemoryType => "Failed to find suitable memory type.",
            EngineError::NoSuitableDevice => "Failed to find suitable physical device.",
            EngineError::MisalignedShaderBytecode => "Shader bytecode is not properly aligned.",
            EngineError::DuplicateName => "Name already in use.",
            EngineError::NameNotFound => "Name not found.",
            EngineError::UnsupportedSource => "No supported source file found.",
            EngineError::MalformedCache => "Cache blob is malformed.",
            EngineError::InvalidImageIndex => "Image index out of range.",
            EngineError::AcquireFailed => "Failed to acquire swapchain image.",
        }
    }

    /// The description as a mathematical character sequence.
    pub open spec fn spec_message(&self) -> Seq<char> {
        match self {
            EngineError::NoSuitableMemoryType => "Failed to find suitable memory type."@,
            EngineError::NoSuitableDevice => "Failed to find suitable physical device."@,
            EngineError::MisalignedShaderBytecode => "Shader bytecode is not properly aligned."@,
            EngineError::DuplicateName => "Name already in use."@,
            EngineError::NameNotFound => "Name not found."@,
            EngineError::UnsupportedSource => "No supported source file found."@,
            EngineError::MalformedCache => "Cache blob is malformed."@,
            EngineError::InvalidImageIndex => "Image index out of range."@,
            EngineError::AcquireFailed => "Failed to acquire swapchain image."@,
        }
    }
}

} // verus!
