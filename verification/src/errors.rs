//! The error kinds the library reports, each with a human-readable
//! message for the embedding program to surface.

use vstd::prelude::*;

verus! {

/// Failure of the binary patcher.
#[derive(Copy, Clone, PartialEq, Eq, Structural, Debug)]
pub enum PatchError {
    /// The anchor byte sequence was not found in the module.
    PatternNotFound,
    /// A write position lies outside the module.
    OffsetOutOfBounds,
}

impl PatchError {
    /// What `message` returns, as a sequence of characters.
    pub open spec fn spec_message(&self) -> Seq<char> {
        match self {
            PatchError::PatternNotFound => "invalid client.dll"@,
            PatchError::OffsetOutOfBounds => "patch offset out of range"@,
        }
    }

    /// The message shown to the user for this failure.
    pub fn message(&self) -> (r: &'static str)
        ensures
            r@ == self.spec_message(),
    {
        match self {
            PatchError::PatternNotFound => "invalid client.dll",
            PatchError::OffsetOutOfBounds => "patch offset out of range",
        }
    }
}

/// Failure of the texture encoder.
#[derive(Copy, Clone, PartialEq, Eq, Structural, Debug)]
pub enum EncodeError {
    /// The container format only takes power-of-two dimensions up to
    /// 65535, and the image has others.
    InvalidDimensions,
}

impl EncodeError {
    /// What `message` returns, as a sequence of characters.
    pub open spec fn spec_message(&self) -> Seq<char> {
        "texture dimensions must be powers of two"@
    }

    /// The message shown to the user for this failure.
    pub fn message(&self) -> (r: &'static str)
        ensures
            r@ == self.spec_message(),
    {
        "texture dimensions must be powers of two"
    }
}

/// Failure of a whole run, aggregated over both phases.
#[derive(Copy, Clone, PartialEq, Eq, Structural, Debug)]
pub enum ApplyError {
    /// A required marker file is missing under the chosen root.
    InvalidRoot,
    /// One of the three hex color fields does not hold six hex digits.
    InvalidColor,
    /// The patch phase failed.
    Patch(PatchError),
    /// The texture phase failed to encode.
    Encode(EncodeError),
    /// A file could not be read or written.
    Io,
}

impl ApplyError {
    /// What `message` returns, as a sequence of characters.
    pub open spec fn spec_message(&self) -> Seq<char> {
        match self {
            ApplyError::InvalidRoot => "Invalid game dir (pick the folder with hl2.exe"@,
            ApplyError::InvalidColor => "Invalid hex colors"@,
            ApplyError::Patch(e) => e.spec_message(),
            ApplyError::Encode(e) => e.spec_message(),
            ApplyError::Io => "could not read or write a file"@,
        }
    }

    /// The message shown to the user for this failure.
    pub fn message(&self) -> (r: &'static str)
        ensures
            r@ == self.spec_message(),
    {
        match self {
            ApplyError::InvalidRoot => "Invalid game dir (pick the folder with hl2.exe",
            ApplyError::InvalidColor => "Invalid hex colors",
            ApplyError::Patch(e) => e.message(),
            ApplyError::Encode(e) => e.message(),
            ApplyError::Io => "could not read or write a file",
        }
    }
}

} // verus!
