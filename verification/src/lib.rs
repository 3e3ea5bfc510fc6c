//! Recolors a game's portal textures and patches its overlay color
//! constants inside a compiled module.
//!
//! The library holds the verified core: colorization math, texture
//! encoding, layout detection, binary patching and the decisions of the
//! orchestrator. File reads and writes are left to the embedding
//! program, which hands the library plain values.

pub mod apply;
pub mod color;
pub mod colorize;
pub mod encode;
pub mod errors;
pub mod layout;
pub mod patch;

pub use color::Color;
pub use color::Colors;
pub use errors::ApplyError;
pub use errors::EncodeError;
pub use errors::PatchError;
