//! Core logic for a print-production image tool: probing physical
//! resolution from raw EXIF/JFIF bytes, content fingerprinting,
//! deterministic collision-safe rename planning, and compiling
//! percentage-space layout transforms into exact pixel geometry.

pub mod argfmt;
pub mod byteread;
pub mod dpi;
pub mod exif;
pub mod fingerprint;
pub mod geometry;
pub mod identify;
pub mod jfif;
pub mod numeric;
pub mod pathsplit;
pub mod probe;
pub mod rename;
pub mod replicate;
pub mod text;
pub mod thumbnail;

pub use dpi::Dpi;
pub use dpi::ResolutionUnit;
