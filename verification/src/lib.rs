//! A verified demuxer for the FLV media container.
//!
//! The library walks an untrusted byte buffer, validates the framing of the
//! file header and of each tag envelope, and produces typed tag records whose
//! payloads are zero-copy views into the one input buffer. Codec-specific
//! sub-payloads are classified with a closed-set-with-escape pattern: every
//! recognized code maps to a named variant, every other code to an `Unknown`
//! variant that keeps the raw code and bytes, so no input is ever lost.
//!
//! A small logging module models the swappable callback slot of a native
//! codec logging bridge and the pure rendering that bridge performs, so that
//! those decisions are verified even though the process-global registration
//! itself stays outside the library.

pub mod aac;
pub mod audio;
pub mod buffer;
pub mod cursor;
pub mod decimal;
pub mod error;
pub mod file;
pub mod header;
pub mod log;
pub mod tag;

pub use error::FlvError;
