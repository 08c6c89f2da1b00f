//! Codec for the binary DAT container format that a game client uses to store
//! macros, key bindings, gear sets and interface layout.
//!
//! A container is a 17 byte header, a content region whose bytes may be XOR
//! masked, and null padding up to a fixed footer. [`dat_file::DATFile`] works on
//! an in-memory image of such a file and offers read, seek and write over the
//! content region alone. [`section`] decodes and encodes the tag-length-value
//! records that some file types hold, and [`xiv_macro`] maps groups of such
//! records to macros.
pub mod dat_error;
pub mod dat_file;
pub mod dat_type;
pub mod endian;
pub mod high_level;
pub mod raw_file;
pub mod section;
pub mod text;
pub mod xiv_macro;
