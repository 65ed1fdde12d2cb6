//! Binary settings codec for the CrosKB keyboard remap driver.
//!
//! The driver reads its remap rules from a settings file with a fixed
//! layout: a 17-byte header followed by 73-byte records, every field packed
//! and little-endian. A single misplaced byte changes what the keyboard
//! does, so this crate writes and reads the file by explicit offsets and
//! proves, for every input, what comes out.
//!
//! - [`layout`]: the sizes and offsets, and the check of them.
//! - [`le`]: little-endian integers.
//! - [`model`]: a settings file in memory.
//! - [`codec`]: `encode`, `decode` and `validate_layout`.
//! - [`round_trip`]: the laws of the codec.
//! - [`text`]: names and hexadecimal forms for the editable form.
//! - [`json`]: the editable form of a settings file, and the way from a
//!   settings file to it and back.
//! - [`demo`]: the default table of forty rules.
//!
//! Reading never fails on a value it has no name for: a modifier state or
//! an override other than 0, 1 and 2 is kept as `Unknown` with its number,
//! and written back as that number. A buffer that ends before the last
//! record its header declares is read as far as its complete records go;
//! see [`codec`].

pub mod codec;
pub mod demo;
pub mod json;
pub mod layout;
pub mod le;
pub mod model;
pub mod round_trip;
pub mod text;
