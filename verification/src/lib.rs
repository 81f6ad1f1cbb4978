//! A verified bitfield packing engine.
//!
//! The crate packs small typed values (booleans, narrow unsigned and signed
//! integers, enumeration discriminants, and recursively nested groups of the
//! same) into a single minimal-width integer storage cell, and gives typed,
//! bounds-checked access to each packed field, including fields nested
//! arbitrarily deep, through offset-addressed windows.
//!
//! The parts, leaves first:
//!
//! - [`bits`]: the bit codec, extraction and modification of a contiguous
//!   bit range inside a 64-bit-normalized value;
//! - [`width`]: the storage width selector;
//! - [`ubits`] and [`sbits`]: unsigned and signed integer values of an
//!   arbitrary bit width between 1 and 64, with two's-complement sign
//!   extension on the signed side;
//! - [`enums`]: declared enumeration discriminant sets, classified as
//!   exhaustive or sparse;
//! - [`convert`]: the boolean converter and small array utilities;
//! - [`schema`]: field declarations and the layout resolver;
//! - [`piece`]: checked and trusting construction of packed values, and
//!   typed field reads and writes;
//! - [`fields`]: decomposing a packed value into typed field values and
//!   rebuilding it from them;
//! - [`window`]: mutable windows addressing a packed group at a cumulative
//!   bit offset inside a root storage cell.

pub mod bits;
pub mod convert;
pub mod enums;
pub mod fields;
pub mod piece;
pub mod sbits;
pub mod schema;
pub mod ubits;
pub mod width;
pub mod window;
