//! Value types that cross the boundary between the shell's host
//! implementation and its guest-side code: wide-character strings, lists of
//! them, and untyped addresses.

pub mod host;
pub mod pin;
pub mod pointer;
pub mod utf32;
pub mod wstring;
