//! The decisions of a clipboard library, kept apart from the platform calls.
//!
//! Reading, writing and watching the system clipboard all end in a call into
//! the operating system. Everything around such a call is decided here, on
//! plain values: which error a failed lookup is, which of the strings that a
//! read handed back is the text, when a counter that was read means that the
//! clipboard changed. The caller makes the platform call and hands over what
//! it returned.

pub mod common;
pub mod osx_clipboard;
pub mod windows_clipboard;
