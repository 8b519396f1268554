//! A verified core for a small `ls`-style directory lister.
//!
//! The library holds the pure logic of the tool: display-name resolution,
//! hidden-entry filtering, lexicographic ordering of paths, permission and
//! type-glyph rendering, size and timestamp formatting, and the assembly of
//! one output line per entry.  Filesystem access, argument parsing and
//! terminal colouring live outside, in the thin binary around the library.

pub mod digits;
pub mod entry;
pub mod format;
pub mod meta;
pub mod names;
pub mod sys;
