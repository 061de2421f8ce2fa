//! The line that shows a value: its debug rendering, closed by one line break.
//!
//! [`line::finish_line`] turns a rendering into the line to write out.
//! Rendering a value with [`core::fmt::Debug`], and writing the line
//! anywhere, are left to the caller.

pub mod line;
