//! The verified core of a source formatter.
//!
//! [`comments::find_comments`] scans a source text once and returns the extent of every
//! ordinary (non-documentation) comment in it. [`syntax`] holds the part of a program's
//! syntax tree that the formatter lays out, and [`printer`] turns it into text, indented
//! by the depth that a [`context::Context`] counts.

pub mod comments;
pub mod context;
pub mod printer;
pub mod syntax;
pub mod text;
