//! The part of a program's syntax tree that the printer lays out.
//!
//! Names, literals and whatever the printer carries through unchanged are held as text.

use vstd::prelude::*;

verus! {

/// What follows the name in a path segment.
#[derive(Debug, PartialEq, Eq)]
pub enum PathArguments {
    /// Nothing, as in `std::fmt`.
    Absent,
    /// Argument types in parentheses and a result type, as in `Fn(A, B) -> C`; each
    /// type as text.
    Parenthesized { inputs: Vec<String>, output: Option<String> },
}

/// One segment of a path: a name and its arguments.
#[derive(Debug, PartialEq, Eq)]
pub struct PathSegment {
    pub ident: String,
    pub arguments: PathArguments,
}

/// A path such as `::std::fmt`.
#[derive(Debug, PartialEq, Eq)]
pub struct Path {
    pub leading_colon: bool,
    pub segments: Vec<PathSegment>,
}

/// One entry of an attribute's list: a nested attribute content, or a literal as text.
#[derive(Debug, PartialEq, Eq)]
pub enum NestedMeta {
    Meta(Meta),
    Lit(String),
}

/// The structured content of an attribute.
#[derive(Debug, PartialEq, Eq)]
pub enum Meta {
    /// A path alone, as in `test`.
    Path(Path),
    /// A path and a literal, as in `path = "x"`.
    NameValue { path: Path, lit: String },
    /// A path and a list, as in `derive(Copy, Clone)`.
    List { path: Path, nested: Vec<NestedMeta> },
}

/// Whether an attribute belongs to the item after it or to the item around it.
#[derive(Debug, Clone, Copy, PartialEq, Eq)]
pub enum AttrStyle {
    /// `#[..]`
    Outer,
    /// `#![..]`
    Inner,
}

/// What stands between the brackets of an attribute.
#[derive(Debug, PartialEq, Eq)]
pub enum AttrBody {
    /// Structured content.
    Meta(Meta),
    /// A path followed by tokens that have no structure the printer knows; the tokens
    /// as text.
    Tokens { path: Path, tokens: String },
}

/// An attribute.
#[derive(Debug, PartialEq, Eq)]
pub struct Attribute {
    pub style: AttrStyle,
    pub body: AttrBody,
}

/// The visibility of an item.
#[derive(Debug, PartialEq, Eq)]
pub enum Visibility {
    /// None written.
    Inherited,
    /// `crate`
    Crate,
    /// `pub`
    Public,
    /// `pub(path)`, or `pub(in path)` where `in_token` is set.
    Restricted { in_token: bool, path: Path },
}

/// What a `use` declaration imports.
#[derive(Debug, PartialEq, Eq)]
pub enum UseTree {
    /// `ident::tree`
    Path { ident: String, tree: Box<UseTree> },
    /// `ident`
    Name(String),
    /// `ident as rename`
    Rename { ident: String, rename: String },
    /// `*`
    Glob,
    /// `{a, b, c}`
    Group(Vec<UseTree>),
}

/// A `use` declaration.
#[derive(Debug, PartialEq, Eq)]
pub struct ItemUse {
    pub attrs: Vec<Attribute>,
    pub vis: Visibility,
    pub leading_colon: bool,
    pub tree: UseTree,
}

/// An `extern crate` declaration.
#[derive(Debug, PartialEq, Eq)]
pub struct ItemExternCrate {
    pub attrs: Vec<Attribute>,
    pub vis: Visibility,
    pub ident: String,
    pub rename: Option<String>,
}

/// An item of a source file.
#[derive(Debug, PartialEq, Eq)]
pub enum Item {
    ExternCrate(ItemExternCrate),
    Use(ItemUse),
    /// An item that the printer does not lay out, as the text to print for it.
    Verbatim(String),
}

/// A source file.
#[derive(Debug, PartialEq, Eq)]
pub struct File {
    pub shebang: Option<String>,
    pub attrs: Vec<Attribute>,
    pub items: Vec<Item>,
}

} // verus!
