//! What the printer writes, as text: one function for each kind of node.

use vstd::prelude::*;

use crate::context::{deeper_than, indentation};
use crate::syntax::{
    AttrBody, AttrStyle, Attribute, File, Item, ItemExternCrate, ItemUse, Meta, NestedMeta, Path,
    PathArguments, PathSegment, UseTree, Visibility,
};
use crate::text::{joined, texts};

verus! {

/// A text that may be missing; nothing where it is.
pub open spec fn optional_text(text: Option<String>) -> Seq<char> {
    match text {
        Some(text) => text@,
        None => Seq::empty(),
    }
}

/// The word, where the flag is set; nothing where it is not.
pub open spec fn word_if(flag: bool, word: Seq<char>) -> Seq<char> {
    if flag {
        word
    } else {
        Seq::empty()
    }
}

/// Path arguments: nothing, or the argument types in parentheses, separated by a comma
/// and a space, with the result type right behind the closing parenthesis.
pub open spec fn path_arguments_text(arguments: PathArguments) -> Seq<char> {
    match arguments {
        PathArguments::Absent => Seq::empty(),
        PathArguments::Parenthesized { inputs, output } => "("@ + joined(texts(inputs@), ", "@)
            + ")"@ + optional_text(output),
    }
}

/// A path segment: the name, then its arguments.
pub open spec fn segment_text(segment: PathSegment) -> Seq<char> {
    segment.ident@ + path_arguments_text(segment.arguments)
}

/// The texts of path segments, one for one.
pub open spec fn segment_texts(segments: Seq<PathSegment>) -> Seq<Seq<char>> {
    segments.map_values(|segment: PathSegment| segment_text(segment))
}

/// A path: its segments with `::` between them, and before them where the path leads
/// with one.
pub open spec fn path_text(path: Path) -> Seq<char> {
    word_if(path.leading_colon, "::"@) + joined(segment_texts(path.segments@), "::"@)
}

/// The structured content of an attribute: `path`, `path = literal` or `path(a, b)`.
pub open spec fn meta_text(meta: Meta) -> Seq<char>
    decreases meta,
{
    match meta {
        Meta::Path(path) => path_text(path),
        Meta::NameValue { path, lit } => path_text(path) + " = "@ + lit@,
        Meta::List { path, nested } => path_text(path) + "("@ + joined(
            nested_texts(nested@),
            ", "@,
        ) + ")"@,
    }
}

/// One entry of an attribute's list.
pub open spec fn nested_text(nested: NestedMeta) -> Seq<char>
    decreases nested,
{
    match nested {
        NestedMeta::Meta(meta) => meta_text(meta),
        NestedMeta::Lit(lit) => lit@,
    }
}

/// The texts of the entries of an attribute's list, one for one.
pub open spec fn nested_texts(nested: Seq<NestedMeta>) -> Seq<Seq<char>>
    decreases nested,
{
    Seq::new(
        nested.len(),
        |i: int|
            if 0 <= i < nested.len() {
                nested_text(nested[i])
            } else {
                Seq::empty()
            },
    )
}

/// What stands between the brackets of an attribute.
pub open spec fn attr_body_text(body: AttrBody) -> Seq<char> {
    match body {
        AttrBody::Meta(meta) => meta_text(meta),
        AttrBody::Tokens { path, tokens } => path_text(path) + " "@ + tokens@,
    }
}

/// An attribute at a depth: the indentation, `#`, `!` for an inner attribute, and the
/// content in brackets.
pub open spec fn attribute_text(attr: Attribute, depth: nat) -> Seq<char> {
    indentation(depth) + "#"@ + word_if(attr.style == AttrStyle::Inner, "!"@) + "["@
        + attr_body_text(attr.body) + "]"@
}

/// The texts of attributes, one for one.
pub open spec fn attribute_texts(attrs: Seq<Attribute>, depth: nat) -> Seq<Seq<char>> {
    attrs.map_values(|attr: Attribute| attribute_text(attr, depth))
}

/// The attributes of an item, each on a line of its own: each is followed by a line feed.
pub open spec fn attribute_lines(attrs: Seq<Attribute>, depth: nat) -> Seq<char> {
    joined(attrs.map_values(|attr: Attribute| attribute_text(attr, depth) + "\n"@), Seq::empty())
}

/// A visibility: nothing, `crate`, `pub`, `pub(path)` or `pub(in path)`.
pub open spec fn visibility_text(vis: Visibility) -> Seq<char> {
    match vis {
        Visibility::Inherited => Seq::empty(),
        Visibility::Crate => "crate"@,
        Visibility::Public => "pub"@,
        Visibility::Restricted { in_token, path } => "pub("@ + word_if(in_token, "in "@)
            + path_text(path) + ")"@,
    }
}

/// An `extern crate` declaration: its attributes, then on one line the indentation, the
/// visibility, `extern crate`, the name, ` as ` with the new name where it has one, and a
/// semicolon. Nothing stands between the visibility and `extern`.
pub open spec fn extern_crate_text(item: ItemExternCrate, depth: nat) -> Seq<char> {
    attribute_lines(item.attrs@, depth) + indentation(depth) + visibility_text(item.vis)
        + "extern crate "@ + item.ident@ + match item.rename {
        Some(rename) => " as "@ + rename@,
        None => Seq::empty(),
    } + ";"@
}

/// Whether a tree is `*`.
pub open spec fn is_glob(tree: UseTree) -> bool {
    tree is Glob
}

/// Whether a tree is the name `self`.
pub open spec fn is_self(tree: UseTree) -> bool {
    tree matches UseTree::Name(ident) && ident@ == "self"@
}

/// How a group begins: with `self` and `*`, where it holds them, on the line of the
/// opening brace.
pub open spec fn group_head(items: Seq<UseTree>) -> Seq<char> {
    let glob = exists|i: int| 0 <= i < items.len() && is_glob(#[trigger] items[i]);
    let this = exists|i: int| 0 <= i < items.len() && is_self(#[trigger] items[i]);
    if glob && this {
        "self, *,"@
    } else if glob {
        "*,"@
    } else if this {
        "self,"@
    } else {
        Seq::empty()
    }
}

/// What a `use` declaration imports, at a depth.
pub open spec fn use_tree_text(tree: UseTree, depth: nat) -> Seq<char>
    decreases tree, 0nat,
{
    match tree {
        UseTree::Path { ident, tree } => ident@ + "::"@ + use_tree_text(*tree, depth),
        UseTree::Name(ident) => ident@,
        UseTree::Rename { ident, rename } => ident@ + " as "@ + rename@,
        UseTree::Glob => "*"@,
        UseTree::Group(items) => "{"@ + group_head(items@) + group_body(items@, depth) + "}"@,
    }
}

/// The line of one member of a group: four spaces, the member one level deeper, a comma
/// and a line feed, and the indentation of the group. `*` and `self` have no line.
pub open spec fn group_line(item: UseTree, depth: nat) -> Seq<char>
    decreases item, 1nat,
{
    if is_glob(item) || is_self(item) {
        Seq::empty()
    } else {
        "    "@ + use_tree_text(item, deeper_than(depth)) + ",\n"@ + indentation(depth)
    }
}

/// The lines of the members of a group, one for one.
pub open spec fn group_lines(items: Seq<UseTree>, depth: nat) -> Seq<Seq<char>>
    decreases items, 0nat,
{
    Seq::new(
        items.len(),
        |i: int|
            if 0 <= i < items.len() {
                group_line(items[i], depth)
            } else {
                Seq::empty()
            },
    )
}

/// What stands in a group after its head: nothing in an empty group, else a line feed,
/// the indentation, and the lines of the members.
pub open spec fn group_body(items: Seq<UseTree>, depth: nat) -> Seq<char>
    decreases items, 1nat,
{
    if items.len() == 0 {
        Seq::empty()
    } else {
        "\n"@ + indentation(depth) + joined(group_lines(items, depth), Seq::empty())
    }
}

/// A visibility before a keyword: followed by a space, unless it is empty.
pub open spec fn visibility_prefix(vis: Visibility) -> Seq<char> {
    let text = visibility_text(vis);
    if text.len() == 0 {
        text
    } else {
        text + " "@
    }
}

/// A `use` declaration: the indentation, its attributes, then on one line the
/// indentation once more, the visibility with a space behind it, `use`, what is imported,
/// and a semicolon.
pub open spec fn use_text(item: ItemUse, depth: nat) -> Seq<char> {
    indentation(depth) + attribute_lines(item.attrs@, depth) + indentation(depth)
        + visibility_prefix(item.vis) + "use "@ + word_if(item.leading_colon, "::"@)
        + use_tree_text(item.tree, depth) + ";"@
}

/// An item.
pub open spec fn item_text(item: Item, depth: nat) -> Seq<char> {
    match item {
        Item::ExternCrate(item) => extern_crate_text(item, depth),
        Item::Use(item) => use_text(item, depth),
        Item::Verbatim(text) => text@,
    }
}

/// The texts of items, one for one.
pub open spec fn item_texts(items: Seq<Item>, depth: nat) -> Seq<Seq<char>> {
    items.map_values(|item: Item| item_text(item, depth))
}

/// The sections of a file: the shebang line where it has one, its attributes where it
/// has any, and its items where it has any; attributes and items with an empty line
/// between each two.
pub open spec fn file_sections(file: File, depth: nat) -> Seq<Seq<char>> {
    let shebang: Seq<Seq<char>> = match file.shebang {
        Some(line) => seq![line@],
        None => Seq::empty(),
    };
    let attrs: Seq<Seq<char>> = if file.attrs@.len() > 0 {
        seq![joined(attribute_texts(file.attrs@, depth), "\n\n"@)]
    } else {
        Seq::empty()
    };
    let items: Seq<Seq<char>> = if file.items@.len() > 0 {
        seq![joined(item_texts(file.items@, depth), "\n\n"@)]
    } else {
        Seq::empty()
    };
    shebang + attrs + items
}

/// A source file: its sections with an empty line between each two.
pub open spec fn file_text(file: File, depth: nat) -> Seq<char> {
    joined(file_sections(file, depth), "\n\n"@)
}

} // verus!
