//! The printer: lays a syntax tree out as text.
//!
//! Every kind of node has a method `pp` that returns the node's text; [`model`] says
//! what that text is.

use vstd::prelude::*;

pub mod model;

use crate::context::{deeper_than, indentation, Context};
use crate::syntax::{
    AttrBody, AttrStyle, Attribute, File, Item, ItemExternCrate, ItemUse, Meta, NestedMeta, Path,
    PathArguments, PathSegment, UseTree, Visibility,
};
use crate::text::{join, joined, joined_push_unseparated, texts};
use model::{
    attr_body_text, attribute_lines, attribute_text, attribute_texts, extern_crate_text,
    file_sections, file_text, group_body, group_head, group_line, group_lines, is_glob, is_self,
    item_text, item_texts, meta_text, nested_text, nested_texts, path_arguments_text, path_text,
    segment_text, segment_texts, use_text, use_tree_text, visibility_text,
};

verus! {

impl PathArguments {
    /// The text of these path arguments.
    pub fn pp(&self) -> (out: String)
        ensures
            out@ == path_arguments_text(*self),
    {
        match self {
            PathArguments::Absent => String::new(),
            PathArguments::Parenthesized { inputs, output } => {
                proof {
                    reveal_strlit(", ");
                }
                let mut out = String::from_str("(");
                let args = join(inputs, ", ");
                out.append(args.as_str());
                out.append(")");
                match output {
                    Some(ret_ty) => {
                        out.append(ret_ty.as_str());
                    },
                    None => {
                        assert(out@ + Seq::<char>::empty() == out@);
                    },
                }
                out
            },
        }
    }
}

impl PathSegment {
    /// The text of this path segment.
    pub fn pp(&self) -> (out: String)
        ensures
            out@ == segment_text(*self),
    {
        let mut out = self.ident.clone();
        let arguments = self.arguments.pp();
        out.append(arguments.as_str());
        out
    }
}

impl Path {
    /// The text of this path.
    pub fn pp(&self) -> (out: String)
        ensures
            out@ == path_text(*self),
    {
        let mut parts: Vec<String> = Vec::new();
        let mut i: usize = 0;
        while i < self.segments.len()
            invariant
                i <= self.segments.len(),
                parts.len() == i,
                forall|k: int| 0 <= k < i ==> parts[k]@ == segment_text(self.segments[k]),
            decreases self.segments.len() - i,
        {
            parts.push(self.segments[i].pp());
            i = i + 1;
        }
        proof {
            reveal_strlit("::");
            assert(texts(parts@) == segment_texts(self.segments@));
        }
        let mut out = if self.leading_colon {
            String::from_str("::")
        } else {
            String::new()
        };
        let segments = join(&parts, "::");
        out.append(segments.as_str());
        out
    }
}

impl Meta {
    /// The text of this attribute content.
    pub fn pp(&self) -> (out: String)
        ensures
            out@ == meta_text(*self),
        decreases self,
    {
        match self {
            Meta::Path(path) => path.pp(),
            Meta::NameValue { path, lit } => {
                let mut out = path.pp();
                out.append(" = ");
                out.append(lit.as_str());
                out
            },
            Meta::List { path, nested } => {
                let mut out = path.pp();
                out.append("(");
                let list = pp_nested_list(nested);
                out.append(list.as_str());
                out.append(")");
                out
            },
        }
    }
}

/// The entries of an attribute's list, separated by a comma and a space.
fn pp_nested_list(nested: &Vec<NestedMeta>) -> (out: String)
    ensures
        out@ == joined(nested_texts(nested@), ", "@),
    decreases nested,
{
    let mut parts: Vec<String> = Vec::new();
    let mut i: usize = 0;
    while i < nested.len()
        invariant
            i <= nested.len(),
            parts.len() == i,
            forall|k: int| 0 <= k < i ==> parts[k]@ == nested_text(nested[k]),
        decreases nested.len() - i,
    {
        parts.push(nested[i].pp());
        i = i + 1;
    }
    proof {
        reveal_strlit(", ");
        assert(texts(parts@) == nested_texts(nested@));
    }
    join(&parts, ", ")
}

impl NestedMeta {
    /// The text of this list entry.
    pub fn pp(&self) -> (out: String)
        ensures
            out@ == nested_text(*self),
        decreases self,
    {
        match self {
            NestedMeta::Meta(meta) => meta.pp(),
            NestedMeta::Lit(lit) => lit.clone(),
        }
    }
}

impl AttrBody {
    /// The text of this attribute body.
    pub fn pp(&self) -> (out: String)
        ensures
            out@ == attr_body_text(*self),
    {
        match self {
            AttrBody::Meta(meta) => meta.pp(),
            AttrBody::Tokens { path, tokens } => {
                let mut out = path.pp();
                out.append(" ");
                out.append(tokens.as_str());
                out
            },
        }
    }
}

impl Attribute {
    /// The text of this attribute at the depth of `cx`.
    pub fn pp(&self, cx: &Context) -> (out: String)
        ensures
            out@ == attribute_text(*self, cx.depth()),
    {
        let mut out = cx.indent();
        out.append("#");
        match self.style {
            AttrStyle::Inner => {
                out.append("!");
            },
            AttrStyle::Outer => {
                assert(out@ + Seq::<char>::empty() == out@);
            },
        }
        out.append("[");
        let inner = self.body.pp();
        out.append(inner.as_str());
        out.append("]");
        out
    }
}

/// The attributes of an item at the depth of `cx`, each followed by a line feed.
fn pp_attribute_lines(attrs: &Vec<Attribute>, cx: &Context) -> (out: String)
    ensures
        out@ == attribute_lines(attrs@, cx.depth()),
{
    let mut parts: Vec<String> = Vec::new();
    let mut i: usize = 0;
    while i < attrs.len()
        invariant
            i <= attrs.len(),
            parts.len() == i,
            forall|k: int|
                0 <= k < i ==> parts[k]@ == attribute_text(attrs[k], cx.depth()) + "\n"@,
        decreases attrs.len() - i,
    {
        let mut line = attrs[i].pp(cx);
        line.append("\n");
        parts.push(line);
        i = i + 1;
    }
    proof {
        reveal_strlit("");
        assert(""@ == Seq::<char>::empty());
        assert(texts(parts@) == attrs@.map_values(
            |attr: Attribute| attribute_text(attr, cx.depth()) + "\n"@,
        ));
    }
    join(&parts, "")
}

impl Visibility {
    /// The text of this visibility.
    pub fn pp(&self) -> (out: String)
        ensures
            out@ == visibility_text(*self),
    {
        match self {
            Visibility::Inherited => String::new(),
            Visibility::Crate => String::from_str("crate"),
            Visibility::Public => String::from_str("pub"),
            Visibility::Restricted { in_token, path } => {
                let mut out = String::from_str("pub(");
                if *in_token {
                    out.append("in ");
                } else {
                    assert(out@ + Seq::<char>::empty() == out@);
                }
                let inner = path.pp();
                out.append(inner.as_str());
                out.append(")");
                out
            },
        }
    }
}

impl ItemExternCrate {
    /// The text of this declaration at the depth of `cx`.
    pub fn pp(&self, cx: &Context) -> (out: String)
        ensures
            out@ == extern_crate_text(*self, cx.depth()),
    {
        let mut out = pp_attribute_lines(&self.attrs, cx);
        let indent = cx.indent();
        out.append(indent.as_str());
        let vis = self.vis.pp();
        out.append(vis.as_str());
        out.append("extern crate ");
        out.append(self.ident.as_str());
        match &self.rename {
            Some(rename) => {
                let ghost before = out@;
                out.append(" as ");
                out.append(rename.as_str());
                assert(out@ == before + (" as "@ + rename@));
            },
            None => {
                assert(out@ + Seq::<char>::empty() == out@);
            },
        }
        out.append(";");
        out
    }
}

/// Whether a tree is `*`.
fn tree_is_glob(tree: &UseTree) -> (yes: bool)
    ensures
        yes == is_glob(*tree),
{
    match tree {
        UseTree::Glob => true,
        _ => false,
    }
}

/// Whether a tree is the name `self`.
fn tree_is_self(tree: &UseTree) -> (yes: bool)
    ensures
        yes == is_self(*tree),
{
    match tree {
        UseTree::Name(ident) => {
            let this = String::from_str("self");
            ident.eq(&this)
        },
        _ => false,
    }
}

/// How a group begins.
fn pp_group_head(items: &Vec<UseTree>) -> (out: String)
    ensures
        out@ == group_head(items@),
{
    let mut glob = false;
    let mut this = false;
    let mut i: usize = 0;
    while i < items.len()
        invariant
            i <= items.len(),
            glob == exists|k: int| 0 <= k < i && is_glob(#[trigger] items@[k]),
            this == exists|k: int| 0 <= k < i && is_self(#[trigger] items@[k]),
        decreases items.len() - i,
    {
        if tree_is_glob(&items[i]) {
            glob = true;
        }
        if tree_is_self(&items[i]) {
            this = true;
        }
        i = i + 1;
    }
    if glob && this {
        String::from_str("self, *,")
    } else if glob {
        String::from_str("*,")
    } else if this {
        String::from_str("self,")
    } else {
        String::new()
    }
}

impl UseTree {
    /// The text of this tree at the depth of `cx`.
    pub fn pp(&self, cx: &Context) -> (out: String)
        ensures
            out@ == use_tree_text(*self, cx.depth()),
        decreases self, 0nat,
    {
        match self {
            UseTree::Path { ident, tree } => {
                let mut out = ident.clone();
                out.append("::");
                let rest = tree.pp(cx);
                out.append(rest.as_str());
                out
            },
            UseTree::Name(ident) => ident.clone(),
            UseTree::Rename { ident, rename } => {
                let mut out = ident.clone();
                out.append(" as ");
                out.append(rename.as_str());
                out
            },
            UseTree::Glob => String::from_str("*"),
            UseTree::Group(items) => {
                let mut out = String::from_str("{");
                let head = pp_group_head(items);
                out.append(head.as_str());
                let body = pp_group_body(items, cx);
                out.append(body.as_str());
                out.append("}");
                out
            },
        }
    }
}

/// What stands in a group after its head, at the depth of `cx`.
fn pp_group_body(items: &Vec<UseTree>, cx: &Context) -> (out: String)
    ensures
        out@ == group_body(items@, cx.depth()),
    decreases items, 1nat,
{
    if items.len() == 0 {
        return String::new();
    }
    let ghost lines = group_lines(items@, cx.depth());
    let indent = cx.indent();
    let inner = cx.deeper();
    let mut parts: Vec<String> = Vec::new();
    let mut i: usize = 0;
    proof {
        reveal_strlit("");
        assert(""@ == Seq::<char>::empty());
        assert(lines.take(0) == Seq::<Seq<char>>::empty());
        assert(texts(parts@) == Seq::<Seq<char>>::empty());
    }
    while i < items.len()
        invariant
            i <= items.len(),
            lines == group_lines(items@, cx.depth()),
            indent@ == indentation(cx.depth()),
            inner.depth() == deeper_than(cx.depth()),
            joined(texts(parts@), Seq::empty()) == joined(lines.take(i as int), Seq::empty()),
        decreases items.len() - i,
    {
        let item = &items[i];
        proof {
            assert(lines.take(i + 1) == lines.take(i as int).push(
                group_line(items@[i as int], cx.depth()),
            ));
        }
        if tree_is_glob(item) || tree_is_self(item) {
            proof {
                joined_push_unseparated(lines.take(i as int), Seq::empty());
                assert(joined(lines.take(i as int), Seq::<char>::empty()) + Seq::<char>::empty()
                    == joined(lines.take(i as int), Seq::empty()));
            }
        } else {
            let mut line = String::from_str("    ");
            let member = item.pp(&inner);
            line.append(member.as_str());
            line.append(",\n");
            line.append(indent.as_str());
            proof {
                joined_push_unseparated(texts(parts@), line@);
                joined_push_unseparated(lines.take(i as int), line@);
                assert(texts(parts@.push(line)) == texts(parts@).push(line@));
            }
            parts.push(line);
        }
        i = i + 1;
    }
    proof {
        assert(lines.take(items.len() as int) == lines);
    }
    let mut out = String::from_str("\n");
    out.append(indent.as_str());
    let members = join(&parts, "");
    out.append(members.as_str());
    out
}

impl ItemUse {
    /// The text of this declaration at the depth of `cx`.
    pub fn pp(&self, cx: &Context) -> (out: String)
        ensures
            out@ == use_text(*self, cx.depth()),
    {
        let indent = cx.indent();
        let mut out = indent.clone();
        let attrs = pp_attribute_lines(&self.attrs, cx);
        out.append(attrs.as_str());
        out.append(indent.as_str());
        let mut vis = self.vis.pp();
        if !vis.as_str().is_empty() {
            vis.append(" ");
        }
        out.append(vis.as_str());
        out.append("use ");
        if self.leading_colon {
            out.append("::");
        } else {
            assert(out@ + Seq::<char>::empty() == out@);
        }
        let tree = self.tree.pp(cx);
        out.append(tree.as_str());
        out.append(";");
        out
    }
}

impl Item {
    /// The text of this item at the depth of `cx`.
    pub fn pp(&self, cx: &Context) -> (out: String)
        ensures
            out@ == item_text(*self, cx.depth()),
    {
        match self {
            Item::ExternCrate(item) => item.pp(cx),
            Item::Use(item) => item.pp(cx),
            Item::Verbatim(text) => text.clone(),
        }
    }
}

impl File {
    /// The text of this file at the depth of `cx`.
    pub fn pp(&self, cx: &Context) -> (out: String)
        ensures
            out@ == file_text(*self, cx.depth()),
    {
        proof {
            reveal_strlit("\n\n");
        }
        let mut sections: Vec<String> = Vec::new();
        match &self.shebang {
            Some(line) => {
                sections.push(line.clone());
            },
            None => {},
        }
        if self.attrs.len() > 0 {
            let mut parts: Vec<String> = Vec::new();
            let mut i: usize = 0;
            while i < self.attrs.len()
                invariant
                    i <= self.attrs.len(),
                    parts.len() == i,
                    forall|k: int|
                        0 <= k < i ==> parts[k]@ == attribute_text(self.attrs[k], cx.depth()),
                decreases self.attrs.len() - i,
            {
                parts.push(self.attrs[i].pp(cx));
                i = i + 1;
            }
            assert(texts(parts@) == attribute_texts(self.attrs@, cx.depth()));
            sections.push(join(&parts, "\n\n"));
        }
        if self.items.len() > 0 {
            let mut parts: Vec<String> = Vec::new();
            let mut i: usize = 0;
            while i < self.items.len()
                invariant
                    i <= self.items.len(),
                    parts.len() == i,
                    forall|k: int| 0 <= k < i ==> parts[k]@ == item_text(self.items[k], cx.depth()),
                decreases self.items.len() - i,
            {
                parts.push(self.items[i].pp(cx));
                i = i + 1;
            }
            assert(texts(parts@) == item_texts(self.items@, cx.depth()));
            sections.push(join(&parts, "\n\n"));
        }
        assert(texts(sections@) == file_sections(*self, cx.depth()));
        join(&sections, "\n\n")
    }
}

} // verus!
