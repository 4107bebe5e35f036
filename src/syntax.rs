//! The parsed markup tree that the emitter consumes.
//!
//! `E` is the type of an opaque expression fragment (an attribute value or a
//! content leaf), handed through to the generated code unchanged.
use vstd::prelude::*;

verus! {

/// A `name=value` pair on a tag.
#[derive(Debug, PartialEq, Eq)]
pub struct Attribute<E> {
    pub name: String,
    pub value: E,
}

/// A paired element, `<name ...>children</name>`.
#[derive(Debug, PartialEq, Eq)]
pub struct Tag<E> {
    pub name: String,
    pub attributes: Vec<Attribute<E>>,
    pub children: Vec<SyntaxItem<E>>,
}

/// A childless element, `<name ... />`.
#[derive(Debug, PartialEq, Eq)]
pub struct SelfClosingTag<E> {
    pub name: String,
    pub attributes: Vec<Attribute<E>>,
}

/// An unnamed group of children, `<>children</>`.
#[derive(Debug, PartialEq, Eq)]
pub struct Fragment<E> {
    pub children: Vec<SyntaxItem<E>>,
}

/// One node of the markup tree.
#[derive(Debug, PartialEq, Eq)]
pub enum SyntaxItem<E> {
    Tag(Tag<E>),
    SelfClosingTag(SelfClosingTag<E>),
    Content(E),
    Fragment(Fragment<E>),
}

impl<E> SyntaxItem<E> {
    /// The node's attributes in source order; none for content and fragments.
    pub open spec fn attributes(self) -> Seq<Attribute<E>> {
        match self {
            SyntaxItem::Tag(tag) => tag.attributes@,
            SyntaxItem::SelfClosingTag(tag) => tag.attributes@,
            _ => Seq::empty(),
        }
    }

    /// The node's children in source order; none for content and
    /// self-closing tags.
    pub open spec fn children(self) -> Seq<SyntaxItem<E>> {
        match self {
            SyntaxItem::Tag(tag) => tag.children@,
            SyntaxItem::Fragment(fragment) => fragment.children@,
            _ => Seq::empty(),
        }
    }
}

} // verus!
