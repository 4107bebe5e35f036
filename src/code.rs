//! The generated construction code, as a tree.
//!
//! A [`Construction`] is one expression that evaluates to a markup-content
//! value. Either it converts an expression fragment (`from(expr)`), or it is
//! a block: it declares a mutable builder, runs a sequence of statements
//! against it (set an attribute, add a child) and then wraps the builder in
//! the markup-content variant that matches the builder's kind.
use vstd::prelude::*;

verus! {

/// The builder that a block declares, with its name literal and the
/// capacities its containers are created with.
#[derive(Debug, PartialEq, Eq)]
pub enum Builder {
    /// A paired tag: name, attribute map and child list.
    Tag { name: String, attribute_capacity: usize, child_capacity: usize },
    /// A self-closing tag: name and attribute map, no child list.
    SelfClosingTag { name: String, attribute_capacity: usize },
    /// A fragment: a child list only.
    Fragment { child_capacity: usize },
}

/// One statement run against the builder of a block.
#[derive(Debug, PartialEq, Eq)]
pub enum Statement<E> {
    /// `builder.set_attribute("name", value);`
    SetAttribute { name: String, value: E },
    /// `builder.add_child(construction);`
    AddChild(Construction<E>),
}

/// One generated expression that evaluates to a markup-content value.
#[derive(Debug, PartialEq, Eq)]
pub enum Construction<E> {
    /// A conversion of an expression fragment into markup content.
    FromExpression(E),
    /// A block that fills a builder and wraps it.
    Build { builder: Builder, statements: Vec<Statement<E>> },
}

} // verus!
