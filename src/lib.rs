//! Compiles an HTML-like markup syntax tree into the code that builds it.
//!
//! The input is a parsed tree of tags, self-closing tags, fragments and
//! content leaves ([`syntax`]). The output is a structured description of the
//! generated construction code ([`code`]): for each markup node, either a
//! conversion of a verbatim expression or a block that creates a builder,
//! sets its attributes, adds its children and wraps it up. The expression
//! fragments carried by the tree are opaque to the emitter: they are moved,
//! never inspected, copied or dropped.
//!
//! [`emit::emit_item`] is the entry point; [`laws`] states and proves what
//! holds of its output for every tree: children in order, attributes before
//! children, each expression exactly once, no child handling on self-closing
//! tags, and container capacities equal to the counts.

pub mod code;
pub mod emit;
pub mod laws;
pub mod syntax;
