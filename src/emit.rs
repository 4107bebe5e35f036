//! The tree emitter: one construction per markup node, by structural
//! recursion over the tree.
use vstd::prelude::*;

use crate::code::{Builder, Construction, Statement};
use crate::syntax::{Attribute, Fragment, SelfClosingTag, SyntaxItem, Tag};

verus! {

/// The statement that sets `attribute` on the builder: its name as a literal,
/// its value verbatim.
pub open spec fn set_attribute_statement<E>(attribute: Attribute<E>) -> Statement<E> {
    Statement::SetAttribute { name: attribute.name, value: attribute.value }
}

/// `statements` sets each of `attributes`, one statement each, in source order.
pub open spec fn sets_attributes<E>(
    attributes: Seq<Attribute<E>>,
    statements: Seq<Statement<E>>,
) -> bool {
    &&& statements.len() == attributes.len()
    &&& forall|i: int|
        0 <= i < attributes.len() ==> statements[i] == set_attribute_statement(
            #[trigger] attributes[i],
        )
}

/// `statements` adds each of `children`, one statement each, in source order,
/// each the construction emitted for that child.
pub open spec fn adds_children<E>(
    children: Seq<SyntaxItem<E>>,
    statements: Seq<Statement<E>>,
) -> bool
    decreases children,
{
    &&& statements.len() == children.len()
    &&& forall|j: int|
        #![trigger children[j]]
        #![trigger statements[j]]
        0 <= j < children.len() ==> (statements[j] matches Statement::AddChild(code) && emits(
            children[j],
            code,
        ))
}

/// `statement` adds the construction emitted for `child`.
pub open spec fn adds_child<E>(statement: Statement<E>, child: SyntaxItem<E>) -> bool {
    statement matches Statement::AddChild(code) && emits(child, code)
}

/// `code` is the construction emitted for `item`.
pub open spec fn emits<E>(item: SyntaxItem<E>, code: Construction<E>) -> bool
    decreases item,
{
    match item {
        SyntaxItem::Content(expression) => code == Construction::FromExpression(expression),
        SyntaxItem::Tag(tag) => {
            let n = tag.attributes.len() as int;
            &&& code is Build
            &&& code->builder == (Builder::Tag {
                name: tag.name,
                attribute_capacity: tag.attributes.len(),
                child_capacity: tag.children.len(),
            })
            &&& code->statements@.len() == tag.attributes.len() + tag.children.len()
            &&& sets_attributes(tag.attributes@, code->statements@.take(n))
            &&& adds_children(tag.children@, code->statements@.skip(n))
        },
        SyntaxItem::SelfClosingTag(tag) => {
            &&& code is Build
            &&& code->builder == (Builder::SelfClosingTag {
                name: tag.name,
                attribute_capacity: tag.attributes.len(),
            })
            &&& sets_attributes(tag.attributes@, code->statements@)
        },
        SyntaxItem::Fragment(fragment) => {
            &&& code is Build
            &&& code->builder == (Builder::Fragment { child_capacity: fragment.children.len() })
            &&& adds_children(fragment.children@, code->statements@)
        },
    }
}

/// Emits the construction for any markup node. Every node kind has exactly
/// one emission rule, so this never fails.
pub fn emit_item<E>(item: SyntaxItem<E>) -> (code: Construction<E>)
    ensures
        emits(item, code),
    decreases item,
{
    match item {
        SyntaxItem::Tag(tag) => emit_tag(tag),
        SyntaxItem::SelfClosingTag(tag) => emit_self_closing_tag(tag),
        SyntaxItem::Content(expression) => emit_content(expression),
        SyntaxItem::Fragment(fragment) => emit_fragment(fragment),
    }
}

/// Emits the construction that converts an expression fragment.
pub fn emit_content<E>(expression: E) -> (code: Construction<E>)
    ensures
        emits(SyntaxItem::Content(expression), code),
{
    Construction::FromExpression(expression)
}

/// Emits a tag's block: the builder, then the attributes, then the children.
pub fn emit_tag<E>(tag: Tag<E>) -> (code: Construction<E>)
    ensures
        emits(SyntaxItem::Tag(tag), code),
    decreases tag,
{
    let builder = Builder::Tag {
        name: tag.name,
        attribute_capacity: tag.attributes.len(),
        child_capacity: tag.children.len(),
    };
    let mut statements = emit_attributes(tag.attributes);
    let mut child_statements = emit_children(tag.children);
    let ghost attribute_part = statements@;
    let ghost child_part = child_statements@;
    statements.append(&mut child_statements);
    assert(statements@.take(attribute_part.len() as int) == attribute_part);
    assert(statements@.skip(attribute_part.len() as int) == child_part);
    Construction::Build { builder, statements }
}

/// Emits a self-closing tag's block: the builder, then the attributes.
pub fn emit_self_closing_tag<E>(tag: SelfClosingTag<E>) -> (code: Construction<E>)
    ensures
        emits(SyntaxItem::SelfClosingTag(tag), code),
{
    let builder = Builder::SelfClosingTag {
        name: tag.name,
        attribute_capacity: tag.attributes.len(),
    };
    let statements = emit_attributes(tag.attributes);
    Construction::Build { builder, statements }
}

/// Emits a fragment's block: the builder, then the children.
pub fn emit_fragment<E>(fragment: Fragment<E>) -> (code: Construction<E>)
    ensures
        emits(SyntaxItem::Fragment(fragment), code),
    decreases fragment,
{
    let builder = Builder::Fragment { child_capacity: fragment.children.len() };
    let statements = emit_children(fragment.children);
    Construction::Build { builder, statements }
}

/// Emits one "set attribute" statement per attribute, in order.
pub fn emit_attributes<E>(attributes: Vec<Attribute<E>>) -> (statements: Vec<Statement<E>>)
    ensures
        sets_attributes(attributes@, statements@),
{
    let ghost source = attributes@;
    let mut statements: Vec<Statement<E>> = Vec::with_capacity(attributes.len());
    for attribute in it: attributes.into_iter()
        invariant
            it.seq() == source,
            statements@.len() == it.index(),
            forall|i: int|
                0 <= i < it.index() ==> statements@[i] == set_attribute_statement(
                    #[trigger] source[i],
                ),
    {
        statements.push(Statement::SetAttribute { name: attribute.name, value: attribute.value });
    }
    statements
}

/// Emits one "add child" statement per child, each wrapping the child's own
/// construction, in order.
pub fn emit_children<E>(children: Vec<SyntaxItem<E>>) -> (statements: Vec<Statement<E>>)
    ensures
        adds_children(children@, statements@),
    decreases children,
{
    let ghost source = children@;
    let mut statements: Vec<Statement<E>> = Vec::with_capacity(children.len());
    for child in it: children.into_iter()
        invariant
            it.seq() == source,
            statements@.len() == it.index(),
            forall|j: int|
                #![trigger source[j]]
                #![trigger statements@[j]]
                0 <= j < it.index() ==> (statements@[j] matches Statement::AddChild(code)
                    && emits(source[j], code)),
    {
        let emitted = emit_item(child);
        statements.push(Statement::AddChild(emitted));
    }
    statements
}

} // verus!
