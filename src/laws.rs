//! Properties of the emitted code that hold for every markup tree.
use vstd::prelude::*;

use crate::code::{Builder, Construction, Statement};
use crate::emit::{adds_child, adds_children, emits, set_attribute_statement, sets_attributes};
use crate::syntax::{Attribute, SyntaxItem};

verus! {

/// Every node other than a content leaf becomes a block with one statement
/// per attribute and one per child, and nothing else.
pub proof fn law_one_statement_per_attribute_and_child<E>(
    item: SyntaxItem<E>,
    code: Construction<E>,
)
    requires
        emits(item, code),
        !(item is Content),
    ensures
        code is Build,
        code->statements@.len() == item.attributes().len() + item.children().len(),
{
}

/// The "add child" statements of a block follow the children's source
/// order: the k-th child's construction is added by the statement right
/// after the attributes' statements and the k - 1 children before it, and
/// every "add child" statement is one of these.
pub proof fn law_children_added_in_order<E>(item: SyntaxItem<E>, code: Construction<E>)
    requires
        emits(item, code),
        !(item is Content),
    ensures
        code is Build,
        forall|k: int|
            #![trigger item.children()[k]]
            0 <= k < item.children().len() ==> adds_child(
                code->statements@[item.attributes().len() + k],
                item.children()[k],
            ),
        forall|i: int|
            0 <= i < code->statements@.len() && (#[trigger] code->statements@[i] is AddChild)
                ==> item.attributes().len() <= i,
{
    let statements = code->statements@;
    let n = item.attributes().len() as int;
    assert forall|k: int|
        #![trigger item.children()[k]]
        0 <= k < item.children().len() implies adds_child(statements[n + k], item.children()[k]) by {
        if item is Tag {
            assert(statements[n + k] == statements.skip(n)[k]);
        }
    }
    assert forall|i: int|
        0 <= i < statements.len() && (#[trigger] statements[i] is AddChild) implies n <= i by {
        if i < n {
            assert(statements[i] == statements.take(n)[i]);
            assert(statements[i] == set_attribute_statement(item.attributes()[i]));
        }
    }
}

/// Every "set attribute" statement of a block comes before every "add child"
/// statement.
pub proof fn law_attributes_before_children<E>(item: SyntaxItem<E>, code: Construction<E>)
    requires
        emits(item, code),
        !(item is Content),
    ensures
        code is Build,
        forall|i: int, j: int|
            0 <= i < code->statements@.len() && 0 <= j < code->statements@.len() && (
            #[trigger] code->statements@[i] is SetAttribute) && (
            #[trigger] code->statements@[j] is AddChild) ==> i < j,
{
    let statements = code->statements@;
    let n = item.attributes().len() as int;
    law_children_added_in_order(item, code);
    assert forall|i: int|
        0 <= i < statements.len() && (#[trigger] statements[i] is SetAttribute) implies i < n by {
        if n <= i {
            assert(adds_child(statements[i], item.children()[i - n]));
        }
    }
}

/// A content leaf becomes one conversion of its expression, which the
/// emitted code then holds exactly once; the leaf's expression is not
/// copied into, nor dropped from, the output.
pub proof fn law_content_expression_once<E>(expression: E, code: Construction<E>)
    requires
        emits(SyntaxItem::Content(expression), code),
    ensures
        code == Construction::FromExpression(expression),
        code_expressions(code) == seq![expression],
{
}

/// A self-closing tag's block declares a builder without a child list and
/// runs only "set attribute" statements; a fragment's block declares a
/// builder with neither a name nor attributes and runs only "add child"
/// statements.
pub proof fn law_variant_fidelity<E>(item: SyntaxItem<E>, code: Construction<E>)
    requires
        emits(item, code),
    ensures
        item is SelfClosingTag ==> {
            &&& code is Build
            &&& code->builder is SelfClosingTag
            &&& forall|i: int|
                0 <= i < code->statements@.len() ==> #[trigger] code->statements@[i] is SetAttribute
        },
        item is Fragment ==> {
            &&& code is Build
            &&& code->builder is Fragment
            &&& forall|i: int|
                0 <= i < code->statements@.len() ==> #[trigger] code->statements@[i] is AddChild
        },
{
    if item is SelfClosingTag {
        let statements = code->statements@;
        assert forall|i: int| 0 <= i < statements.len() implies #[trigger] statements[i] is SetAttribute by {
            assert(statements[i] == set_attribute_statement(item.attributes()[i]));
        }
    }
    if item is Fragment {
        let statements = code->statements@;
        assert forall|i: int| 0 <= i < statements.len() implies #[trigger] statements[i] is AddChild by {
            assert(item.children()[i] == item.children()[i]);
        }
    }
}

/// The capacities that a block's builder is created with equal the numbers of
/// attributes and children of the node.
pub proof fn law_capacities_match_counts<E>(item: SyntaxItem<E>, code: Construction<E>)
    requires
        emits(item, code),
    ensures
        item is Tag ==> (code->builder matches Builder::Tag {
            attribute_capacity,
            child_capacity,
            ..
        } && attribute_capacity == item.attributes().len() && child_capacity
            == item.children().len()),
        item is SelfClosingTag ==> (code->builder matches Builder::SelfClosingTag {
            attribute_capacity,
            ..
        } && attribute_capacity == item.attributes().len()),
        item is Fragment ==> (code->builder matches Builder::Fragment { child_capacity }
            && child_capacity == item.children().len()),
{
}

/// The emitted code holds every expression fragment of the tree exactly
/// once, in source order: none is copied, none dropped, none moved ahead of
/// another.
pub proof fn law_each_expression_once_in_order<E>(item: SyntaxItem<E>, code: Construction<E>)
    requires
        emits(item, code),
    ensures
        code_expressions(code) == item_expressions(item),
    decreases item,
{
    match item {
        SyntaxItem::Content(_) => {},
        SyntaxItem::Tag(tag) => {
            let statements = code->statements@;
            let n = tag.attributes.len() as int;
            lemma_attribute_expressions(tag.attributes@, statements.take(n));
            lemma_children_expressions(tag.children@, statements.skip(n));
            lemma_statements_expressions_append(statements.take(n), statements.skip(n));
            assert(statements.take(n) + statements.skip(n) == statements);
        },
        SyntaxItem::SelfClosingTag(tag) => {
            lemma_attribute_expressions(tag.attributes@, code->statements@);
        },
        SyntaxItem::Fragment(fragment) => {
            lemma_children_expressions(fragment.children@, code->statements@);
        },
    }
}

proof fn lemma_statements_expressions_append<E>(a: Seq<Statement<E>>, b: Seq<Statement<E>>)
    ensures
        statements_expressions(a + b) == statements_expressions(a) + statements_expressions(b),
    decreases b.len(),
{
    if b.len() == 0 {
        assert(a + b == a);
    } else {
        assert((a + b).drop_last() == a + b.drop_last());
        assert((a + b).last() == b.last());
        lemma_statements_expressions_append(a, b.drop_last());
    }
}

proof fn lemma_attribute_expressions<E>(
    attributes: Seq<Attribute<E>>,
    statements: Seq<Statement<E>>,
)
    requires
        sets_attributes(attributes, statements),
    ensures
        statements_expressions(statements) == attribute_values(attributes),
    decreases attributes.len(),
{
    if attributes.len() > 0 {
        let m = attributes.len() - 1;
        assert forall|i: int| 0 <= i < m implies statements.drop_last()[i]
            == set_attribute_statement(#[trigger] attributes.drop_last()[i]) by {
            assert(attributes.drop_last()[i] == attributes[i]);
        }
        lemma_attribute_expressions(attributes.drop_last(), statements.drop_last());
        assert(statements.last() == set_attribute_statement(attributes[m]));
        assert(attribute_values(attributes) == attribute_values(attributes.drop_last()) + seq![
            attributes[m].value,
        ]);
    } else {
        assert(attribute_values(attributes) == Seq::<E>::empty());
    }
}

proof fn lemma_children_expressions<E>(
    children: Seq<SyntaxItem<E>>,
    statements: Seq<Statement<E>>,
)
    requires
        adds_children(children, statements),
    ensures
        statements_expressions(statements) == items_expressions(children),
    decreases children,
{
    if children.len() > 0 {
        let m = children.len() - 1;
        assert forall|j: int| 0 <= j < m implies adds_child(
            statements.drop_last()[j],
            #[trigger] children.drop_last()[j],
        ) by {
            assert(children.drop_last()[j] == children[j]);
            assert(statements.drop_last()[j] == statements[j]);
            assert(adds_child(statements[j], children[j]));
        }
        lemma_children_expressions(children.drop_last(), statements.drop_last());
        assert(adds_child(statements[m], children[m]));
        law_each_expression_once_in_order(children[m], statements[m]->AddChild_0);
    }
}

/// The expression fragments of a node, in source order: a tag's attribute
/// values, then the fragments of its children, one after the other.
pub open spec fn item_expressions<E>(item: SyntaxItem<E>) -> Seq<E>
    decreases item,
{
    match item {
        SyntaxItem::Content(expression) => seq![expression],
        SyntaxItem::Tag(tag) => attribute_values(tag.attributes@) + items_expressions(
            tag.children@,
        ),
        SyntaxItem::SelfClosingTag(tag) => attribute_values(tag.attributes@),
        SyntaxItem::Fragment(fragment) => items_expressions(fragment.children@),
    }
}

/// The expression fragments of a sequence of nodes, in source order.
pub open spec fn items_expressions<E>(items: Seq<SyntaxItem<E>>) -> Seq<E>
    decreases items,
{
    if items.len() == 0 {
        Seq::empty()
    } else {
        items_expressions(items.drop_last()) + item_expressions(items.last())
    }
}

/// The values of the attributes, in source order.
pub open spec fn attribute_values<E>(attributes: Seq<Attribute<E>>) -> Seq<E> {
    attributes.map_values(|attribute: Attribute<E>| attribute.value)
}

/// The expression fragments that a construction holds, in the order in which
/// the generated code evaluates them.
pub open spec fn code_expressions<E>(code: Construction<E>) -> Seq<E>
    decreases code,
{
    match code {
        Construction::FromExpression(expression) => seq![expression],
        Construction::Build { statements, .. } => statements_expressions(statements@),
    }
}

/// The expression fragments that a sequence of statements holds, in order.
pub open spec fn statements_expressions<E>(statements: Seq<Statement<E>>) -> Seq<E>
    decreases statements,
{
    if statements.len() == 0 {
        Seq::empty()
    } else {
        statements_expressions(statements.drop_last()) + match statements.last() {
            Statement::SetAttribute { value, .. } => seq![value],
            Statement::AddChild(child) => code_expressions(child),
        }
    }
}

} // verus!
