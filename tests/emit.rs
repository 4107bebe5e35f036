use ritz_impl::code::{Builder, Construction, Statement};
use ritz_impl::emit::{
    emit_attributes, emit_children, emit_content, emit_fragment, emit_item, emit_self_closing_tag,
    emit_tag,
};
use ritz_impl::syntax::{Attribute, Fragment, SelfClosingTag, SyntaxItem, Tag};

fn attribute(name: &str, value: &'static str) -> Attribute<&'static str> {
    Attribute { name: name.to_string(), value }
}

fn tag(
    name: &str,
    attributes: Vec<Attribute<&'static str>>,
    children: Vec<SyntaxItem<&'static str>>,
) -> SyntaxItem<&'static str> {
    SyntaxItem::Tag(Tag { name: name.to_string(), attributes, children })
}

fn self_closing(name: &str, attributes: Vec<Attribute<&'static str>>) -> SyntaxItem<&'static str> {
    SyntaxItem::SelfClosingTag(SelfClosingTag { name: name.to_string(), attributes })
}

fn fragment(children: Vec<SyntaxItem<&'static str>>) -> SyntaxItem<&'static str> {
    SyntaxItem::Fragment(Fragment { children })
}

fn set(name: &str, value: &'static str) -> Statement<&'static str> {
    Statement::SetAttribute { name: name.to_string(), value }
}

fn tag_builder(name: &str, attributes: usize, children: usize) -> Builder {
    Builder::Tag { name: name.to_string(), attribute_capacity: attributes, child_capacity: children }
}

fn self_closing_builder(name: &str, attributes: usize) -> Builder {
    Builder::SelfClosingTag { name: name.to_string(), attribute_capacity: attributes }
}

/// Every expression fragment that the construction holds, in the order the
/// generated code evaluates them.
fn expressions(code: &Construction<&'static str>, out: &mut Vec<&'static str>) {
    match code {
        Construction::FromExpression(e) => out.push(e),
        Construction::Build { statements, .. } => {
            for statement in statements {
                match statement {
                    Statement::SetAttribute { value, .. } => out.push(value),
                    Statement::AddChild(child) => expressions(child, out),
                }
            }
        }
    }
}

#[test]
fn self_closing_tag_without_attributes() {
    let code = emit_item(self_closing("br", vec![]));
    assert_eq!(
        code,
        Construction::Build { builder: self_closing_builder("br", 0), statements: vec![] }
    );
}

#[test]
fn tag_with_attribute_and_text_child() {
    let code = emit_item(tag("div", vec![attribute("id", "\"x\"")], vec![
        SyntaxItem::Content("\"Hello\""),
    ]));
    assert_eq!(
        code,
        Construction::Build {
            builder: tag_builder("div", 1, 1),
            statements: vec![
                set("id", "\"x\""),
                Statement::AddChild(Construction::FromExpression("\"Hello\"")),
            ],
        }
    );
}

#[test]
fn fragment_of_two_self_closing_tags() {
    let code = emit_item(fragment(vec![self_closing("a", vec![]), self_closing("b", vec![])]));
    assert_eq!(
        code,
        Construction::Build {
            builder: Builder::Fragment { child_capacity: 2 },
            statements: vec![
                Statement::AddChild(Construction::Build {
                    builder: self_closing_builder("a", 0),
                    statements: vec![],
                }),
                Statement::AddChild(Construction::Build {
                    builder: self_closing_builder("b", 0),
                    statements: vec![],
                }),
            ],
        }
    );
}

#[test]
fn nested_list_items() {
    let code = emit_item(tag("ul", vec![], vec![
        tag("li", vec![], vec![SyntaxItem::Content("1")]),
        tag("li", vec![], vec![SyntaxItem::Content("2")]),
    ]));
    let item = |n: &'static str| {
        Statement::AddChild(Construction::Build {
            builder: tag_builder("li", 0, 1),
            statements: vec![Statement::AddChild(Construction::FromExpression(n))],
        })
    };
    assert_eq!(
        code,
        Construction::Build {
            builder: tag_builder("ul", 0, 2),
            statements: vec![item("1"), item("2")],
        }
    );
}

#[test]
fn bare_expression_is_one_conversion() {
    let code = emit_item(SyntaxItem::Content("some_variable"));
    assert_eq!(code, Construction::FromExpression("some_variable"));
    let mut seen = Vec::new();
    expressions(&code, &mut seen);
    assert_eq!(seen, vec!["some_variable"]);
}

#[test]
fn emit_content_wraps_the_expression() {
    assert_eq!(emit_content("x + 1"), Construction::FromExpression("x + 1"));
}

#[test]
fn children_keep_source_order() {
    let code = emit_item(fragment(vec![
        SyntaxItem::Content("first"),
        self_closing("hr", vec![]),
        SyntaxItem::Content("third"),
    ]));
    match code {
        Construction::Build { statements, .. } => {
            assert_eq!(statements.len(), 3);
            assert_eq!(statements[0], Statement::AddChild(Construction::FromExpression("first")));
            assert_eq!(
                statements[1],
                Statement::AddChild(Construction::Build {
                    builder: self_closing_builder("hr", 0),
                    statements: vec![],
                })
            );
            assert_eq!(statements[2], Statement::AddChild(Construction::FromExpression("third")));
        }
        other => panic!("expected a block, got {:?}", other),
    }
}

#[test]
fn attributes_come_before_children() {
    let code = emit_tag(Tag {
        name: "a".to_string(),
        attributes: vec![attribute("href", "url"), attribute("class", "\"link\"")],
        children: vec![SyntaxItem::Content("label"), SyntaxItem::Content("icon")],
    });
    match code {
        Construction::Build { builder, statements } => {
            assert_eq!(builder, tag_builder("a", 2, 2));
            let kinds: Vec<bool> = statements
                .iter()
                .map(|s| matches!(s, Statement::SetAttribute { .. }))
                .collect();
            assert_eq!(kinds, vec![true, true, false, false]);
            assert_eq!(statements[0], set("href", "url"));
            assert_eq!(statements[1], set("class", "\"link\""));
        }
        other => panic!("expected a block, got {:?}", other),
    }
}

#[test]
fn duplicate_attribute_names_pass_through() {
    let code = emit_self_closing_tag(SelfClosingTag {
        name: "input".to_string(),
        attributes: vec![attribute("value", "1"), attribute("value", "2")],
    });
    assert_eq!(
        code,
        Construction::Build {
            builder: self_closing_builder("input", 2),
            statements: vec![set("value", "1"), set("value", "2")],
        }
    );
}

#[test]
fn self_closing_tag_has_no_child_handling() {
    let code = emit_item(self_closing("img", vec![attribute("src", "path"), attribute("alt", "text")]));
    match code {
        Construction::Build { builder, statements } => {
            assert!(matches!(builder, Builder::SelfClosingTag { .. }));
            assert!(statements.iter().all(|s| matches!(s, Statement::SetAttribute { .. })));
        }
        other => panic!("expected a block, got {:?}", other),
    }
}

#[test]
fn fragment_has_no_name_or_attributes() {
    let code = emit_fragment(Fragment {
        children: vec![SyntaxItem::Content("a"), tag("p", vec![attribute("id", "b")], vec![])],
    });
    match code {
        Construction::Build { builder, statements } => {
            assert_eq!(builder, Builder::Fragment { child_capacity: 2 });
            assert!(statements.iter().all(|s| matches!(s, Statement::AddChild(_))));
        }
        other => panic!("expected a block, got {:?}", other),
    }
}

#[test]
fn empty_tag_has_zero_capacities() {
    let code = emit_item(tag("div", vec![], vec![]));
    assert_eq!(code, Construction::Build { builder: tag_builder("div", 0, 0), statements: vec![] });
}

#[test]
fn empty_fragment_has_zero_capacity() {
    let code = emit_item(fragment(vec![]));
    assert_eq!(
        code,
        Construction::Build { builder: Builder::Fragment { child_capacity: 0 }, statements: vec![] }
    );
}

#[test]
fn capacities_match_counts() {
    let code = emit_item(tag(
        "table",
        vec![attribute("a", "1"), attribute("b", "2"), attribute("c", "3")],
        vec![
            tag("tr", vec![], vec![]),
            tag("tr", vec![], vec![]),
            tag("tr", vec![], vec![]),
            tag("tr", vec![], vec![]),
        ],
    ));
    match code {
        Construction::Build { builder, statements } => {
            assert_eq!(builder, tag_builder("table", 3, 4));
            assert_eq!(statements.len(), 7);
        }
        other => panic!("expected a block, got {:?}", other),
    }
}

#[test]
fn every_expression_appears_once_in_source_order() {
    let code = emit_item(tag("div", vec![attribute("id", "e1"), attribute("title", "e2")], vec![
        SyntaxItem::Content("e3"),
        fragment(vec![self_closing("i", vec![attribute("x", "e4")]), SyntaxItem::Content("e5")]),
        tag("b", vec![], vec![SyntaxItem::Content("e6")]),
    ]));
    let mut seen = Vec::new();
    expressions(&code, &mut seen);
    assert_eq!(seen, vec!["e1", "e2", "e3", "e4", "e5", "e6"]);
}

#[test]
fn emit_attributes_one_statement_each() {
    let statements = emit_attributes(vec![attribute("k", "v"), attribute("n", "m")]);
    assert_eq!(statements, vec![set("k", "v"), set("n", "m")]);
}

#[test]
fn emit_children_one_statement_each() {
    let statements = emit_children(vec![SyntaxItem::Content("x"), self_closing("br", vec![])]);
    assert_eq!(
        statements,
        vec![
            Statement::AddChild(Construction::FromExpression("x")),
            Statement::AddChild(Construction::Build {
                builder: self_closing_builder("br", 0),
                statements: vec![],
            }),
        ]
    );
}

#[test]
fn deep_nesting() {
    let mut item = SyntaxItem::Content("leaf");
    for _ in 0..50 {
        item = tag("span", vec![], vec![item]);
    }
    let mut code = emit_item(item);
    let mut depth = 0;
    loop {
        match code {
            Construction::Build { builder, mut statements } => {
                assert_eq!(builder, tag_builder("span", 0, 1));
                assert_eq!(statements.len(), 1);
                match statements.pop() {
                    Some(Statement::AddChild(child)) => code = child,
                    other => panic!("expected a child, got {:?}", other),
                }
                depth += 1;
            }
            Construction::FromExpression(e) => {
                assert_eq!(e, "leaf");
                break;
            }
        }
    }
    assert_eq!(depth, 50);
}
