use sol_ast::decode::{decode_expression, decode_node, decode_statement, DecodeError};
use sol_ast::json::{find_member, str_eq, JsonValue};
use sol_ast::node::{Expression, FunctionKind, Node, NodeType, StateMutability, Statement, Visibility};
use sol_ast::tags::{node_type_of_tag, parse_function_kind, parse_mutability, parse_visibility};

fn s(t: &str) -> JsonValue {
    JsonValue::Str(t.to_string())
}

fn u(n: u64) -> JsonValue {
    JsonValue::UInt(n)
}

fn obj(members: Vec<(&str, JsonValue)>) -> JsonValue {
    JsonValue::Object(members.into_iter().map(|(k, v)| (k.to_string(), v)).collect())
}

fn arr(items: Vec<JsonValue>) -> JsonValue {
    JsonValue::Array(items)
}

fn block(id: u64, statements: Vec<JsonValue>) -> JsonValue {
    obj(vec![("nodeType", s("Block")), ("id", u(id)), ("src", s("0:0:0")), ("statements", arr(statements))])
}

fn unknown(id: u64) -> JsonValue {
    obj(vec![("nodeType", s("SomethingNew")), ("id", u(id)), ("nodes", arr(vec![]))])
}

fn function_definition(visibility: &str, mutability: &str, kind: &str) -> JsonValue {
    obj(vec![
        ("nodeType", s("FunctionDefinition")),
        ("id", u(7)),
        ("nodes", arr(vec![])),
        ("kind", s(kind)),
        ("name", s("f")),
        ("visibility", s(visibility)),
        ("stateMutability", s(mutability)),
        ("body", block(8, vec![])),
    ])
}

/// The smallest object that decodes to a node of the named kind.
fn fixture(tag: &str) -> JsonValue {
    match tag {
        "Block" => block(1, vec![]),
        "SourceUnit" => obj(vec![("nodeType", s(tag)), ("id", u(1)), ("nodes", arr(vec![]))]),
        "ContractDefinition" => {
            obj(vec![("nodeType", s(tag)), ("id", u(1)), ("nodes", arr(vec![])), ("name", s("C"))])
        },
        "FunctionDefinition" => function_definition("public", "view", "function"),
        "VariableDeclaration" => obj(vec![
            ("nodeType", s(tag)),
            ("id", u(1)),
            ("nodes", arr(vec![])),
            ("name", s("x")),
            ("visibility", s("internal")),
        ]),
        _ => obj(vec![("nodeType", s(tag))]),
    }
}

fn ids(nodes: &Vec<Node>) -> Vec<u32> {
    nodes
        .iter()
        .map(|n| match n {
            Node::Unknown { id, .. } => *id,
            Node::SourceUnit { id, .. } => *id,
            Node::ContractDefinition { id, .. } => *id,
            Node::FunctionDefinition { id, .. } => *id,
            Node::VariableDeclaration { id, .. } => *id,
            Node::Block(b) => b.id,
            _ => u32::MAX,
        })
        .collect()
}

#[test]
fn every_known_tag_decodes_and_classifies() {
    let kinds: Vec<(&str, NodeType)> = vec![
        ("ArrayTypeName", NodeType::ArrayTypeName),
        ("Assignment", NodeType::Assignment),
        ("BinaryOperation", NodeType::BinaryOperation),
        ("Block", NodeType::Block),
        ("Break", NodeType::Break),
        ("Conditional", NodeType::Conditional),
        ("Continue", NodeType::Continue),
        ("ContractDefinition", NodeType::ContractDefinition),
        ("DoWhileStatement", NodeType::DoWhileStatement),
        ("ElementaryTypeName", NodeType::ElementaryTypeName),
        ("ElementaryTypeNameExpression", NodeType::ElementaryTypeNameExpression),
        ("EmitStatement", NodeType::EmitStatement),
        ("EnumDefinition", NodeType::EnumDefinition),
        ("EnumValue", NodeType::EnumValue),
        ("ErrorDefinition", NodeType::ErrorDefinition),
        ("EventDefinition", NodeType::EventDefinition),
        ("ExpressionStatement", NodeType::ExpressionStatement),
        ("ForStatement", NodeType::ForStatement),
        ("FunctionCall", NodeType::FunctionCall),
        ("FunctionCallOptions", NodeType::FunctionCallOptions),
        ("FunctionDefinition", NodeType::FunctionDefinition),
        ("FunctionTypeName", NodeType::FunctionTypeName),
        ("Identifier", NodeType::Identifier),
        ("IdentifierPath", NodeType::IdentifierPath),
        ("IfStatement", NodeType::IfStatement),
        ("ImportDirective", NodeType::ImportDirective),
        ("IndexAccess", NodeType::IndexAccess),
        ("IndexRangeAccess", NodeType::IndexRangeAccess),
        ("InheritanceSpecifier", NodeType::InheritanceSpecifier),
        ("InlineAssembly", NodeType::InlineAssembly),
        ("Literal", NodeType::Literal),
        ("Mapping", NodeType::Mapping),
        ("MemberAccess", NodeType::MemberAccess),
        ("ModifierDefinition", NodeType::ModifierDefinition),
        ("ModifierInvocation", NodeType::ModifierInvocation),
        ("NewExpression", NodeType::NewExpression),
        ("OverrideSpecifier", NodeType::OverrideSpecifier),
        ("ParameterList", NodeType::ParameterList),
        ("PlaceholderStatement", NodeType::PlaceholderStatement),
        ("PragmaDirective", NodeType::PragmaDirective),
        ("Return", NodeType::Return),
        ("RevertStatement", NodeType::RevertStatement),
        ("SourceUnit", NodeType::SourceUnit),
        ("StructDefinition", NodeType::StructDefinition),
        ("StructuredDocumentation", NodeType::StructuredDocumentation),
        ("Throw", NodeType::Throw),
        ("TryCatchClause", NodeType::TryCatchClause),
        ("TryStatement", NodeType::TryStatement),
        ("TupleExpression", NodeType::TupleExpression),
        ("UnaryOperation", NodeType::UnaryOperation),
        ("UncheckedBlock", NodeType::UncheckedBlock),
        ("UserDefinedTypeName", NodeType::UserDefinedTypeName),
        ("UserDefinedValueTypeDefinition", NodeType::UserDefinedValueTypeDefinition),
        ("UsingForDirective", NodeType::UsingForDirective),
        ("VariableDeclaration", NodeType::VariableDeclaration),
        ("VariableDeclarationStatement", NodeType::VariableDeclarationStatement),
        ("WhileStatement", NodeType::WhileStatement),
        ("YulAssignment", NodeType::YulAssignment),
        ("YulBlock", NodeType::YulBlock),
        ("YulCase", NodeType::YulCase),
        ("YulExpressionStatement", NodeType::YulExpressionStatement),
        ("YulFunctionCall", NodeType::YulFunctionCall),
        ("YulIdentifier", NodeType::YulIdentifier),
        ("YulLiteral", NodeType::YulLiteral),
        ("YulSwitch", NodeType::YulSwitch),
        ("YulTypedName", NodeType::YulTypedName),
        ("YulVariableDeclaration", NodeType::YulVariableDeclaration),
    ];
    assert_eq!(kinds.len(), 67);
    for (tag, kind) in kinds {
        let node = decode_node(&fixture(tag)).unwrap();
        assert_eq!(node.get_type(), kind, "{}", tag);
        assert_eq!(node_type_of_tag(tag), kind);
    }
}

#[test]
fn unrecognized_tag_with_id_and_nodes_decodes_to_unknown() {
    let v = obj(vec![("nodeType", s("YulLeave")), ("id", u(42)), ("nodes", arr(vec![unknown(43)]))]);
    let node = decode_node(&v).unwrap();
    assert_eq!(node.get_type(), NodeType::Unknown);
    match &node {
        Node::Unknown { id, nodes } => {
            assert_eq!(*id, 42);
            assert_eq!(ids(nodes), vec![43]);
        },
        _ => panic!("expected Unknown"),
    }
}

#[test]
fn missing_tag_with_id_and_nodes_decodes_to_unknown() {
    let v = obj(vec![("id", u(5)), ("nodes", arr(vec![]))]);
    assert_eq!(decode_node(&v).unwrap().get_type(), NodeType::Unknown);
}

#[test]
fn the_word_unknown_is_not_a_recognized_tag() {
    assert_eq!(node_type_of_tag("Unknown"), NodeType::Unknown);
    let v = obj(vec![("nodeType", s("Unknown"))]);
    assert!(matches!(decode_node(&v), Err(DecodeError::UnknownNodeType { .. })));
}

#[test]
fn leaf_nodes_have_no_children() {
    let ident = decode_node(&fixture("Identifier")).unwrap();
    assert!(ident.get_nodes().is_none());
    let b = decode_node(&fixture("Block")).unwrap();
    assert!(b.get_nodes().is_none());
    let var = decode_node(&fixture("VariableDeclaration")).unwrap();
    assert!(var.get_nodes().is_none());
    assert!(Node::YulSwitch {}.get_nodes().is_none());
}

#[test]
fn function_body_is_not_a_child() {
    let v = obj(vec![
        ("nodeType", s("FunctionDefinition")),
        ("id", u(7)),
        ("nodes", arr(vec![])),
        ("kind", s("constructor")),
        ("name", s("")),
        ("visibility", s("public")),
        ("stateMutability", s("payable")),
        ("body", block(8, vec![obj(vec![("nodeType", s("Return"))])])),
    ]);
    let node = decode_node(&v).unwrap();
    assert_eq!(node.get_nodes().unwrap().len(), 0);
    match node {
        Node::FunctionDefinition { kind, visibility, state_mutability, body, .. } => {
            assert_eq!(kind, FunctionKind::Constructor);
            assert_eq!(visibility, Visibility::Public);
            assert_eq!(state_mutability, StateMutability::Payable);
            assert_eq!(body.id, 8);
            assert_eq!(body.statements.len(), 1);
            assert!(matches!(body.statements[0], Statement::Return));
        },
        _ => panic!("expected FunctionDefinition"),
    }
}

#[test]
fn containers_return_their_children() {
    let kids = || arr(vec![unknown(10), unknown(11)]);
    let su = obj(vec![("nodeType", s("SourceUnit")), ("id", u(1)), ("nodes", kids())]);
    let cd = obj(vec![("nodeType", s("ContractDefinition")), ("id", u(2)), ("nodes", kids()), ("name", s("C"))]);
    let fd = obj(vec![
        ("nodeType", s("FunctionDefinition")),
        ("id", u(3)),
        ("nodes", kids()),
        ("kind", s("freeFunction")),
        ("name", s("g")),
        ("visibility", s("external")),
        ("stateMutability", s("nonpayable")),
        ("body", block(4, vec![])),
    ]);
    let un = obj(vec![("nodeType", s("Other")), ("id", u(5)), ("nodes", kids())]);
    for v in [su, cd, fd, un] {
        let node = decode_node(&v).unwrap();
        assert_eq!(ids(node.get_nodes().unwrap()), vec![10, 11]);
    }
}

#[test]
fn compilation_unit_children_keep_document_order() {
    let a = obj(vec![("nodeType", s("ContractDefinition")), ("id", u(100)), ("nodes", arr(vec![])), ("name", s("A"))]);
    let b = unknown(200);
    let c = obj(vec![
        ("nodeType", s("VariableDeclaration")),
        ("id", u(300)),
        ("nodes", arr(vec![])),
        ("name", s("c")),
        ("visibility", s("private")),
    ]);
    let v = obj(vec![("nodeType", s("SourceUnit")), ("id", u(1)), ("nodes", arr(vec![a, b, c]))]);
    let node = decode_node(&v).unwrap();
    assert_eq!(node.get_type(), NodeType::SourceUnit);
    let children = node.get_nodes().unwrap();
    assert_eq!(ids(children), vec![100, 200, 300]);
    assert_eq!(children[0].get_type(), NodeType::ContractDefinition);
    assert_eq!(children[1].get_type(), NodeType::Unknown);
    assert_eq!(children[2].get_type(), NodeType::VariableDeclaration);
}

#[test]
fn unknown_visibility_is_rejected() {
    let v = function_definition("protected", "view", "function");
    match decode_node(&v) {
        Err(DecodeError::UnknownVariant { field, value, id }) => {
            assert_eq!(field, "visibility");
            assert_eq!(value, "protected");
            assert_eq!(id, Some(7));
        },
        other => panic!("unexpected {:?}", other),
    }
    let var = obj(vec![
        ("nodeType", s("VariableDeclaration")),
        ("id", u(1)),
        ("nodes", arr(vec![])),
        ("name", s("x")),
        ("visibility", s("Public")),
    ]);
    assert!(matches!(decode_node(&var), Err(DecodeError::UnknownVariant { .. })));
}

#[test]
fn unknown_mutability_and_kind_are_rejected() {
    assert!(matches!(
        decode_node(&function_definition("public", "constant", "function")),
        Err(DecodeError::UnknownVariant { .. })
    ));
    assert!(matches!(
        decode_node(&function_definition("public", "view", "modifier")),
        Err(DecodeError::UnknownVariant { .. })
    ));
}

#[test]
fn unrecognized_tag_without_id_or_nodes_fails() {
    let neither = obj(vec![("nodeType", s("Mystery")), ("src", s("1:2:0"))]);
    assert!(matches!(decode_node(&neither), Err(DecodeError::UnknownNodeType { tag: Some(_) })));
    let no_nodes = obj(vec![("nodeType", s("Mystery")), ("id", u(1))]);
    assert!(matches!(decode_node(&no_nodes), Err(DecodeError::UnknownNodeType { .. })));
    let no_id = obj(vec![("nodeType", s("Mystery")), ("nodes", arr(vec![]))]);
    assert!(matches!(decode_node(&no_id), Err(DecodeError::UnknownNodeType { .. })));
}

#[test]
fn a_bad_child_fails_the_whole_document() {
    let bad = obj(vec![("nodeType", s("ContractDefinition")), ("id", u(2)), ("nodes", arr(vec![]))]);
    let v = obj(vec![("nodeType", s("SourceUnit")), ("id", u(1)), ("nodes", arr(vec![unknown(3), bad]))]);
    match decode_node(&v) {
        Err(DecodeError::MissingField { field, id }) => {
            assert_eq!(field, "name");
            assert_eq!(id, Some(2));
        },
        other => panic!("unexpected {:?}", other),
    }
}

#[test]
fn non_object_and_wrong_shapes_fail() {
    assert!(matches!(decode_node(&JsonValue::Null), Err(DecodeError::NotAnObject)));
    assert!(matches!(decode_node(&arr(vec![])), Err(DecodeError::NotAnObject)));
    let too_big = obj(vec![("nodeType", s("SourceUnit")), ("id", u(4_294_967_296)), ("nodes", arr(vec![]))]);
    assert!(matches!(decode_node(&too_big), Err(DecodeError::InvalidField { .. })));
    let negative = obj(vec![("nodeType", s("SourceUnit")), ("id", JsonValue::NegInt(-1)), ("nodes", arr(vec![]))]);
    assert!(matches!(decode_node(&negative), Err(DecodeError::InvalidField { .. })));
    let nodes_not_array = obj(vec![("nodeType", s("SourceUnit")), ("id", u(1)), ("nodes", u(3))]);
    assert!(matches!(decode_node(&nodes_not_array), Err(DecodeError::InvalidField { .. })));
    let max = obj(vec![("nodeType", s("SourceUnit")), ("id", u(4_294_967_295)), ("nodes", arr(vec![]))]);
    assert!(matches!(decode_node(&max), Ok(Node::SourceUnit { id: 4_294_967_295, .. })));
}

#[test]
fn statements_and_expressions_decode() {
    let callee = obj(vec![("nodeType", s("Identifier")), ("id", u(3)), ("src", s("0:1:0")), ("name", s("f"))]);
    let call = obj(vec![("nodeType", s("FunctionCall")), ("id", u(2)), ("src", s("0:3:0")), ("expression", callee)]);
    let stmt = obj(vec![("nodeType", s("ExpressionStatement")), ("id", u(1)), ("src", s("0:4:0")), ("expression", call)]);
    match decode_statement(&stmt).unwrap() {
        Statement::ExpressionStatement(es) => {
            assert_eq!(es.id, 1);
            assert_eq!(es.src, "0:4:0");
            match es.expression {
                Expression::FunctionCall(fc) => {
                    assert_eq!(fc.id, 2);
                    match *fc.expression {
                        Expression::Identifier(x) => assert_eq!(x.name, "f"),
                        _ => panic!("expected Identifier"),
                    }
                },
                _ => panic!("expected FunctionCall"),
            }
        },
        _ => panic!("expected ExpressionStatement"),
    }
    assert!(matches!(decode_expression(&obj(vec![("nodeType", s("Literal"))])), Ok(Expression::Literal)));
}

#[test]
fn positions_reject_kinds_they_do_not_admit() {
    let contract = obj(vec![("nodeType", s("PragmaDirective"))]);
    assert!(matches!(decode_statement(&contract), Err(DecodeError::UnknownNodeType { .. })));
    let ret = obj(vec![("nodeType", s("Return"))]);
    assert!(matches!(decode_expression(&ret), Err(DecodeError::UnknownNodeType { .. })));
    let nested = block(1, vec![obj(vec![("nodeType", s("Identifier"))])]);
    assert!(matches!(decode_node(&nested), Err(DecodeError::UnknownNodeType { .. })));
}

#[test]
fn closed_enumerations_read_their_exact_strings() {
    assert_eq!(parse_visibility("private"), Some(Visibility::Private));
    assert_eq!(parse_visibility("external"), Some(Visibility::External));
    assert_eq!(parse_visibility("PRIVATE"), None);
    assert_eq!(parse_mutability("nonpayable"), Some(StateMutability::NonPayable));
    assert_eq!(parse_mutability("pure"), Some(StateMutability::Pure));
    assert_eq!(parse_mutability("nonPayable"), None);
    assert_eq!(parse_function_kind("freeFunction"), Some(FunctionKind::FreeFunction));
    assert_eq!(parse_function_kind("receive"), Some(FunctionKind::Receive));
    assert_eq!(parse_function_kind("freefunction"), None);
}

#[test]
fn members_are_found_by_first_exact_name() {
    let ms: Vec<(String, JsonValue)> =
        vec![("a".to_string(), u(1)), ("id".to_string(), u(2)), ("id".to_string(), u(3))];
    assert_eq!(find_member(&ms, "id"), Some(1));
    assert_eq!(find_member(&ms, "i"), None);
    assert_eq!(find_member(&ms, "ID"), None);
    assert!(str_eq("abc", "abc"));
    assert!(!str_eq("abc", "abd"));
    assert!(!str_eq("ab", "abc"));
    assert!(str_eq("", ""));
}

