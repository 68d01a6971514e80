use vstd::prelude::*;

use crate::json::{find_member, member, member_at, JsonValue};
use crate::node::{
    Block, Expression, ExpressionStatement, FunctionCall, FunctionKind, Identifier, Node, NodeType,
    StateMutability, Statement, Visibility,
};
use crate::tags::{
    function_kind_of, mutability_of, node_type_of_tag, parse_function_kind, parse_mutability,
    parse_visibility, tag_kind, visibility_of,
};

verus! {

/// The kind named by the `nodeType` member of an object; `Unknown` when the
/// member is absent, is not a string, or names no known kind.
pub open spec fn discriminator(ms: Seq<(String, JsonValue)>) -> NodeType {
    match member(ms, "nodeType"@) {
        Some(JsonValue::Str(t)) => tag_kind(t@),
        _ => NodeType::Unknown,
    }
}

/// The member `id` holds `id`.
pub open spec fn has_id(ms: Seq<(String, JsonValue)>, id: u32) -> bool {
    member(ms, "id"@) == Some(JsonValue::UInt(id as u64))
}

/// The member `key` holds the string `s`.
pub open spec fn has_str(ms: Seq<(String, JsonValue)>, key: Seq<char>, s: String) -> bool {
    match member(ms, key) {
        Some(JsonValue::Str(t)) => t@ == s@,
        _ => false,
    }
}

/// The member `visibility` names `x`.
pub open spec fn has_visibility(ms: Seq<(String, JsonValue)>, x: Visibility) -> bool {
    match member(ms, "visibility"@) {
        Some(JsonValue::Str(t)) => visibility_of(t@) == Some(x),
        _ => false,
    }
}

/// The member `stateMutability` names `x`.
pub open spec fn has_mutability(ms: Seq<(String, JsonValue)>, x: StateMutability) -> bool {
    match member(ms, "stateMutability"@) {
        Some(JsonValue::Str(t)) => mutability_of(t@) == Some(x),
        _ => false,
    }
}

/// The member `kind` names `x`.
pub open spec fn has_function_kind(ms: Seq<(String, JsonValue)>, x: FunctionKind) -> bool {
    match member(ms, "kind"@) {
        Some(JsonValue::Str(t)) => function_kind_of(t@) == Some(x),
        _ => false,
    }
}

/// An object with an absent or unrecognized discriminator that lacks `id` or
/// `nodes`, so that it cannot fall back on `Unknown`.
pub open spec fn lacks_fallback(v: JsonValue) -> bool {
    match v {
        JsonValue::Object(ms) => discriminator(ms@) == NodeType::Unknown && (member(ms@, "id"@) is None
            || member(ms@, "nodes"@) is None),
        _ => false,
    }
}

/// The node kind of each statement variant.
pub open spec fn statement_kind(s: Statement) -> NodeType {
    match s {
        Statement::Block(..) => NodeType::Block,
        Statement::Break => NodeType::Break,
        Statement::Continue => NodeType::Continue,
        Statement::DoWhileStatement => NodeType::DoWhileStatement,
        Statement::EmitStatement => NodeType::EmitStatement,
        Statement::ExpressionStatement(..) => NodeType::ExpressionStatement,
        Statement::ForStatement => NodeType::ForStatement,
        Statement::IfStatement => NodeType::IfStatement,
        Statement::InlineAssembly => NodeType::InlineAssembly,
        Statement::PlaceholderStatement => NodeType::PlaceholderStatement,
        Statement::Return => NodeType::Return,
        Statement::RevertStatement => NodeType::RevertStatement,
        Statement::TryStatement => NodeType::TryStatement,
        Statement::UncheckedBlock => NodeType::UncheckedBlock,
        Statement::VariableDeclarationStatement => NodeType::VariableDeclarationStatement,
        Statement::WhileStatement => NodeType::WhileStatement,
    }
}

/// The node kind of each expression variant.
pub open spec fn expression_kind(e: Expression) -> NodeType {
    match e {
        Expression::Assignment => NodeType::Assignment,
        Expression::BinaryOperation => NodeType::BinaryOperation,
        Expression::Conditional => NodeType::Conditional,
        Expression::ElementaryTypeNameExpression => NodeType::ElementaryTypeNameExpression,
        Expression::FunctionCall(..) => NodeType::FunctionCall,
        Expression::FunctionCallOptions => NodeType::FunctionCallOptions,
        Expression::Identifier(..) => NodeType::Identifier,
        Expression::IndexAccess => NodeType::IndexAccess,
        Expression::IndexRangeAccess => NodeType::IndexRangeAccess,
        Expression::Literal => NodeType::Literal,
        Expression::MemberAccess => NodeType::MemberAccess,
        Expression::NewExpression => NodeType::NewExpression,
        Expression::TupleExpression => NodeType::TupleExpression,
        Expression::UnaryOperation => NodeType::UnaryOperation,
    }
}

/// `n` is what the JSON value `v` decodes to as a node.
pub open spec fn decodes_node(v: JsonValue, n: Node) -> bool
    decreases v, 1nat,
{
    match v {
        JsonValue::Object(ms) => n.kind() == discriminator(ms@) && match n {
            Node::Block(b) => decodes_block(v, b),
            Node::ContractDefinition { id, nodes, name } => has_id(ms@, id) && decodes_children(
                v,
                nodes,
            ) && has_str(ms@, "name"@, name),
            Node::FunctionDefinition {
                id,
                nodes,
                kind,
                name,
                visibility,
                state_mutability,
                body,
            } => {
                let i = member_at(ms@, "body"@);
                &&& has_id(ms@, id)
                &&& decodes_children(v, nodes)
                &&& has_function_kind(ms@, kind)
                &&& has_str(ms@, "name"@, name)
                &&& has_visibility(ms@, visibility)
                &&& has_mutability(ms@, state_mutability)
                &&& 0 <= i < ms@.len()
                &&& decodes_block(ms@[i].1, body)
            },
            Node::SourceUnit { id, nodes } => has_id(ms@, id) && decodes_children(v, nodes),
            Node::VariableDeclaration { id, nodes, name, visibility } => has_id(ms@, id)
                && decodes_children(v, nodes) && has_str(ms@, "name"@, name) && has_visibility(
                ms@,
                visibility,
            ),
            Node::Unknown { id, nodes } => has_id(ms@, id) && decodes_children(v, nodes),
            _ => true,
        },
        _ => false,
    }
}

/// `nodes` is what the array in the member `nodes` of the object `v` decodes
/// to, element by element.
pub open spec fn decodes_children(v: JsonValue, nodes: Vec<Node>) -> bool
    decreases v, 0nat,
{
    match v {
        JsonValue::Object(ms) => {
            let i = member_at(ms@, "nodes"@);
            0 <= i < ms@.len() && match ms@[i].1 {
                JsonValue::Array(es) => nodes@.len() == es@.len() && forall|j: int|
                    0 <= j < es@.len() ==> decodes_node(#[trigger] es@[j], nodes@[j]),
                _ => false,
            }
        },
        _ => false,
    }
}

/// `b` is what the object `v` decodes to as a block.
pub open spec fn decodes_block(v: JsonValue, b: Block) -> bool
    decreases v, 0nat,
{
    match v {
        JsonValue::Object(ms) => {
            let i = member_at(ms@, "statements"@);
            &&& has_id(ms@, b.id)
            &&& has_str(ms@, "src"@, b.src)
            &&& 0 <= i < ms@.len()
            &&& match ms@[i].1 {
                JsonValue::Array(es) => b.statements@.len() == es@.len() && forall|j: int|
                    0 <= j < es@.len() ==> decodes_statement(#[trigger] es@[j], b.statements@[j]),
                _ => false,
            }
        },
        _ => false,
    }
}

/// `s` is what the JSON value `v` decodes to as a statement.
pub open spec fn decodes_statement(v: JsonValue, s: Statement) -> bool
    decreases v, 1nat,
{
    match v {
        JsonValue::Object(ms) => statement_kind(s) == discriminator(ms@) && match s {
            Statement::Block(b) => decodes_block(v, b),
            Statement::ExpressionStatement(es) => {
                let i = member_at(ms@, "expression"@);
                &&& has_id(ms@, es.id)
                &&& has_str(ms@, "src"@, es.src)
                &&& 0 <= i < ms@.len()
                &&& decodes_expression(ms@[i].1, es.expression)
            },
            _ => true,
        },
        _ => false,
    }
}

/// `e` is what the JSON value `v` decodes to as an expression.
pub open spec fn decodes_expression(v: JsonValue, e: Expression) -> bool
    decreases v, 1nat,
{
    match v {
        JsonValue::Object(ms) => expression_kind(e) == discriminator(ms@) && match e {
            Expression::FunctionCall(c) => {
                let i = member_at(ms@, "expression"@);
                &&& has_id(ms@, c.id)
                &&& has_str(ms@, "src"@, c.src)
                &&& 0 <= i < ms@.len()
                &&& decodes_expression(ms@[i].1, *c.expression)
            },
            Expression::Identifier(x) => has_id(ms@, x.id) && has_str(ms@, "src"@, x.src) && has_str(
                ms@,
                "name"@,
                x.name,
            ),
            _ => true,
        },
        _ => false,
    }
}


/// Why a JSON value could not be decoded.
#[derive(Debug)]
pub enum DecodeError {
    /// A node, block, statement or expression is not a JSON object.
    NotAnObject,
    /// A required member is absent; `id` is the node's id when it was read.
    MissingField { field: String, id: Option<u32> },
    /// A member is present but has the wrong shape.
    InvalidField { field: String, id: Option<u32> },
    /// A member of a closed enumeration holds a string outside its set.
    UnknownVariant { field: String, value: String, id: Option<u32> },
    /// The discriminator is not one that the position admits, and the node
    /// cannot fall back on `Unknown`.
    UnknownNodeType { tag: Option<String> },
}

/// The kind named by an object's discriminator.
pub fn discriminator_of(ms: &Vec<(String, JsonValue)>) -> (r: NodeType)
    ensures
        r == discriminator(ms@),
{
    match find_member(ms, "nodeType") {
        Some(i) => match &ms[i].1 {
            JsonValue::Str(t) => node_type_of_tag(t.as_str()),
            _ => NodeType::Unknown,
        },
        None => NodeType::Unknown,
    }
}

/// The discriminator string of an object, if it has one.
fn tag_text(ms: &Vec<(String, JsonValue)>) -> (r: Option<String>)
    ensures
        r matches Some(t) ==> member(ms@, "nodeType"@) == Some(JsonValue::Str(t)),
{
    match find_member(ms, "nodeType") {
        Some(i) => match &ms[i].1 {
            JsonValue::Str(t) => Some(t.clone()),
            _ => None,
        },
        None => None,
    }
}

fn missing(key: &str, id: Option<u32>) -> DecodeError {
    DecodeError::MissingField { field: key.to_owned(), id }
}

fn invalid(key: &str, id: Option<u32>) -> DecodeError {
    DecodeError::InvalidField { field: key.to_owned(), id }
}

/// Reads the member `id`, which must be an integer that fits in `u32`.
fn get_id(ms: &Vec<(String, JsonValue)>) -> (r: Result<u32, DecodeError>)
    ensures
        match r {
            Ok(id) => has_id(ms@, id),
            Err(_) => forall|id: u32| !has_id(ms@, id),
        },
{
    match find_member(ms, "id") {
        Some(i) => match &ms[i].1 {
            JsonValue::UInt(k) => {
                if *k <= 0xffff_ffffu64 {
                    Ok(*k as u32)
                } else {
                    Err(invalid("id", None))
                }
            },
            _ => Err(invalid("id", None)),
        },
        None => Err(missing("id", None)),
    }
}

/// Reads the string member `key`.
fn get_str(ms: &Vec<(String, JsonValue)>, key: &str, id: Option<u32>) -> (r: Result<String, DecodeError>)
    ensures
        match r {
            Ok(s) => has_str(ms@, key@, s),
            Err(_) => forall|s: String| !has_str(ms@, key@, s),
        },
{
    match find_member(ms, key) {
        Some(i) => match &ms[i].1 {
            JsonValue::Str(t) => Ok(t.clone()),
            _ => Err(invalid(key, id)),
        },
        None => Err(missing(key, id)),
    }
}

/// Reads the member `visibility`, which must name a `Visibility`.
fn get_visibility(ms: &Vec<(String, JsonValue)>, id: Option<u32>) -> (r: Result<Visibility, DecodeError>)
    ensures
        match r {
            Ok(x) => has_visibility(ms@, x),
            Err(_) => forall|x: Visibility| !has_visibility(ms@, x),
        },
{
    match find_member(ms, "visibility") {
        Some(i) => match &ms[i].1 {
            JsonValue::Str(t) => match parse_visibility(t.as_str()) {
                Some(x) => Ok(x),
                None => Err(DecodeError::UnknownVariant { field: "visibility".to_owned(), value: t.clone(), id }),
            },
            _ => Err(invalid("visibility", id)),
        },
        None => Err(missing("visibility", id)),
    }
}

/// Reads the member `stateMutability`, which must name a `StateMutability`.
fn get_mutability(ms: &Vec<(String, JsonValue)>, id: Option<u32>) -> (r: Result<StateMutability, DecodeError>)
    ensures
        match r {
            Ok(x) => has_mutability(ms@, x),
            Err(_) => forall|x: StateMutability| !has_mutability(ms@, x),
        },
{
    match find_member(ms, "stateMutability") {
        Some(i) => match &ms[i].1 {
            JsonValue::Str(t) => match parse_mutability(t.as_str()) {
                Some(x) => Ok(x),
                None => Err(DecodeError::UnknownVariant { field: "stateMutability".to_owned(), value: t.clone(), id }),
            },
            _ => Err(invalid("stateMutability", id)),
        },
        None => Err(missing("stateMutability", id)),
    }
}

/// Reads the member `kind`, which must name a `FunctionKind`.
fn get_function_kind(ms: &Vec<(String, JsonValue)>, id: Option<u32>) -> (r: Result<FunctionKind, DecodeError>)
    ensures
        match r {
            Ok(x) => has_function_kind(ms@, x),
            Err(_) => forall|x: FunctionKind| !has_function_kind(ms@, x),
        },
{
    match find_member(ms, "kind") {
        Some(i) => match &ms[i].1 {
            JsonValue::Str(t) => match parse_function_kind(t.as_str()) {
                Some(x) => Ok(x),
                None => Err(DecodeError::UnknownVariant { field: "kind".to_owned(), value: t.clone(), id }),
            },
            _ => Err(invalid("kind", id)),
        },
        None => Err(missing("kind", id)),
    }
}

/// A node's kind tells which field-bearing variant it is.
proof fn lemma_kind_determines_variant()
    ensures
        forall|n: Node| #[trigger] n.kind() == NodeType::Block ==> n is Block,
        forall|n: Node| #[trigger] n.kind() == NodeType::ContractDefinition ==> n is ContractDefinition,
        forall|n: Node| #[trigger] n.kind() == NodeType::FunctionDefinition ==> n is FunctionDefinition,
        forall|n: Node| #[trigger] n.kind() == NodeType::SourceUnit ==> n is SourceUnit,
        forall|n: Node| #[trigger] n.kind() == NodeType::VariableDeclaration ==> n is VariableDeclaration,
        forall|n: Node| #[trigger] n.kind() == NodeType::Unknown ==> n is Unknown,
{
}

/// A statement's kind tells which field-bearing variant it is.
proof fn lemma_statement_kind_determines_variant()
    ensures
        forall|s: Statement| #[trigger] statement_kind(s) == NodeType::Block ==> s is Block,
        forall|s: Statement| #[trigger] statement_kind(s) == NodeType::ExpressionStatement ==> s is ExpressionStatement,
{
}

/// An expression's kind tells which field-bearing variant it is.
proof fn lemma_expression_kind_determines_variant()
    ensures
        forall|e: Expression| #[trigger] expression_kind(e) == NodeType::FunctionCall ==> e is FunctionCall,
        forall|e: Expression| #[trigger] expression_kind(e) == NodeType::Identifier ==> e is Identifier,
{
}

/// Decodes a node: the variant that its discriminator names, or `Unknown`
/// for an object with an unrecognized discriminator that has `id` and `nodes`.
pub fn decode_node(v: &JsonValue) -> (r: Result<Node, DecodeError>)
    ensures
        match r {
            Ok(n) => decodes_node(*v, n),
            Err(_) => forall|n: Node| !decodes_node(*v, n),
        },
        lacks_fallback(*v) ==> r matches Err(DecodeError::UnknownNodeType { .. }),
    decreases v, 1nat,
{
    let ms = match v {
        JsonValue::Object(ms) => ms,
        _ => return Err(DecodeError::NotAnObject),
    };
    let k = discriminator_of(ms);
    proof {
        lemma_kind_determines_variant();
    }
    match k {
        NodeType::ArrayTypeName => Ok(Node::ArrayTypeName {}),
        NodeType::Assignment => Ok(Node::Assignment {}),
        NodeType::BinaryOperation => Ok(Node::BinaryOperation {}),
        NodeType::Break => Ok(Node::Break {}),
        NodeType::Conditional => Ok(Node::Conditional {}),
        NodeType::Continue => Ok(Node::Continue {}),
        NodeType::DoWhileStatement => Ok(Node::DoWhileStatement {}),
        NodeType::ElementaryTypeName => Ok(Node::ElementaryTypeName {}),
        NodeType::ElementaryTypeNameExpression => Ok(Node::ElementaryTypeNameExpression {}),
        NodeType::EmitStatement => Ok(Node::EmitStatement {}),
        NodeType::EnumDefinition => Ok(Node::EnumDefinition {}),
        NodeType::EnumValue => Ok(Node::EnumValue {}),
        NodeType::ErrorDefinition => Ok(Node::ErrorDefinition {}),
        NodeType::EventDefinition => Ok(Node::EventDefinition {}),
        NodeType::ExpressionStatement => Ok(Node::ExpressionStatement {}),
        NodeType::ForStatement => Ok(Node::ForStatement {}),
        NodeType::FunctionCall => Ok(Node::FunctionCall {}),
        NodeType::FunctionCallOptions => Ok(Node::FunctionCallOptions {}),
        NodeType::FunctionTypeName => Ok(Node::FunctionTypeName {}),
        NodeType::Identifier => Ok(Node::Identifier {}),
        NodeType::IdentifierPath => Ok(Node::IdentifierPath {}),
        NodeType::IfStatement => Ok(Node::IfStatement {}),
        NodeType::ImportDirective => Ok(Node::ImportDirective {}),
        NodeType::IndexAccess => Ok(Node::IndexAccess {}),
        NodeType::IndexRangeAccess => Ok(Node::IndexRangeAccess {}),
        NodeType::InheritanceSpecifier => Ok(Node::InheritanceSpecifier {}),
        NodeType::InlineAssembly => Ok(Node::InlineAssembly {}),
        NodeType::Literal => Ok(Node::Literal {}),
        NodeType::Mapping => Ok(Node::Mapping {}),
        NodeType::MemberAccess => Ok(Node::MemberAccess {}),
        NodeType::ModifierDefinition => Ok(Node::ModifierDefinition {}),
        NodeType::ModifierInvocation => Ok(Node::ModifierInvocation {}),
        NodeType::NewExpression => Ok(Node::NewExpression {}),
        NodeType::OverrideSpecifier => Ok(Node::OverrideSpecifier {}),
        NodeType::ParameterList => Ok(Node::ParameterList {}),
        NodeType::PlaceholderStatement => Ok(Node::PlaceholderStatement {}),
        NodeType::PragmaDirective => Ok(Node::PragmaDirective {}),
        NodeType::Return => Ok(Node::Return {}),
        NodeType::RevertStatement => Ok(Node::RevertStatement {}),
        NodeType::StructDefinition => Ok(Node::StructDefinition {}),
        NodeType::StructuredDocumentation => Ok(Node::StructuredDocumentation {}),
        NodeType::Throw => Ok(Node::Throw {}),
        NodeType::TryCatchClause => Ok(Node::TryCatchClause {}),
        NodeType::TryStatement => Ok(Node::TryStatement {}),
        NodeType::TupleExpression => Ok(Node::TupleExpression {}),
        NodeType::UnaryOperation => Ok(Node::UnaryOperation {}),
        NodeType::UncheckedBlock => Ok(Node::UncheckedBlock {}),
        NodeType::UserDefinedTypeName => Ok(Node::UserDefinedTypeName {}),
        NodeType::UserDefinedValueTypeDefinition => Ok(Node::UserDefinedValueTypeDefinition {}),
        NodeType::UsingForDirective => Ok(Node::UsingForDirective {}),
        NodeType::VariableDeclarationStatement => Ok(Node::VariableDeclarationStatement {}),
        NodeType::WhileStatement => Ok(Node::WhileStatement {}),
        NodeType::YulAssignment => Ok(Node::YulAssignment {}),
        NodeType::YulBlock => Ok(Node::YulBlock {}),
        NodeType::YulCase => Ok(Node::YulCase {}),
        NodeType::YulExpressionStatement => Ok(Node::YulExpressionStatement {}),
        NodeType::YulFunctionCall => Ok(Node::YulFunctionCall {}),
        NodeType::YulIdentifier => Ok(Node::YulIdentifier {}),
        NodeType::YulLiteral => Ok(Node::YulLiteral {}),
        NodeType::YulSwitch => Ok(Node::YulSwitch {}),
        NodeType::YulTypedName => Ok(Node::YulTypedName {}),
        NodeType::YulVariableDeclaration => Ok(Node::YulVariableDeclaration {}),
        NodeType::Block => match decode_block(v) {
            Ok(b) => Ok(Node::Block(b)),
            Err(e) => Err(e),
        },
        NodeType::ContractDefinition => {
            let id = match get_id(ms) {
                Ok(x) => x,
                Err(e) => return Err(e),
            };
            let nodes = match decode_children(v, Some(id)) {
                Ok(x) => x,
                Err(e) => {
                    proof {
                        assert forall|n: Node| !decodes_node(*v, n) by {
                            if decodes_node(*v, n) {
                                assert(decodes_children(*v, n->ContractDefinition_nodes));
                            }
                        }
                    }
                    return Err(e);
                },
            };
            let name = match get_str(ms, "name", Some(id)) {
                Ok(x) => x,
                Err(e) => return Err(e),
            };
            Ok(Node::ContractDefinition { id, nodes, name })
        },
        NodeType::FunctionDefinition => {
            let id = match get_id(ms) {
                Ok(x) => x,
                Err(e) => return Err(e),
            };
            let nodes = match decode_children(v, Some(id)) {
                Ok(x) => x,
                Err(e) => {
                    proof {
                        assert forall|n: Node| !decodes_node(*v, n) by {
                            if decodes_node(*v, n) {
                                assert(decodes_children(*v, n->FunctionDefinition_nodes));
                            }
                        }
                    }
                    return Err(e);
                },
            };
            let kind = match get_function_kind(ms, Some(id)) {
                Ok(x) => x,
                Err(e) => return Err(e),
            };
            let name = match get_str(ms, "name", Some(id)) {
                Ok(x) => x,
                Err(e) => return Err(e),
            };
            let visibility = match get_visibility(ms, Some(id)) {
                Ok(x) => x,
                Err(e) => return Err(e),
            };
            let state_mutability = match get_mutability(ms, Some(id)) {
                Ok(x) => x,
                Err(e) => return Err(e),
            };
            let body = match find_member(ms, "body") {
                Some(i) => match decode_block(&ms[i].1) {
                    Ok(b) => b,
                    Err(e) => {
                        proof {
                            assert forall|n: Node| !decodes_node(*v, n) by {
                                if decodes_node(*v, n) {
                                    assert(decodes_block(ms@[i as int].1, n->FunctionDefinition_body));
                                }
                            }
                        }
                        return Err(e);
                    },
                },
                None => return Err(missing("body", Some(id))),
            };
            Ok(Node::FunctionDefinition { id, nodes, kind, name, visibility, state_mutability, body })
        },
        NodeType::SourceUnit => {
            let id = match get_id(ms) {
                Ok(x) => x,
                Err(e) => return Err(e),
            };
            let nodes = match decode_children(v, Some(id)) {
                Ok(x) => x,
                Err(e) => {
                    proof {
                        assert forall|n: Node| !decodes_node(*v, n) by {
                            if decodes_node(*v, n) {
                                assert(decodes_children(*v, n->SourceUnit_nodes));
                            }
                        }
                    }
                    return Err(e);
                },
            };
            Ok(Node::SourceUnit { id, nodes })
        },
        NodeType::VariableDeclaration => {
            let id = match get_id(ms) {
                Ok(x) => x,
                Err(e) => return Err(e),
            };
            let nodes = match decode_children(v, Some(id)) {
                Ok(x) => x,
                Err(e) => {
                    proof {
                        assert forall|n: Node| !decodes_node(*v, n) by {
                            if decodes_node(*v, n) {
                                assert(decodes_children(*v, n->VariableDeclaration_nodes));
                            }
                        }
                    }
                    return Err(e);
                },
            };
            let name = match get_str(ms, "name", Some(id)) {
                Ok(x) => x,
                Err(e) => return Err(e),
            };
            let visibility = match get_visibility(ms, Some(id)) {
                Ok(x) => x,
                Err(e) => return Err(e),
            };
            Ok(Node::VariableDeclaration { id, nodes, name, visibility })
        },
        NodeType::Unknown => {
            let id = match get_id(ms) {
                Ok(x) => x,
                Err(_) => return Err(DecodeError::UnknownNodeType { tag: tag_text(ms) }),
            };
            if find_member(ms, "nodes").is_none() {
                return Err(DecodeError::UnknownNodeType { tag: tag_text(ms) });
            }
            let nodes = match decode_children(v, Some(id)) {
                Ok(x) => x,
                Err(e) => {
                    proof {
                        assert forall|n: Node| !decodes_node(*v, n) by {
                            if decodes_node(*v, n) {
                                assert(decodes_children(*v, n->Unknown_nodes));
                            }
                        }
                    }
                    return Err(e);
                },
            };
            Ok(Node::Unknown { id, nodes })
        },
    }
}

/// Decodes the array in the member `nodes` of the object `v`, element by
/// element, in order.
fn decode_children(v: &JsonValue, id: Option<u32>) -> (r: Result<Vec<Node>, DecodeError>)
    ensures
        match r {
            Ok(ns) => decodes_children(*v, ns),
            Err(_) => forall|ns: Vec<Node>| !decodes_children(*v, ns),
        },
    decreases v, 0nat,
{
    let ms = match v {
        JsonValue::Object(ms) => ms,
        _ => return Err(DecodeError::NotAnObject),
    };
    let i = match find_member(ms, "nodes") {
        Some(i) => i,
        None => return Err(missing("nodes", id)),
    };
    let es = match &ms[i].1 {
        JsonValue::Array(es) => es,
        _ => return Err(invalid("nodes", id)),
    };
    let mut out: Vec<Node> = Vec::new();
    let mut j: usize = 0;
    while j < es.len()
        invariant
            *v == JsonValue::Object(*ms),
            member_at(ms@, "nodes"@) == i as int,
            i < ms@.len(),
            ms@[i as int].1 == JsonValue::Array(*es),
            j <= es@.len(),
            out@.len() == j,
            forall|k: int| 0 <= k < j ==> decodes_node(#[trigger] es@[k], out@[k]),
        decreases es.len() - j,
    {
        proof {
            assert(decreases_to!(*v => v->Object_0));
            assert(decreases_to!(*ms => ms@));
            assert(decreases_to!(ms@ => ms@[i as int]));
            assert(decreases_to!(ms@[i as int] => ms@[i as int].1));
            assert(decreases_to!(ms@[i as int].1 => ms@[i as int].1->Array_0));
            assert(decreases_to!(*es => es@));
            assert(decreases_to!(es@ => es@[j as int]));
            assert(decreases_to!(*v => es@[j as int]));
        }
        match decode_node(&es[j]) {
            Ok(n) => out.push(n),
            Err(e) => {
                proof {
                    assert forall|ns: Vec<Node>| !decodes_children(*v, ns) by {
                        if decodes_children(*v, ns) {
                            assert(decodes_node(es@[j as int], ns@[j as int]));
                        }
                    }
                }
                return Err(e);
            },
        }
        j = j + 1;
    }
    Ok(out)
}

/// Decodes a block: its `id`, `src` and the statements in `statements`.
fn decode_block(v: &JsonValue) -> (r: Result<Block, DecodeError>)
    ensures
        match r {
            Ok(b) => decodes_block(*v, b),
            Err(_) => forall|b: Block| !decodes_block(*v, b),
        },
    decreases v, 0nat,
{
    let ms = match v {
        JsonValue::Object(ms) => ms,
        _ => return Err(DecodeError::NotAnObject),
    };
    let id = match get_id(ms) {
        Ok(x) => x,
        Err(e) => return Err(e),
    };
    let src = match get_str(ms, "src", Some(id)) {
        Ok(x) => x,
        Err(e) => return Err(e),
    };
    let i = match find_member(ms, "statements") {
        Some(i) => i,
        None => return Err(missing("statements", Some(id))),
    };
    let es = match &ms[i].1 {
        JsonValue::Array(es) => es,
        _ => return Err(invalid("statements", Some(id))),
    };
    let mut statements: Vec<Statement> = Vec::new();
    let mut j: usize = 0;
    while j < es.len()
        invariant
            *v == JsonValue::Object(*ms),
            member_at(ms@, "statements"@) == i as int,
            i < ms@.len(),
            ms@[i as int].1 == JsonValue::Array(*es),
            j <= es@.len(),
            statements@.len() == j,
            forall|k: int| 0 <= k < j ==> decodes_statement(#[trigger] es@[k], statements@[k]),
        decreases es.len() - j,
    {
        proof {
            assert(decreases_to!(*v => v->Object_0));
            assert(decreases_to!(*ms => ms@));
            assert(decreases_to!(ms@ => ms@[i as int]));
            assert(decreases_to!(ms@[i as int] => ms@[i as int].1));
            assert(decreases_to!(ms@[i as int].1 => ms@[i as int].1->Array_0));
            assert(decreases_to!(*es => es@));
            assert(decreases_to!(es@ => es@[j as int]));
            assert(decreases_to!(*v => es@[j as int]));
        }
        match decode_statement(&es[j]) {
            Ok(s) => statements.push(s),
            Err(e) => {
                proof {
                    assert forall|b: Block| !decodes_block(*v, b) by {
                        if decodes_block(*v, b) {
                            assert(decodes_statement(es@[j as int], b.statements@[j as int]));
                        }
                    }
                }
                return Err(e);
            },
        }
        j = j + 1;
    }
    Ok(Block { id, src, statements })
}

/// Decodes a statement: one of the kinds that a statement position admits.
pub fn decode_statement(v: &JsonValue) -> (r: Result<Statement, DecodeError>)
    ensures
        match r {
            Ok(s) => decodes_statement(*v, s),
            Err(_) => forall|s: Statement| !decodes_statement(*v, s),
        },
    decreases v, 1nat,
{
    let ms = match v {
        JsonValue::Object(ms) => ms,
        _ => return Err(DecodeError::NotAnObject),
    };
    proof {
        lemma_statement_kind_determines_variant();
    }
    match discriminator_of(ms) {
        NodeType::Block => match decode_block(v) {
            Ok(b) => Ok(Statement::Block(b)),
            Err(e) => {
                proof {
                    assert forall|t: Statement| !decodes_statement(*v, t) by {
                        if decodes_statement(*v, t) {
                            assert(decodes_block(*v, t->Block_0));
                        }
                    }
                }
                Err(e)
            },
        },
        NodeType::Break => Ok(Statement::Break),
        NodeType::Continue => Ok(Statement::Continue),
        NodeType::DoWhileStatement => Ok(Statement::DoWhileStatement),
        NodeType::EmitStatement => Ok(Statement::EmitStatement),
        NodeType::ExpressionStatement => {
            let id = match get_id(ms) {
                Ok(x) => x,
                Err(e) => return Err(e),
            };
            let src = match get_str(ms, "src", Some(id)) {
                Ok(x) => x,
                Err(e) => return Err(e),
            };
            let expression = match find_member(ms, "expression") {
                Some(i) => match decode_expression(&ms[i].1) {
                    Ok(x) => x,
                    Err(e) => {
                        proof {
                            assert forall|t: Statement| !decodes_statement(*v, t) by {
                                if decodes_statement(*v, t) {
                                    assert(decodes_expression(ms@[i as int].1, t->ExpressionStatement_0.expression));
                                }
                            }
                        }
                        return Err(e);
                    },
                },
                None => return Err(missing("expression", Some(id))),
            };
            Ok(Statement::ExpressionStatement(ExpressionStatement { id, src, expression }))
        },
        NodeType::ForStatement => Ok(Statement::ForStatement),
        NodeType::IfStatement => Ok(Statement::IfStatement),
        NodeType::InlineAssembly => Ok(Statement::InlineAssembly),
        NodeType::PlaceholderStatement => Ok(Statement::PlaceholderStatement),
        NodeType::Return => Ok(Statement::Return),
        NodeType::RevertStatement => Ok(Statement::RevertStatement),
        NodeType::TryStatement => Ok(Statement::TryStatement),
        NodeType::UncheckedBlock => Ok(Statement::UncheckedBlock),
        NodeType::VariableDeclarationStatement => Ok(Statement::VariableDeclarationStatement),
        NodeType::WhileStatement => Ok(Statement::WhileStatement),
        _ => Err(DecodeError::UnknownNodeType { tag: tag_text(ms) }),
    }
}

/// Decodes an expression: one of the kinds that an expression position admits.
pub fn decode_expression(v: &JsonValue) -> (r: Result<Expression, DecodeError>)
    ensures
        match r {
            Ok(e) => decodes_expression(*v, e),
            Err(_) => forall|e: Expression| !decodes_expression(*v, e),
        },
    decreases v, 1nat,
{
    let ms = match v {
        JsonValue::Object(ms) => ms,
        _ => return Err(DecodeError::NotAnObject),
    };
    proof {
        lemma_expression_kind_determines_variant();
    }
    match discriminator_of(ms) {
        NodeType::Assignment => Ok(Expression::Assignment),
        NodeType::BinaryOperation => Ok(Expression::BinaryOperation),
        NodeType::Conditional => Ok(Expression::Conditional),
        NodeType::ElementaryTypeNameExpression => Ok(Expression::ElementaryTypeNameExpression),
        NodeType::FunctionCall => {
            let id = match get_id(ms) {
                Ok(x) => x,
                Err(e) => return Err(e),
            };
            let src = match get_str(ms, "src", Some(id)) {
                Ok(x) => x,
                Err(e) => return Err(e),
            };
            let expression = match find_member(ms, "expression") {
                Some(i) => match decode_expression(&ms[i].1) {
                    Ok(x) => x,
                    Err(e) => {
                        proof {
                            assert forall|x: Expression| !decodes_expression(*v, x) by {
                                if decodes_expression(*v, x) {
                                    assert(decodes_expression(ms@[i as int].1, *x->FunctionCall_0.expression));
                                }
                            }
                        }
                        return Err(e);
                    },
                },
                None => return Err(missing("expression", Some(id))),
            };
            Ok(Expression::FunctionCall(FunctionCall { id, src, expression: Box::new(expression) }))
        },
        NodeType::FunctionCallOptions => Ok(Expression::FunctionCallOptions),
        NodeType::Identifier => {
            let id = match get_id(ms) {
                Ok(x) => x,
                Err(e) => return Err(e),
            };
            let src = match get_str(ms, "src", Some(id)) {
                Ok(x) => x,
                Err(e) => return Err(e),
            };
            let name = match get_str(ms, "name", Some(id)) {
                Ok(x) => x,
                Err(e) => return Err(e),
            };
            Ok(Expression::Identifier(Identifier { id, src, name }))
        },
        NodeType::IndexAccess => Ok(Expression::IndexAccess),
        NodeType::IndexRangeAccess => Ok(Expression::IndexRangeAccess),
        NodeType::Literal => Ok(Expression::Literal),
        NodeType::MemberAccess => Ok(Expression::MemberAccess),
        NodeType::NewExpression => Ok(Expression::NewExpression),
        NodeType::TupleExpression => Ok(Expression::TupleExpression),
        NodeType::UnaryOperation => Ok(Expression::UnaryOperation),
        _ => Err(DecodeError::UnknownNodeType { tag: tag_text(ms) }),
    }
}

} // verus!
