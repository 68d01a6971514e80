use vstd::prelude::*;

use crate::decode::{
    decodes_node, discriminator, has_id, lacks_fallback, has_function_kind, has_mutability, has_visibility,
};
use crate::json::{member, member_at, JsonValue};
use crate::node::{Node, NodeType};
use crate::tags::{
    function_kind_of, lemma_tag_names_its_kind, mutability_of, tag_name, visibility_of,
};

verus! {

/// A node whose kind carries no child list has none: `children` is `None`,
/// not an empty sequence.
pub proof fn lemma_leaf_has_no_children(n: Node)
    requires
        n.kind() != NodeType::SourceUnit,
        n.kind() != NodeType::ContractDefinition,
        n.kind() != NodeType::FunctionDefinition,
        n.kind() != NodeType::Unknown,
    ensures
        n.children() is None,
{
}

/// A decoded node is of the kind that its object's discriminator names.
pub proof fn lemma_decoded_kind(v: JsonValue, n: Node)
    requires
        decodes_node(v, n),
    ensures
        v is Object,
        n.kind() == discriminator(v->Object_0@),
{
}

/// A node of a kind with a child list holds exactly the nodes decoded from the
/// object's `nodes` array, in document order.
pub proof fn lemma_children_in_document_order(v: JsonValue, n: Node)
    requires
        decodes_node(v, n),
        n.children() is Some,
    ensures
        v is Object,
        ({
            let ms = v->Object_0@;
            let i = member_at(ms, "nodes"@);
            &&& 0 <= i < ms.len()
            &&& ms[i].1 is Array
            &&& n.children()->0.len() == ms[i].1->Array_0@.len()
            &&& forall|j: int|
                0 <= j < n.children()->0.len() ==> decodes_node(
                    #[trigger] ms[i].1->Array_0@[j],
                    n.children()->0[j],
                )
        }),
{
}

/// An object whose discriminator is absent or unrecognized decodes, if at all,
/// to `Unknown` with the object's `id`, and classifies as `Unknown`.
pub proof fn lemma_unrecognized_tag_is_unknown(v: JsonValue, n: Node)
    requires
        v is Object,
        discriminator(v->Object_0@) == NodeType::Unknown,
        decodes_node(v, n),
    ensures
        n is Unknown,
        n.kind() == NodeType::Unknown,
        has_id(v->Object_0@, n->Unknown_id),
{
}

/// An object with an absent or unrecognized discriminator that lacks `id` or
/// `nodes` (in particular, one that lacks both) decodes to no node at all.
pub proof fn lemma_unknown_without_fallback_fails(v: JsonValue)
    requires
        lacks_fallback(v),
    ensures
        forall|n: Node| !decodes_node(v, n),
{
}

/// A `visibility` string outside the closed set never decodes to a node of a
/// kind that carries a visibility: there is no default.
pub proof fn lemma_unknown_visibility_fails(v: JsonValue, t: String)
    requires
        v is Object,
        discriminator(v->Object_0@) == NodeType::FunctionDefinition || discriminator(
            v->Object_0@,
        ) == NodeType::VariableDeclaration,
        member(v->Object_0@, "visibility"@) == Some(JsonValue::Str(t)),
        visibility_of(t@) is None,
    ensures
        forall|n: Node| !decodes_node(v, n),
{
    assert forall|n: Node| !decodes_node(v, n) by {
        if decodes_node(v, n) {
            if n is FunctionDefinition {
                assert(has_visibility(v->Object_0@, n->FunctionDefinition_visibility));
            } else {
                assert(has_visibility(v->Object_0@, n->VariableDeclaration_visibility));
            }
        }
    }
}

/// A `stateMutability` string outside the closed set never decodes to a
/// function definition.
pub proof fn lemma_unknown_mutability_fails(v: JsonValue, t: String)
    requires
        v is Object,
        discriminator(v->Object_0@) == NodeType::FunctionDefinition,
        member(v->Object_0@, "stateMutability"@) == Some(JsonValue::Str(t)),
        mutability_of(t@) is None,
    ensures
        forall|n: Node| !decodes_node(v, n),
{
    assert forall|n: Node| !decodes_node(v, n) by {
        if decodes_node(v, n) {
            assert(has_mutability(v->Object_0@, n->FunctionDefinition_state_mutability));
        }
    }
}

/// A function `kind` string outside the closed set never decodes to a function
/// definition.
pub proof fn lemma_unknown_function_kind_fails(v: JsonValue, t: String)
    requires
        v is Object,
        discriminator(v->Object_0@) == NodeType::FunctionDefinition,
        member(v->Object_0@, "kind"@) == Some(JsonValue::Str(t)),
        function_kind_of(t@) is None,
    ensures
        forall|n: Node| !decodes_node(v, n),
{
    assert forall|n: Node| !decodes_node(v, n) by {
        if decodes_node(v, n) {
            assert(has_function_kind(v->Object_0@, n->FunctionDefinition_kind));
        }
    }
}


/// An object whose discriminator is a recognized kind's own string decodes
/// only to a node of that kind.
pub proof fn lemma_recognized_tag_classifies(v: JsonValue, s: String, t: NodeType, n: Node)
    requires
        v is Object,
        member(v->Object_0@, "nodeType"@) == Some(JsonValue::Str(s)),
        s@ == tag_name(t),
        t != NodeType::Unknown,
        decodes_node(v, n),
    ensures
        n.kind() == t,
{
    lemma_tag_names_its_kind(t);
}

/// The marker node of each kind that carries no modeled fields.
pub open spec fn marker_node(t: NodeType) -> Option<Node> {
    match t {
        NodeType::ArrayTypeName => Some(Node::ArrayTypeName {}),
        NodeType::Assignment => Some(Node::Assignment {}),
        NodeType::BinaryOperation => Some(Node::BinaryOperation {}),
        NodeType::Break => Some(Node::Break {}),
        NodeType::Conditional => Some(Node::Conditional {}),
        NodeType::Continue => Some(Node::Continue {}),
        NodeType::DoWhileStatement => Some(Node::DoWhileStatement {}),
        NodeType::ElementaryTypeName => Some(Node::ElementaryTypeName {}),
        NodeType::ElementaryTypeNameExpression => Some(Node::ElementaryTypeNameExpression {}),
        NodeType::EmitStatement => Some(Node::EmitStatement {}),
        NodeType::EnumDefinition => Some(Node::EnumDefinition {}),
        NodeType::EnumValue => Some(Node::EnumValue {}),
        NodeType::ErrorDefinition => Some(Node::ErrorDefinition {}),
        NodeType::EventDefinition => Some(Node::EventDefinition {}),
        NodeType::ExpressionStatement => Some(Node::ExpressionStatement {}),
        NodeType::ForStatement => Some(Node::ForStatement {}),
        NodeType::FunctionCall => Some(Node::FunctionCall {}),
        NodeType::FunctionCallOptions => Some(Node::FunctionCallOptions {}),
        NodeType::FunctionTypeName => Some(Node::FunctionTypeName {}),
        NodeType::Identifier => Some(Node::Identifier {}),
        NodeType::IdentifierPath => Some(Node::IdentifierPath {}),
        NodeType::IfStatement => Some(Node::IfStatement {}),
        NodeType::ImportDirective => Some(Node::ImportDirective {}),
        NodeType::IndexAccess => Some(Node::IndexAccess {}),
        NodeType::IndexRangeAccess => Some(Node::IndexRangeAccess {}),
        NodeType::InheritanceSpecifier => Some(Node::InheritanceSpecifier {}),
        NodeType::InlineAssembly => Some(Node::InlineAssembly {}),
        NodeType::Literal => Some(Node::Literal {}),
        NodeType::Mapping => Some(Node::Mapping {}),
        NodeType::MemberAccess => Some(Node::MemberAccess {}),
        NodeType::ModifierDefinition => Some(Node::ModifierDefinition {}),
        NodeType::ModifierInvocation => Some(Node::ModifierInvocation {}),
        NodeType::NewExpression => Some(Node::NewExpression {}),
        NodeType::OverrideSpecifier => Some(Node::OverrideSpecifier {}),
        NodeType::ParameterList => Some(Node::ParameterList {}),
        NodeType::PlaceholderStatement => Some(Node::PlaceholderStatement {}),
        NodeType::PragmaDirective => Some(Node::PragmaDirective {}),
        NodeType::Return => Some(Node::Return {}),
        NodeType::RevertStatement => Some(Node::RevertStatement {}),
        NodeType::StructDefinition => Some(Node::StructDefinition {}),
        NodeType::StructuredDocumentation => Some(Node::StructuredDocumentation {}),
        NodeType::Throw => Some(Node::Throw {}),
        NodeType::TryCatchClause => Some(Node::TryCatchClause {}),
        NodeType::TryStatement => Some(Node::TryStatement {}),
        NodeType::TupleExpression => Some(Node::TupleExpression {}),
        NodeType::UnaryOperation => Some(Node::UnaryOperation {}),
        NodeType::UncheckedBlock => Some(Node::UncheckedBlock {}),
        NodeType::UserDefinedTypeName => Some(Node::UserDefinedTypeName {}),
        NodeType::UserDefinedValueTypeDefinition => Some(Node::UserDefinedValueTypeDefinition {}),
        NodeType::UsingForDirective => Some(Node::UsingForDirective {}),
        NodeType::VariableDeclarationStatement => Some(Node::VariableDeclarationStatement {}),
        NodeType::WhileStatement => Some(Node::WhileStatement {}),
        NodeType::YulAssignment => Some(Node::YulAssignment {}),
        NodeType::YulBlock => Some(Node::YulBlock {}),
        NodeType::YulCase => Some(Node::YulCase {}),
        NodeType::YulExpressionStatement => Some(Node::YulExpressionStatement {}),
        NodeType::YulFunctionCall => Some(Node::YulFunctionCall {}),
        NodeType::YulIdentifier => Some(Node::YulIdentifier {}),
        NodeType::YulLiteral => Some(Node::YulLiteral {}),
        NodeType::YulSwitch => Some(Node::YulSwitch {}),
        NodeType::YulTypedName => Some(Node::YulTypedName {}),
        NodeType::YulVariableDeclaration => Some(Node::YulVariableDeclaration {}),
        _ => None,
    }
}

/// An object that holds only the discriminator of a kind without modeled
/// fields decodes to that kind's marker node, which classifies as that kind.
pub proof fn lemma_marker_decodes(v: JsonValue, s: String, t: NodeType)
    requires
        v is Object,
        member(v->Object_0@, "nodeType"@) == Some(JsonValue::Str(s)),
        s@ == tag_name(t),
        marker_node(t) is Some,
    ensures
        decodes_node(v, marker_node(t)->0),
        marker_node(t)->0.kind() == t,
{
    lemma_tag_names_its_kind(t);
}

} // verus!
