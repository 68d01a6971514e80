use vstd::prelude::*;

use crate::json::str_eq;
use crate::node::{FunctionKind, NodeType, StateMutability, Visibility};

verus! {

/// The node kind that a discriminator string names; `Unknown` for any string
/// outside the known set.
pub open spec fn tag_kind(t: Seq<char>) -> NodeType {
    if t == "ArrayTypeName"@ {
        NodeType::ArrayTypeName
    } else if t == "Assignment"@ {
        NodeType::Assignment
    } else if t == "BinaryOperation"@ {
        NodeType::BinaryOperation
    } else if t == "Block"@ {
        NodeType::Block
    } else if t == "Break"@ {
        NodeType::Break
    } else if t == "Conditional"@ {
        NodeType::Conditional
    } else if t == "Continue"@ {
        NodeType::Continue
    } else if t == "ContractDefinition"@ {
        NodeType::ContractDefinition
    } else if t == "DoWhileStatement"@ {
        NodeType::DoWhileStatement
    } else if t == "ElementaryTypeName"@ {
        NodeType::ElementaryTypeName
    } else if t == "ElementaryTypeNameExpression"@ {
        NodeType::ElementaryTypeNameExpression
    } else if t == "EmitStatement"@ {
        NodeType::EmitStatement
    } else if t == "EnumDefinition"@ {
        NodeType::EnumDefinition
    } else if t == "EnumValue"@ {
        NodeType::EnumValue
    } else if t == "ErrorDefinition"@ {
        NodeType::ErrorDefinition
    } else if t == "EventDefinition"@ {
        NodeType::EventDefinition
    } else if t == "ExpressionStatement"@ {
        NodeType::ExpressionStatement
    } else if t == "ForStatement"@ {
        NodeType::ForStatement
    } else if t == "FunctionCall"@ {
        NodeType::FunctionCall
    } else if t == "FunctionCallOptions"@ {
        NodeType::FunctionCallOptions
    } else if t == "FunctionDefinition"@ {
        NodeType::FunctionDefinition
    } else if t == "FunctionTypeName"@ {
        NodeType::FunctionTypeName
    } else if t == "Identifier"@ {
        NodeType::Identifier
    } else if t == "IdentifierPath"@ {
        NodeType::IdentifierPath
    } else if t == "IfStatement"@ {
        NodeType::IfStatement
    } else if t == "ImportDirective"@ {
        NodeType::ImportDirective
    } else if t == "IndexAccess"@ {
        NodeType::IndexAccess
    } else if t == "IndexRangeAccess"@ {
        NodeType::IndexRangeAccess
    } else if t == "InheritanceSpecifier"@ {
        NodeType::InheritanceSpecifier
    } else if t == "InlineAssembly"@ {
        NodeType::InlineAssembly
    } else if t == "Literal"@ {
        NodeType::Literal
    } else if t == "Mapping"@ {
        NodeType::Mapping
    } else if t == "MemberAccess"@ {
        NodeType::MemberAccess
    } else if t == "ModifierDefinition"@ {
        NodeType::ModifierDefinition
    } else if t == "ModifierInvocation"@ {
        NodeType::ModifierInvocation
    } else if t == "NewExpression"@ {
        NodeType::NewExpression
    } else if t == "OverrideSpecifier"@ {
        NodeType::OverrideSpecifier
    } else if t == "ParameterList"@ {
        NodeType::ParameterList
    } else if t == "PlaceholderStatement"@ {
        NodeType::PlaceholderStatement
    } else if t == "PragmaDirective"@ {
        NodeType::PragmaDirective
    } else if t == "Return"@ {
        NodeType::Return
    } else if t == "RevertStatement"@ {
        NodeType::RevertStatement
    } else if t == "SourceUnit"@ {
        NodeType::SourceUnit
    } else if t == "StructDefinition"@ {
        NodeType::StructDefinition
    } else if t == "StructuredDocumentation"@ {
        NodeType::StructuredDocumentation
    } else if t == "Throw"@ {
        NodeType::Throw
    } else if t == "TryCatchClause"@ {
        NodeType::TryCatchClause
    } else if t == "TryStatement"@ {
        NodeType::TryStatement
    } else if t == "TupleExpression"@ {
        NodeType::TupleExpression
    } else if t == "UnaryOperation"@ {
        NodeType::UnaryOperation
    } else if t == "UncheckedBlock"@ {
        NodeType::UncheckedBlock
    } else if t == "UserDefinedTypeName"@ {
        NodeType::UserDefinedTypeName
    } else if t == "UserDefinedValueTypeDefinition"@ {
        NodeType::UserDefinedValueTypeDefinition
    } else if t == "UsingForDirective"@ {
        NodeType::UsingForDirective
    } else if t == "VariableDeclaration"@ {
        NodeType::VariableDeclaration
    } else if t == "VariableDeclarationStatement"@ {
        NodeType::VariableDeclarationStatement
    } else if t == "WhileStatement"@ {
        NodeType::WhileStatement
    } else if t == "YulAssignment"@ {
        NodeType::YulAssignment
    } else if t == "YulBlock"@ {
        NodeType::YulBlock
    } else if t == "YulCase"@ {
        NodeType::YulCase
    } else if t == "YulExpressionStatement"@ {
        NodeType::YulExpressionStatement
    } else if t == "YulFunctionCall"@ {
        NodeType::YulFunctionCall
    } else if t == "YulIdentifier"@ {
        NodeType::YulIdentifier
    } else if t == "YulLiteral"@ {
        NodeType::YulLiteral
    } else if t == "YulSwitch"@ {
        NodeType::YulSwitch
    } else if t == "YulTypedName"@ {
        NodeType::YulTypedName
    } else if t == "YulVariableDeclaration"@ {
        NodeType::YulVariableDeclaration
    } else {
        NodeType::Unknown
    }
}

/// Reads a discriminator string.
pub fn node_type_of_tag(t: &str) -> (r: NodeType)
    ensures
        r == tag_kind(t@),
{
    if str_eq(t, "ArrayTypeName") {
        NodeType::ArrayTypeName
    } else if str_eq(t, "Assignment") {
        NodeType::Assignment
    } else if str_eq(t, "BinaryOperation") {
        NodeType::BinaryOperation
    } else if str_eq(t, "Block") {
        NodeType::Block
    } else if str_eq(t, "Break") {
        NodeType::Break
    } else if str_eq(t, "Conditional") {
        NodeType::Conditional
    } else if str_eq(t, "Continue") {
        NodeType::Continue
    } else if str_eq(t, "ContractDefinition") {
        NodeType::ContractDefinition
    } else if str_eq(t, "DoWhileStatement") {
        NodeType::DoWhileStatement
    } else if str_eq(t, "ElementaryTypeName") {
        NodeType::ElementaryTypeName
    } else if str_eq(t, "ElementaryTypeNameExpression") {
        NodeType::ElementaryTypeNameExpression
    } else if str_eq(t, "EmitStatement") {
        NodeType::EmitStatement
    } else if str_eq(t, "EnumDefinition") {
        NodeType::EnumDefinition
    } else if str_eq(t, "EnumValue") {
        NodeType::EnumValue
    } else if str_eq(t, "ErrorDefinition") {
        NodeType::ErrorDefinition
    } else if str_eq(t, "EventDefinition") {
        NodeType::EventDefinition
    } else if str_eq(t, "ExpressionStatement") {
        NodeType::ExpressionStatement
    } else if str_eq(t, "ForStatement") {
        NodeType::ForStatement
    } else if str_eq(t, "FunctionCall") {
        NodeType::FunctionCall
    } else if str_eq(t, "FunctionCallOptions") {
        NodeType::FunctionCallOptions
    } else if str_eq(t, "FunctionDefinition") {
        NodeType::FunctionDefinition
    } else if str_eq(t, "FunctionTypeName") {
        NodeType::FunctionTypeName
    } else if str_eq(t, "Identifier") {
        NodeType::Identifier
    } else if str_eq(t, "IdentifierPath") {
        NodeType::IdentifierPath
    } else if str_eq(t, "IfStatement") {
        NodeType::IfStatement
    } else if str_eq(t, "ImportDirective") {
        NodeType::ImportDirective
    } else if str_eq(t, "IndexAccess") {
        NodeType::IndexAccess
    } else if str_eq(t, "IndexRangeAccess") {
        NodeType::IndexRangeAccess
    } else if str_eq(t, "InheritanceSpecifier") {
        NodeType::InheritanceSpecifier
    } else if str_eq(t, "InlineAssembly") {
        NodeType::InlineAssembly
    } else if str_eq(t, "Literal") {
        NodeType::Literal
    } else if str_eq(t, "Mapping") {
        NodeType::Mapping
    } else if str_eq(t, "MemberAccess") {
        NodeType::MemberAccess
    } else if str_eq(t, "ModifierDefinition") {
        NodeType::ModifierDefinition
    } else if str_eq(t, "ModifierInvocation") {
        NodeType::ModifierInvocation
    } else if str_eq(t, "NewExpression") {
        NodeType::NewExpression
    } else if str_eq(t, "OverrideSpecifier") {
        NodeType::OverrideSpecifier
    } else if str_eq(t, "ParameterList") {
        NodeType::ParameterList
    } else if str_eq(t, "PlaceholderStatement") {
        NodeType::PlaceholderStatement
    } else if str_eq(t, "PragmaDirective") {
        NodeType::PragmaDirective
    } else if str_eq(t, "Return") {
        NodeType::Return
    } else if str_eq(t, "RevertStatement") {
        NodeType::RevertStatement
    } else if str_eq(t, "SourceUnit") {
        NodeType::SourceUnit
    } else if str_eq(t, "StructDefinition") {
        NodeType::StructDefinition
    } else if str_eq(t, "StructuredDocumentation") {
        NodeType::StructuredDocumentation
    } else if str_eq(t, "Throw") {
        NodeType::Throw
    } else if str_eq(t, "TryCatchClause") {
        NodeType::TryCatchClause
    } else if str_eq(t, "TryStatement") {
        NodeType::TryStatement
    } else if str_eq(t, "TupleExpression") {
        NodeType::TupleExpression
    } else if str_eq(t, "UnaryOperation") {
        NodeType::UnaryOperation
    } else if str_eq(t, "UncheckedBlock") {
        NodeType::UncheckedBlock
    } else if str_eq(t, "UserDefinedTypeName") {
        NodeType::UserDefinedTypeName
    } else if str_eq(t, "UserDefinedValueTypeDefinition") {
        NodeType::UserDefinedValueTypeDefinition
    } else if str_eq(t, "UsingForDirective") {
        NodeType::UsingForDirective
    } else if str_eq(t, "VariableDeclaration") {
        NodeType::VariableDeclaration
    } else if str_eq(t, "VariableDeclarationStatement") {
        NodeType::VariableDeclarationStatement
    } else if str_eq(t, "WhileStatement") {
        NodeType::WhileStatement
    } else if str_eq(t, "YulAssignment") {
        NodeType::YulAssignment
    } else if str_eq(t, "YulBlock") {
        NodeType::YulBlock
    } else if str_eq(t, "YulCase") {
        NodeType::YulCase
    } else if str_eq(t, "YulExpressionStatement") {
        NodeType::YulExpressionStatement
    } else if str_eq(t, "YulFunctionCall") {
        NodeType::YulFunctionCall
    } else if str_eq(t, "YulIdentifier") {
        NodeType::YulIdentifier
    } else if str_eq(t, "YulLiteral") {
        NodeType::YulLiteral
    } else if str_eq(t, "YulSwitch") {
        NodeType::YulSwitch
    } else if str_eq(t, "YulTypedName") {
        NodeType::YulTypedName
    } else if str_eq(t, "YulVariableDeclaration") {
        NodeType::YulVariableDeclaration
    } else {
        NodeType::Unknown
    }
}

/// The visibility that a lower-case string names.
pub open spec fn visibility_of(t: Seq<char>) -> Option<Visibility> {
    if t == "private"@ {
        Some(Visibility::Private)
    } else if t == "internal"@ {
        Some(Visibility::Internal)
    } else if t == "public"@ {
        Some(Visibility::Public)
    } else if t == "external"@ {
        Some(Visibility::External)
    } else {
        None
    }
}

/// Reads a the visibility that a lower-case string names.
pub fn parse_visibility(t: &str) -> (r: Option<Visibility>)
    ensures
        r == visibility_of(t@),
{
    if str_eq(t, "private") {
        Some(Visibility::Private)
    } else if str_eq(t, "internal") {
        Some(Visibility::Internal)
    } else if str_eq(t, "public") {
        Some(Visibility::Public)
    } else if str_eq(t, "external") {
        Some(Visibility::External)
    } else {
        None
    }
}

/// The state mutability that a lower-case string names.
pub open spec fn mutability_of(t: Seq<char>) -> Option<StateMutability> {
    if t == "payable"@ {
        Some(StateMutability::Payable)
    } else if t == "nonpayable"@ {
        Some(StateMutability::NonPayable)
    } else if t == "pure"@ {
        Some(StateMutability::Pure)
    } else if t == "view"@ {
        Some(StateMutability::View)
    } else {
        None
    }
}

/// Reads a the state mutability that a lower-case string names.
pub fn parse_mutability(t: &str) -> (r: Option<StateMutability>)
    ensures
        r == mutability_of(t@),
{
    if str_eq(t, "payable") {
        Some(StateMutability::Payable)
    } else if str_eq(t, "nonpayable") {
        Some(StateMutability::NonPayable)
    } else if str_eq(t, "pure") {
        Some(StateMutability::Pure)
    } else if str_eq(t, "view") {
        Some(StateMutability::View)
    } else {
        None
    }
}

/// The function kind that a camel-case string names.
pub open spec fn function_kind_of(t: Seq<char>) -> Option<FunctionKind> {
    if t == "constructor"@ {
        Some(FunctionKind::Constructor)
    } else if t == "receive"@ {
        Some(FunctionKind::Receive)
    } else if t == "fallback"@ {
        Some(FunctionKind::Fallback)
    } else if t == "freeFunction"@ {
        Some(FunctionKind::FreeFunction)
    } else if t == "function"@ {
        Some(FunctionKind::Function)
    } else {
        None
    }
}

/// Reads a the function kind that a camel-case string names.
pub fn parse_function_kind(t: &str) -> (r: Option<FunctionKind>)
    ensures
        r == function_kind_of(t@),
{
    if str_eq(t, "constructor") {
        Some(FunctionKind::Constructor)
    } else if str_eq(t, "receive") {
        Some(FunctionKind::Receive)
    } else if str_eq(t, "fallback") {
        Some(FunctionKind::Fallback)
    } else if str_eq(t, "freeFunction") {
        Some(FunctionKind::FreeFunction)
    } else if str_eq(t, "function") {
        Some(FunctionKind::Function)
    } else {
        None
    }
}


/// The discriminator string of each recognized kind.
pub open spec fn tag_name(t: NodeType) -> Seq<char> {
    match t {
        NodeType::ArrayTypeName => "ArrayTypeName"@,
        NodeType::Assignment => "Assignment"@,
        NodeType::BinaryOperation => "BinaryOperation"@,
        NodeType::Block => "Block"@,
        NodeType::Break => "Break"@,
        NodeType::Conditional => "Conditional"@,
        NodeType::Continue => "Continue"@,
        NodeType::ContractDefinition => "ContractDefinition"@,
        NodeType::DoWhileStatement => "DoWhileStatement"@,
        NodeType::ElementaryTypeName => "ElementaryTypeName"@,
        NodeType::ElementaryTypeNameExpression => "ElementaryTypeNameExpression"@,
        NodeType::EmitStatement => "EmitStatement"@,
        NodeType::EnumDefinition => "EnumDefinition"@,
        NodeType::EnumValue => "EnumValue"@,
        NodeType::ErrorDefinition => "ErrorDefinition"@,
        NodeType::EventDefinition => "EventDefinition"@,
        NodeType::ExpressionStatement => "ExpressionStatement"@,
        NodeType::ForStatement => "ForStatement"@,
        NodeType::FunctionCall => "FunctionCall"@,
        NodeType::FunctionCallOptions => "FunctionCallOptions"@,
        NodeType::FunctionDefinition => "FunctionDefinition"@,
        NodeType::FunctionTypeName => "FunctionTypeName"@,
        NodeType::Identifier => "Identifier"@,
        NodeType::IdentifierPath => "IdentifierPath"@,
        NodeType::IfStatement => "IfStatement"@,
        NodeType::ImportDirective => "ImportDirective"@,
        NodeType::IndexAccess => "IndexAccess"@,
        NodeType::IndexRangeAccess => "IndexRangeAccess"@,
        NodeType::InheritanceSpecifier => "InheritanceSpecifier"@,
        NodeType::InlineAssembly => "InlineAssembly"@,
        NodeType::Literal => "Literal"@,
        NodeType::Mapping => "Mapping"@,
        NodeType::MemberAccess => "MemberAccess"@,
        NodeType::ModifierDefinition => "ModifierDefinition"@,
        NodeType::ModifierInvocation => "ModifierInvocation"@,
        NodeType::NewExpression => "NewExpression"@,
        NodeType::OverrideSpecifier => "OverrideSpecifier"@,
        NodeType::ParameterList => "ParameterList"@,
        NodeType::PlaceholderStatement => "PlaceholderStatement"@,
        NodeType::PragmaDirective => "PragmaDirective"@,
        NodeType::Return => "Return"@,
        NodeType::RevertStatement => "RevertStatement"@,
        NodeType::SourceUnit => "SourceUnit"@,
        NodeType::StructDefinition => "StructDefinition"@,
        NodeType::StructuredDocumentation => "StructuredDocumentation"@,
        NodeType::Throw => "Throw"@,
        NodeType::TryCatchClause => "TryCatchClause"@,
        NodeType::TryStatement => "TryStatement"@,
        NodeType::TupleExpression => "TupleExpression"@,
        NodeType::UnaryOperation => "UnaryOperation"@,
        NodeType::UncheckedBlock => "UncheckedBlock"@,
        NodeType::UserDefinedTypeName => "UserDefinedTypeName"@,
        NodeType::UserDefinedValueTypeDefinition => "UserDefinedValueTypeDefinition"@,
        NodeType::UsingForDirective => "UsingForDirective"@,
        NodeType::VariableDeclaration => "VariableDeclaration"@,
        NodeType::VariableDeclarationStatement => "VariableDeclarationStatement"@,
        NodeType::WhileStatement => "WhileStatement"@,
        NodeType::YulAssignment => "YulAssignment"@,
        NodeType::YulBlock => "YulBlock"@,
        NodeType::YulCase => "YulCase"@,
        NodeType::YulExpressionStatement => "YulExpressionStatement"@,
        NodeType::YulFunctionCall => "YulFunctionCall"@,
        NodeType::YulIdentifier => "YulIdentifier"@,
        NodeType::YulLiteral => "YulLiteral"@,
        NodeType::YulSwitch => "YulSwitch"@,
        NodeType::YulTypedName => "YulTypedName"@,
        NodeType::YulVariableDeclaration => "YulVariableDeclaration"@,
        NodeType::Unknown => Seq::empty(),
    }
}

/// The length of each discriminator string.
proof fn lemma_tag_lengths()
    ensures
        "ArrayTypeName"@.len() == 13,
        "Assignment"@.len() == 10,
        "BinaryOperation"@.len() == 15,
        "Block"@.len() == 5,
        "Break"@.len() == 5,
        "Conditional"@.len() == 11,
        "Continue"@.len() == 8,
        "ContractDefinition"@.len() == 18,
        "DoWhileStatement"@.len() == 16,
        "ElementaryTypeName"@.len() == 18,
        "ElementaryTypeNameExpression"@.len() == 28,
        "EmitStatement"@.len() == 13,
        "EnumDefinition"@.len() == 14,
        "EnumValue"@.len() == 9,
        "ErrorDefinition"@.len() == 15,
        "EventDefinition"@.len() == 15,
        "ExpressionStatement"@.len() == 19,
        "ForStatement"@.len() == 12,
        "FunctionCall"@.len() == 12,
        "FunctionCallOptions"@.len() == 19,
        "FunctionDefinition"@.len() == 18,
        "FunctionTypeName"@.len() == 16,
        "Identifier"@.len() == 10,
        "IdentifierPath"@.len() == 14,
        "IfStatement"@.len() == 11,
        "ImportDirective"@.len() == 15,
        "IndexAccess"@.len() == 11,
        "IndexRangeAccess"@.len() == 16,
        "InheritanceSpecifier"@.len() == 20,
        "InlineAssembly"@.len() == 14,
        "Literal"@.len() == 7,
        "Mapping"@.len() == 7,
        "MemberAccess"@.len() == 12,
        "ModifierDefinition"@.len() == 18,
        "ModifierInvocation"@.len() == 18,
        "NewExpression"@.len() == 13,
        "OverrideSpecifier"@.len() == 17,
        "ParameterList"@.len() == 13,
        "PlaceholderStatement"@.len() == 20,
        "PragmaDirective"@.len() == 15,
        "Return"@.len() == 6,
        "RevertStatement"@.len() == 15,
        "SourceUnit"@.len() == 10,
        "StructDefinition"@.len() == 16,
        "StructuredDocumentation"@.len() == 23,
        "Throw"@.len() == 5,
        "TryCatchClause"@.len() == 14,
        "TryStatement"@.len() == 12,
        "TupleExpression"@.len() == 15,
        "UnaryOperation"@.len() == 14,
        "UncheckedBlock"@.len() == 14,
        "UserDefinedTypeName"@.len() == 19,
        "UserDefinedValueTypeDefinition"@.len() == 30,
        "UsingForDirective"@.len() == 17,
        "VariableDeclaration"@.len() == 19,
        "VariableDeclarationStatement"@.len() == 28,
        "WhileStatement"@.len() == 14,
        "YulAssignment"@.len() == 13,
        "YulBlock"@.len() == 8,
        "YulCase"@.len() == 7,
        "YulExpressionStatement"@.len() == 22,
        "YulFunctionCall"@.len() == 15,
        "YulIdentifier"@.len() == 13,
        "YulLiteral"@.len() == 10,
        "YulSwitch"@.len() == 9,
        "YulTypedName"@.len() == 12,
        "YulVariableDeclaration"@.len() == 22,
{
    reveal_strlit("ArrayTypeName");
    reveal_strlit("Assignment");
    reveal_strlit("BinaryOperation");
    reveal_strlit("Block");
    reveal_strlit("Break");
    reveal_strlit("Conditional");
    reveal_strlit("Continue");
    reveal_strlit("ContractDefinition");
    reveal_strlit("DoWhileStatement");
    reveal_strlit("ElementaryTypeName");
    reveal_strlit("ElementaryTypeNameExpression");
    reveal_strlit("EmitStatement");
    reveal_strlit("EnumDefinition");
    reveal_strlit("EnumValue");
    reveal_strlit("ErrorDefinition");
    reveal_strlit("EventDefinition");
    reveal_strlit("ExpressionStatement");
    reveal_strlit("ForStatement");
    reveal_strlit("FunctionCall");
    reveal_strlit("FunctionCallOptions");
    reveal_strlit("FunctionDefinition");
    reveal_strlit("FunctionTypeName");
    reveal_strlit("Identifier");
    reveal_strlit("IdentifierPath");
    reveal_strlit("IfStatement");
    reveal_strlit("ImportDirective");
    reveal_strlit("IndexAccess");
    reveal_strlit("IndexRangeAccess");
    reveal_strlit("InheritanceSpecifier");
    reveal_strlit("InlineAssembly");
    reveal_strlit("Literal");
    reveal_strlit("Mapping");
    reveal_strlit("MemberAccess");
    reveal_strlit("ModifierDefinition");
    reveal_strlit("ModifierInvocation");
    reveal_strlit("NewExpression");
    reveal_strlit("OverrideSpecifier");
    reveal_strlit("ParameterList");
    reveal_strlit("PlaceholderStatement");
    reveal_strlit("PragmaDirective");
    reveal_strlit("Return");
    reveal_strlit("RevertStatement");
    reveal_strlit("SourceUnit");
    reveal_strlit("StructDefinition");
    reveal_strlit("StructuredDocumentation");
    reveal_strlit("Throw");
    reveal_strlit("TryCatchClause");
    reveal_strlit("TryStatement");
    reveal_strlit("TupleExpression");
    reveal_strlit("UnaryOperation");
    reveal_strlit("UncheckedBlock");
    reveal_strlit("UserDefinedTypeName");
    reveal_strlit("UserDefinedValueTypeDefinition");
    reveal_strlit("UsingForDirective");
    reveal_strlit("VariableDeclaration");
    reveal_strlit("VariableDeclarationStatement");
    reveal_strlit("WhileStatement");
    reveal_strlit("YulAssignment");
    reveal_strlit("YulBlock");
    reveal_strlit("YulCase");
    reveal_strlit("YulExpressionStatement");
    reveal_strlit("YulFunctionCall");
    reveal_strlit("YulIdentifier");
    reveal_strlit("YulLiteral");
    reveal_strlit("YulSwitch");
    reveal_strlit("YulTypedName");
    reveal_strlit("YulVariableDeclaration");
}

/// Each recognized kind's own discriminator string reads back as that kind.
pub proof fn lemma_tag_names_its_kind(t: NodeType)
    requires
        t != NodeType::Unknown,
    ensures
        tag_kind(tag_name(t)) == t,
{
    lemma_tag_lengths();
    match t {
        NodeType::ArrayTypeName => assert(tag_kind("ArrayTypeName"@) == NodeType::ArrayTypeName) by {
            reveal_strlit("ArrayTypeName");
        },
        NodeType::Assignment => assert(tag_kind("Assignment"@) == NodeType::Assignment) by {
            reveal_strlit("Assignment");
        },
        NodeType::BinaryOperation => assert(tag_kind("BinaryOperation"@) == NodeType::BinaryOperation) by {
            reveal_strlit("BinaryOperation");
        },
        NodeType::Block => assert(tag_kind("Block"@) == NodeType::Block) by {
            reveal_strlit("Block");
        },
        NodeType::Break => assert(tag_kind("Break"@) == NodeType::Break) by {
            reveal_strlit("Break");
            reveal_strlit("Block");
            assert("Break"@[1] != "Block"@[1]);
        },
        NodeType::Conditional => assert(tag_kind("Conditional"@) == NodeType::Conditional) by {
            reveal_strlit("Conditional");
        },
        NodeType::Continue => assert(tag_kind("Continue"@) == NodeType::Continue) by {
            reveal_strlit("Continue");
        },
        NodeType::ContractDefinition => assert(tag_kind("ContractDefinition"@) == NodeType::ContractDefinition) by {
            reveal_strlit("ContractDefinition");
        },
        NodeType::DoWhileStatement => assert(tag_kind("DoWhileStatement"@) == NodeType::DoWhileStatement) by {
            reveal_strlit("DoWhileStatement");
        },
        NodeType::ElementaryTypeName => assert(tag_kind("ElementaryTypeName"@) == NodeType::ElementaryTypeName) by {
            reveal_strlit("ElementaryTypeName");
            reveal_strlit("ContractDefinition");
            assert("ElementaryTypeName"@[0] != "ContractDefinition"@[0]);
        },
        NodeType::ElementaryTypeNameExpression => assert(tag_kind("ElementaryTypeNameExpression"@) == NodeType::ElementaryTypeNameExpression) by {
            reveal_strlit("ElementaryTypeNameExpression");
        },
        NodeType::EmitStatement => assert(tag_kind("EmitStatement"@) == NodeType::EmitStatement) by {
            reveal_strlit("EmitStatement");
            reveal_strlit("ArrayTypeName");
            assert("EmitStatement"@[0] != "ArrayTypeName"@[0]);
        },
        NodeType::EnumDefinition => assert(tag_kind("EnumDefinition"@) == NodeType::EnumDefinition) by {
            reveal_strlit("EnumDefinition");
        },
        NodeType::EnumValue => assert(tag_kind("EnumValue"@) == NodeType::EnumValue) by {
            reveal_strlit("EnumValue");
        },
        NodeType::ErrorDefinition => assert(tag_kind("ErrorDefinition"@) == NodeType::ErrorDefinition) by {
            reveal_strlit("ErrorDefinition");
            reveal_strlit("BinaryOperation");
            assert("ErrorDefinition"@[0] != "BinaryOperation"@[0]);
        },
        NodeType::EventDefinition => assert(tag_kind("EventDefinition"@) == NodeType::EventDefinition) by {
            reveal_strlit("EventDefinition");
            reveal_strlit("BinaryOperation");
            reveal_strlit("ErrorDefinition");
            assert("EventDefinition"@[0] != "BinaryOperation"@[0]);
            assert("EventDefinition"@[1] != "ErrorDefinition"@[1]);
        },
        NodeType::ExpressionStatement => assert(tag_kind("ExpressionStatement"@) == NodeType::ExpressionStatement) by {
            reveal_strlit("ExpressionStatement");
        },
        NodeType::ForStatement => assert(tag_kind("ForStatement"@) == NodeType::ForStatement) by {
            reveal_strlit("ForStatement");
        },
        NodeType::FunctionCall => assert(tag_kind("FunctionCall"@) == NodeType::FunctionCall) by {
            reveal_strlit("FunctionCall");
            reveal_strlit("ForStatement");
            assert("FunctionCall"@[1] != "ForStatement"@[1]);
        },
        NodeType::FunctionCallOptions => assert(tag_kind("FunctionCallOptions"@) == NodeType::FunctionCallOptions) by {
            reveal_strlit("FunctionCallOptions");
            reveal_strlit("ExpressionStatement");
            assert("FunctionCallOptions"@[0] != "ExpressionStatement"@[0]);
        },
        NodeType::FunctionDefinition => assert(tag_kind("FunctionDefinition"@) == NodeType::FunctionDefinition) by {
            reveal_strlit("FunctionDefinition");
            reveal_strlit("ContractDefinition");
            reveal_strlit("ElementaryTypeName");
            assert("FunctionDefinition"@[0] != "ContractDefinition"@[0]);
            assert("FunctionDefinition"@[0] != "ElementaryTypeName"@[0]);
        },
        NodeType::FunctionTypeName => assert(tag_kind("FunctionTypeName"@) == NodeType::FunctionTypeName) by {
            reveal_strlit("FunctionTypeName");
            reveal_strlit("DoWhileStatement");
            assert("FunctionTypeName"@[0] != "DoWhileStatement"@[0]);
        },
        NodeType::Identifier => assert(tag_kind("Identifier"@) == NodeType::Identifier) by {
            reveal_strlit("Identifier");
            reveal_strlit("Assignment");
            assert("Identifier"@[0] != "Assignment"@[0]);
        },
        NodeType::IdentifierPath => assert(tag_kind("IdentifierPath"@) == NodeType::IdentifierPath) by {
            reveal_strlit("IdentifierPath");
            reveal_strlit("EnumDefinition");
            assert("IdentifierPath"@[0] != "EnumDefinition"@[0]);
        },
        NodeType::IfStatement => assert(tag_kind("IfStatement"@) == NodeType::IfStatement) by {
            reveal_strlit("IfStatement");
            reveal_strlit("Conditional");
            assert("IfStatement"@[0] != "Conditional"@[0]);
        },
        NodeType::ImportDirective => assert(tag_kind("ImportDirective"@) == NodeType::ImportDirective) by {
            reveal_strlit("ImportDirective");
            reveal_strlit("BinaryOperation");
            reveal_strlit("ErrorDefinition");
            reveal_strlit("EventDefinition");
            assert("ImportDirective"@[0] != "BinaryOperation"@[0]);
            assert("ImportDirective"@[0] != "ErrorDefinition"@[0]);
            assert("ImportDirective"@[0] != "EventDefinition"@[0]);
        },
        NodeType::IndexAccess => assert(tag_kind("IndexAccess"@) == NodeType::IndexAccess) by {
            reveal_strlit("IndexAccess");
            reveal_strlit("Conditional");
            reveal_strlit("IfStatement");
            assert("IndexAccess"@[0] != "Conditional"@[0]);
            assert("IndexAccess"@[1] != "IfStatement"@[1]);
        },
        NodeType::IndexRangeAccess => assert(tag_kind("IndexRangeAccess"@) == NodeType::IndexRangeAccess) by {
            reveal_strlit("IndexRangeAccess");
            reveal_strlit("DoWhileStatement");
            reveal_strlit("FunctionTypeName");
            assert("IndexRangeAccess"@[0] != "DoWhileStatement"@[0]);
            assert("IndexRangeAccess"@[0] != "FunctionTypeName"@[0]);
        },
        NodeType::InheritanceSpecifier => assert(tag_kind("InheritanceSpecifier"@) == NodeType::InheritanceSpecifier) by {
            reveal_strlit("InheritanceSpecifier");
        },
        NodeType::InlineAssembly => assert(tag_kind("InlineAssembly"@) == NodeType::InlineAssembly) by {
            reveal_strlit("InlineAssembly");
            reveal_strlit("EnumDefinition");
            reveal_strlit("IdentifierPath");
            assert("InlineAssembly"@[0] != "EnumDefinition"@[0]);
            assert("InlineAssembly"@[1] != "IdentifierPath"@[1]);
        },
        NodeType::Literal => assert(tag_kind("Literal"@) == NodeType::Literal) by {
            reveal_strlit("Literal");
        },
        NodeType::Mapping => assert(tag_kind("Mapping"@) == NodeType::Mapping) by {
            reveal_strlit("Mapping");
            reveal_strlit("Literal");
            assert("Mapping"@[0] != "Literal"@[0]);
        },
        NodeType::MemberAccess => assert(tag_kind("MemberAccess"@) == NodeType::MemberAccess) by {
            reveal_strlit("MemberAccess");
            reveal_strlit("ForStatement");
            reveal_strlit("FunctionCall");
            assert("MemberAccess"@[0] != "ForStatement"@[0]);
            assert("MemberAccess"@[0] != "FunctionCall"@[0]);
        },
        NodeType::ModifierDefinition => assert(tag_kind("ModifierDefinition"@) == NodeType::ModifierDefinition) by {
            reveal_strlit("ModifierDefinition");
            reveal_strlit("ContractDefinition");
            reveal_strlit("ElementaryTypeName");
            reveal_strlit("FunctionDefinition");
            assert("ModifierDefinition"@[0] != "ContractDefinition"@[0]);
            assert("ModifierDefinition"@[0] != "ElementaryTypeName"@[0]);
            assert("ModifierDefinition"@[0] != "FunctionDefinition"@[0]);
        },
        NodeType::ModifierInvocation => assert(tag_kind("ModifierInvocation"@) == NodeType::ModifierInvocation) by {
            reveal_strlit("ModifierInvocation");
            reveal_strlit("ContractDefinition");
            reveal_strlit("ElementaryTypeName");
            reveal_strlit("FunctionDefinition");
            reveal_strlit("ModifierDefinition");
            assert("ModifierInvocation"@[0] != "ContractDefinition"@[0]);
            assert("ModifierInvocation"@[0] != "ElementaryTypeName"@[0]);
            assert("ModifierInvocation"@[0] != "FunctionDefinition"@[0]);
            assert("ModifierInvocation"@[8] != "ModifierDefinition"@[8]);
        },
        NodeType::NewExpression => assert(tag_kind("NewExpression"@) == NodeType::NewExpression) by {
            reveal_strlit("NewExpression");
            reveal_strlit("ArrayTypeName");
            reveal_strlit("EmitStatement");
            assert("NewExpression"@[0] != "ArrayTypeName"@[0]);
            assert("NewExpression"@[0] != "EmitStatement"@[0]);
        },
        NodeType::OverrideSpecifier => assert(tag_kind("OverrideSpecifier"@) == NodeType::OverrideSpecifier) by {
            reveal_strlit("OverrideSpecifier");
        },
        NodeType::ParameterList => assert(tag_kind("ParameterList"@) == NodeType::ParameterList) by {
            reveal_strlit("ParameterList");
            reveal_strlit("ArrayTypeName");
            reveal_strlit("EmitStatement");
            reveal_strlit("NewExpression");
            assert("ParameterList"@[0] != "ArrayTypeName"@[0]);
            assert("ParameterList"@[0] != "EmitStatement"@[0]);
            assert("ParameterList"@[0] != "NewExpression"@[0]);
        },
        NodeType::PlaceholderStatement => assert(tag_kind("PlaceholderStatement"@) == NodeType::PlaceholderStatement) by {
            reveal_strlit("PlaceholderStatement");
            reveal_strlit("InheritanceSpecifier");
            assert("PlaceholderStatement"@[0] != "InheritanceSpecifier"@[0]);
        },
        NodeType::PragmaDirective => assert(tag_kind("PragmaDirective"@) == NodeType::PragmaDirective) by {
            reveal_strlit("PragmaDirective");
            reveal_strlit("BinaryOperation");
            reveal_strlit("ErrorDefinition");
            reveal_strlit("EventDefinition");
            reveal_strlit("ImportDirective");
            assert("PragmaDirective"@[0] != "BinaryOperation"@[0]);
            assert("PragmaDirective"@[0] != "ErrorDefinition"@[0]);
            assert("PragmaDirective"@[0] != "EventDefinition"@[0]);
            assert("PragmaDirective"@[0] != "ImportDirective"@[0]);
        },
        NodeType::Return => assert(tag_kind("Return"@) == NodeType::Return) by {
            reveal_strlit("Return");
        },
        NodeType::RevertStatement => assert(tag_kind("RevertStatement"@) == NodeType::RevertStatement) by {
            reveal_strlit("RevertStatement");
            reveal_strlit("BinaryOperation");
            reveal_strlit("ErrorDefinition");
            reveal_strlit("EventDefinition");
            reveal_strlit("ImportDirective");
            reveal_strlit("PragmaDirective");
            assert("RevertStatement"@[0] != "BinaryOperation"@[0]);
            assert("RevertStatement"@[0] != "ErrorDefinition"@[0]);
            assert("RevertStatement"@[0] != "EventDefinition"@[0]);
            assert("RevertStatement"@[0] != "ImportDirective"@[0]);
            assert("RevertStatement"@[0] != "PragmaDirective"@[0]);
        },
        NodeType::SourceUnit => assert(tag_kind("SourceUnit"@) == NodeType::SourceUnit) by {
            reveal_strlit("SourceUnit");
            reveal_strlit("Assignment");
            reveal_strlit("Identifier");
            assert("SourceUnit"@[0] != "Assignment"@[0]);
            assert("SourceUnit"@[0] != "Identifier"@[0]);
        },
        NodeType::StructDefinition => assert(tag_kind("StructDefinition"@) == NodeType::StructDefinition) by {
            reveal_strlit("StructDefinition");
            reveal_strlit("DoWhileStatement");
            reveal_strlit("FunctionTypeName");
            reveal_strlit("IndexRangeAccess");
            assert("StructDefinition"@[0] != "DoWhileStatement"@[0]);
            assert("StructDefinition"@[0] != "FunctionTypeName"@[0]);
            assert("StructDefinition"@[0] != "IndexRangeAccess"@[0]);
        },
        NodeType::StructuredDocumentation => assert(tag_kind("StructuredDocumentation"@) == NodeType::StructuredDocumentation) by {
            reveal_strlit("StructuredDocumentation");
        },
        NodeType::Throw => assert(tag_kind("Throw"@) == NodeType::Throw) by {
            reveal_strlit("Throw");
            reveal_strlit("Block");
            reveal_strlit("Break");
            assert("Throw"@[0] != "Block"@[0]);
            assert("Throw"@[0] != "Break"@[0]);
        },
        NodeType::TryCatchClause => assert(tag_kind("TryCatchClause"@) == NodeType::TryCatchClause) by {
            reveal_strlit("TryCatchClause");
            reveal_strlit("EnumDefinition");
            reveal_strlit("IdentifierPath");
            reveal_strlit("InlineAssembly");
            assert("TryCatchClause"@[0] != "EnumDefinition"@[0]);
            assert("TryCatchClause"@[0] != "IdentifierPath"@[0]);
            assert("TryCatchClause"@[0] != "InlineAssembly"@[0]);
        },
        NodeType::TryStatement => assert(tag_kind("TryStatement"@) == NodeType::TryStatement) by {
            reveal_strlit("TryStatement");
            reveal_strlit("ForStatement");
            reveal_strlit("FunctionCall");
            reveal_strlit("MemberAccess");
            assert("TryStatement"@[0] != "ForStatement"@[0]);
            assert("TryStatement"@[0] != "FunctionCall"@[0]);
            assert("TryStatement"@[0] != "MemberAccess"@[0]);
        },
        NodeType::TupleExpression => assert(tag_kind("TupleExpression"@) == NodeType::TupleExpression) by {
            reveal_strlit("TupleExpression");
            reveal_strlit("BinaryOperation");
            reveal_strlit("ErrorDefinition");
            reveal_strlit("EventDefinition");
            reveal_strlit("ImportDirective");
            reveal_strlit("PragmaDirective");
            reveal_strlit("RevertStatement");
            assert("TupleExpression"@[0] != "BinaryOperation"@[0]);
            assert("TupleExpression"@[0] != "ErrorDefinition"@[0]);
            assert("TupleExpression"@[0] != "EventDefinition"@[0]);
            assert("TupleExpression"@[0] != "ImportDirective"@[0]);
            assert("TupleExpression"@[0] != "PragmaDirective"@[0]);
            assert("TupleExpression"@[0] != "RevertStatement"@[0]);
        },
        NodeType::UnaryOperation => assert(tag_kind("UnaryOperation"@) == NodeType::UnaryOperation) by {
            reveal_strlit("UnaryOperation");
            reveal_strlit("EnumDefinition");
            reveal_strlit("IdentifierPath");
            reveal_strlit("InlineAssembly");
            reveal_strlit("TryCatchClause");
            assert("UnaryOperation"@[0] != "EnumDefinition"@[0]);
            assert("UnaryOperation"@[0] != "IdentifierPath"@[0]);
            assert("UnaryOperation"@[0] != "InlineAssembly"@[0]);
            assert("UnaryOperation"@[0] != "TryCatchClause"@[0]);
        },
        NodeType::UncheckedBlock => assert(tag_kind("UncheckedBlock"@) == NodeType::UncheckedBlock) by {
            reveal_strlit("UncheckedBlock");
            reveal_strlit("EnumDefinition");
            reveal_strlit("IdentifierPath");
            reveal_strlit("InlineAssembly");
            reveal_strlit("TryCatchClause");
            reveal_strlit("UnaryOperation");
            assert("UncheckedBlock"@[0] != "EnumDefinition"@[0]);
            assert("UncheckedBlock"@[0] != "IdentifierPath"@[0]);
            assert("UncheckedBlock"@[0] != "InlineAssembly"@[0]);
            assert("UncheckedBlock"@[0] != "TryCatchClause"@[0]);
            assert("UncheckedBlock"@[2] != "UnaryOperation"@[2]);
        },
        NodeType::UserDefinedTypeName => assert(tag_kind("UserDefinedTypeName"@) == NodeType::UserDefinedTypeName) by {
            reveal_strlit("UserDefinedTypeName");
            reveal_strlit("ExpressionStatement");
            reveal_strlit("FunctionCallOptions");
            assert("UserDefinedTypeName"@[0] != "ExpressionStatement"@[0]);
            assert("UserDefinedTypeName"@[0] != "FunctionCallOptions"@[0]);
        },
        NodeType::UserDefinedValueTypeDefinition => assert(tag_kind("UserDefinedValueTypeDefinition"@) == NodeType::UserDefinedValueTypeDefinition) by {
            reveal_strlit("UserDefinedValueTypeDefinition");
        },
        NodeType::UsingForDirective => assert(tag_kind("UsingForDirective"@) == NodeType::UsingForDirective) by {
            reveal_strlit("UsingForDirective");
            reveal_strlit("OverrideSpecifier");
            assert("UsingForDirective"@[0] != "OverrideSpecifier"@[0]);
        },
        NodeType::VariableDeclaration => assert(tag_kind("VariableDeclaration"@) == NodeType::VariableDeclaration) by {
            reveal_strlit("VariableDeclaration");
            reveal_strlit("ExpressionStatement");
            reveal_strlit("FunctionCallOptions");
            reveal_strlit("UserDefinedTypeName");
            assert("VariableDeclaration"@[0] != "ExpressionStatement"@[0]);
            assert("VariableDeclaration"@[0] != "FunctionCallOptions"@[0]);
            assert("VariableDeclaration"@[0] != "UserDefinedTypeName"@[0]);
        },
        NodeType::VariableDeclarationStatement => assert(tag_kind("VariableDeclarationStatement"@) == NodeType::VariableDeclarationStatement) by {
            reveal_strlit("VariableDeclarationStatement");
            reveal_strlit("ElementaryTypeNameExpression");
            assert("VariableDeclarationStatement"@[0] != "ElementaryTypeNameExpression"@[0]);
        },
        NodeType::WhileStatement => assert(tag_kind("WhileStatement"@) == NodeType::WhileStatement) by {
            reveal_strlit("WhileStatement");
            reveal_strlit("EnumDefinition");
            reveal_strlit("IdentifierPath");
            reveal_strlit("InlineAssembly");
            reveal_strlit("TryCatchClause");
            reveal_strlit("UnaryOperation");
            reveal_strlit("UncheckedBlock");
            assert("WhileStatement"@[0] != "EnumDefinition"@[0]);
            assert("WhileStatement"@[0] != "IdentifierPath"@[0]);
            assert("WhileStatement"@[0] != "InlineAssembly"@[0]);
            assert("WhileStatement"@[0] != "TryCatchClause"@[0]);
            assert("WhileStatement"@[0] != "UnaryOperation"@[0]);
            assert("WhileStatement"@[0] != "UncheckedBlock"@[0]);
        },
        NodeType::YulAssignment => assert(tag_kind("YulAssignment"@) == NodeType::YulAssignment) by {
            reveal_strlit("YulAssignment");
            reveal_strlit("ArrayTypeName");
            reveal_strlit("EmitStatement");
            reveal_strlit("NewExpression");
            reveal_strlit("ParameterList");
            assert("YulAssignment"@[0] != "ArrayTypeName"@[0]);
            assert("YulAssignment"@[0] != "EmitStatement"@[0]);
            assert("YulAssignment"@[0] != "NewExpression"@[0]);
            assert("YulAssignment"@[0] != "ParameterList"@[0]);
        },
        NodeType::YulBlock => assert(tag_kind("YulBlock"@) == NodeType::YulBlock) by {
            reveal_strlit("YulBlock");
            reveal_strlit("Continue");
            assert("YulBlock"@[0] != "Continue"@[0]);
        },
        NodeType::YulCase => assert(tag_kind("YulCase"@) == NodeType::YulCase) by {
            reveal_strlit("YulCase");
            reveal_strlit("Literal");
            reveal_strlit("Mapping");
            assert("YulCase"@[0] != "Literal"@[0]);
            assert("YulCase"@[0] != "Mapping"@[0]);
        },
        NodeType::YulExpressionStatement => assert(tag_kind("YulExpressionStatement"@) == NodeType::YulExpressionStatement) by {
            reveal_strlit("YulExpressionStatement");
        },
        NodeType::YulFunctionCall => assert(tag_kind("YulFunctionCall"@) == NodeType::YulFunctionCall) by {
            reveal_strlit("YulFunctionCall");
            reveal_strlit("BinaryOperation");
            reveal_strlit("ErrorDefinition");
            reveal_strlit("EventDefinition");
            reveal_strlit("ImportDirective");
            reveal_strlit("PragmaDirective");
            reveal_strlit("RevertStatement");
            reveal_strlit("TupleExpression");
            assert("YulFunctionCall"@[0] != "BinaryOperation"@[0]);
            assert("YulFunctionCall"@[0] != "ErrorDefinition"@[0]);
            assert("YulFunctionCall"@[0] != "EventDefinition"@[0]);
            assert("YulFunctionCall"@[0] != "ImportDirective"@[0]);
            assert("YulFunctionCall"@[0] != "PragmaDirective"@[0]);
            assert("YulFunctionCall"@[0] != "RevertStatement"@[0]);
            assert("YulFunctionCall"@[0] != "TupleExpression"@[0]);
        },
        NodeType::YulIdentifier => assert(tag_kind("YulIdentifier"@) == NodeType::YulIdentifier) by {
            reveal_strlit("YulIdentifier");
            reveal_strlit("ArrayTypeName");
            reveal_strlit("EmitStatement");
            reveal_strlit("NewExpression");
            reveal_strlit("ParameterList");
            reveal_strlit("YulAssignment");
            assert("YulIdentifier"@[0] != "ArrayTypeName"@[0]);
            assert("YulIdentifier"@[0] != "EmitStatement"@[0]);
            assert("YulIdentifier"@[0] != "NewExpression"@[0]);
            assert("YulIdentifier"@[0] != "ParameterList"@[0]);
            assert("YulIdentifier"@[3] != "YulAssignment"@[3]);
        },
        NodeType::YulLiteral => assert(tag_kind("YulLiteral"@) == NodeType::YulLiteral) by {
            reveal_strlit("YulLiteral");
            reveal_strlit("Assignment");
            reveal_strlit("Identifier");
            reveal_strlit("SourceUnit");
            assert("YulLiteral"@[0] != "Assignment"@[0]);
            assert("YulLiteral"@[0] != "Identifier"@[0]);
            assert("YulLiteral"@[0] != "SourceUnit"@[0]);
        },
        NodeType::YulSwitch => assert(tag_kind("YulSwitch"@) == NodeType::YulSwitch) by {
            reveal_strlit("YulSwitch");
            reveal_strlit("EnumValue");
            assert("YulSwitch"@[0] != "EnumValue"@[0]);
        },
        NodeType::YulTypedName => assert(tag_kind("YulTypedName"@) == NodeType::YulTypedName) by {
            reveal_strlit("YulTypedName");
            reveal_strlit("ForStatement");
            reveal_strlit("FunctionCall");
            reveal_strlit("MemberAccess");
            reveal_strlit("TryStatement");
            assert("YulTypedName"@[0] != "ForStatement"@[0]);
            assert("YulTypedName"@[0] != "FunctionCall"@[0]);
            assert("YulTypedName"@[0] != "MemberAccess"@[0]);
            assert("YulTypedName"@[0] != "TryStatement"@[0]);
        },
        NodeType::YulVariableDeclaration => assert(tag_kind("YulVariableDeclaration"@) == NodeType::YulVariableDeclaration) by {
            reveal_strlit("YulVariableDeclaration");
            reveal_strlit("YulExpressionStatement");
            assert("YulVariableDeclaration"@[3] != "YulExpressionStatement"@[3]);
        },
        NodeType::Unknown => {},
    }
}

} // verus!
