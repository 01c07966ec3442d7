//! The on-disk artifact document produced by one compiled contract: one JSON
//! document per contract holding the ABI, the bytecode object with its source
//! map, the deployed-bytecode object with its source map, compiler metadata,
//! and the AST. The caller decodes the JSON text into these types and hands
//! them to the library; fields that the matcher reads are validated in
//! `artifact`.

use vstd::prelude::*;

verus! {

/// Opaque JSON value carried through AST nodes unexamined; the verification
/// logic never reads inside one.
#[verifier::external_type_specification]
#[verifier::external_body]
pub struct ExValue(serde_json::Value);

#[derive(Default)]
pub struct Root {
    pub abi: Vec<Abi>,
    pub bytecode: Bytecode,
    pub deployed_bytecode: DeployedBytecode,
    pub method_identifiers: MethodIdentifiers,
    pub raw_metadata: String,
    pub metadata: Metadata,
    pub ast: Ast,
    pub id: i64,
}

#[derive(Default)]
pub struct Abi {
    pub inputs: Vec<Input>,
    pub name: String,
    pub outputs: Vec<Output>,
    pub state_mutability: String,
    pub type_field: String,
}

#[derive(Default)]
pub struct Input {
    pub internal_type: String,
    pub name: String,
    pub type_field: String,
}

#[derive(Default)]
pub struct Output {
    pub internal_type: String,
    pub name: String,
    pub type_field: String,
}

#[derive(Default)]
pub struct Bytecode {
    pub object: String,
    pub source_map: String,
    pub link_references: LinkReferences,
}

#[derive(Default)]
pub struct LinkReferences {}

#[derive(Default)]
pub struct DeployedBytecode {
    pub object: String,
    pub source_map: String,
    pub link_references: LinkReferences2,
}

#[derive(Default)]
pub struct LinkReferences2 {}

#[derive(Default)]
pub struct MethodIdentifiers {
    pub increment: String,
    pub number: String,
    pub set_number_uint256: String,
}

#[derive(Default)]
pub struct Metadata {
    pub compiler: Compiler,
    pub language: String,
    pub output: Output2,
    pub settings: Settings,
    pub sources: Sources,
    pub version: i64,
}

#[derive(Default)]
pub struct Compiler {
    pub version: String,
}

#[derive(Default)]
pub struct Output2 {
    pub abi: Vec<Abi2>,
    pub devdoc: Devdoc,
    pub userdoc: Userdoc,
}

#[derive(Default)]
pub struct Abi2 {
    pub inputs: Vec<Input2>,
    pub state_mutability: String,
    pub type_field: String,
    pub name: String,
    pub outputs: Vec<Output3>,
}

#[derive(Default)]
pub struct Input2 {
    pub internal_type: String,
    pub name: String,
    pub type_field: String,
}

#[derive(Default)]
pub struct Output3 {
    pub internal_type: String,
    pub name: String,
    pub type_field: String,
}

#[derive(Default)]
pub struct Devdoc {
    pub kind: String,
    pub methods: Methods,
    pub version: i64,
}

#[derive(Default)]
pub struct Methods {}

#[derive(Default)]
pub struct Userdoc {
    pub kind: String,
    pub methods: Methods2,
    pub version: i64,
}

#[derive(Default)]
pub struct Methods2 {}

#[derive(Default)]
pub struct Settings {
    pub remappings: Vec<String>,
    pub optimizer: Optimizer,
    pub metadata: Metadata2,
    pub compilation_target: CompilationTarget,
    pub libraries: Libraries,
}

#[derive(Default)]
pub struct Optimizer {
    pub enabled: bool,
    pub runs: i64,
}

#[derive(Default)]
pub struct Metadata2 {
    pub bytecode_hash: String,
}

#[derive(Default)]
pub struct CompilationTarget {
    pub src_counter_sol: String,
}

#[derive(Default)]
pub struct Libraries {}

#[derive(Default)]
pub struct Sources {
    pub src_counter_sol: SrcCounterSol,
}

#[derive(Default)]
pub struct SrcCounterSol {
    pub keccak256: String,
    pub urls: Vec<String>,
    pub license: String,
}

#[derive(Default)]
pub struct Ast {
    pub absolute_path: String,
    pub id: i64,
    pub exported_symbols: ExportedSymbols,
    pub node_type: String,
    pub src: String,
    pub nodes: Vec<Node>,
    pub license: String,
}

#[derive(Default)]
pub struct ExportedSymbols {
    pub counter: Vec<i64>,
}

#[derive(Default)]
pub struct Node {
    pub id: i64,
    pub node_type: String,
    pub src: String,
    pub nodes: Vec<Node2>,
    pub literals: Option<Vec<String>>,
    pub abstract_field: Option<bool>,
    pub base_contracts: Vec<serde_json::Value>,
    pub canonical_name: Option<String>,
    pub contract_dependencies: Vec<serde_json::Value>,
    pub contract_kind: Option<String>,
    pub fully_implemented: Option<bool>,
    pub linearized_base_contracts: Vec<i64>,
    pub name: Option<String>,
    pub name_location: Option<String>,
    pub scope: Option<i64>,
    pub used_errors: Vec<serde_json::Value>,
}

#[derive(Default)]
pub struct Node2 {
    pub id: i64,
    pub node_type: String,
    pub src: String,
    pub nodes: Vec<serde_json::Value>,
    pub constant: Option<bool>,
    pub function_selector: String,
    pub mutability: Option<String>,
    pub name: String,
    pub name_location: String,
    pub scope: i64,
    pub state_variable: Option<bool>,
    pub storage_location: Option<String>,
    pub type_descriptions: Option<TypeDescriptions>,
    pub type_name_field: Option<TypeName>,
    pub visibility: String,
    pub body: Option<Body>,
    pub implemented: Option<bool>,
    pub kind: Option<String>,
    pub modifiers: Vec<serde_json::Value>,
    pub parameters: Option<Parameters>,
    pub return_parameters: Option<ReturnParameters>,
    pub state_mutability: Option<String>,
    pub virtual_field: Option<bool>,
}

#[derive(Default)]
pub struct TypeDescriptions {
    pub type_identifier: String,
    pub type_string: String,
}

#[derive(Default)]
pub struct TypeName {
    pub id: i64,
    pub name: String,
    pub node_type: String,
    pub src: String,
    pub type_descriptions: TypeDescriptions2,
}

#[derive(Default)]
pub struct TypeDescriptions2 {
    pub type_identifier: String,
    pub type_string: String,
}

#[derive(Default)]
pub struct Body {
    pub id: i64,
    pub node_type: String,
    pub src: String,
    pub nodes: Vec<serde_json::Value>,
    pub statements: Vec<Statement>,
}

#[derive(Default)]
pub struct Statement {
    pub expression: Expression,
    pub id: i64,
    pub node_type: String,
    pub src: String,
}

#[derive(Default)]
pub struct Expression {
    pub id: i64,
    pub is_constant: bool,
    pub is_lvalue: bool,
    pub is_pure: bool,
    pub l_value_requested: bool,
    pub node_type: String,
    pub operator: String,
    pub prefix: Option<bool>,
    pub src: String,
    pub sub_expression: Option<SubExpression>,
    pub type_descriptions: TypeDescriptions4,
    pub left_hand_side: Option<LeftHandSide>,
    pub right_hand_side: Option<RightHandSide>,
}

#[derive(Default)]
pub struct SubExpression {
    pub id: i64,
    pub name: String,
    pub node_type: String,
    pub overloaded_declarations: Vec<serde_json::Value>,
    pub referenced_declaration: i64,
    pub src: String,
    pub type_descriptions: TypeDescriptions3,
}

#[derive(Default)]
pub struct TypeDescriptions3 {
    pub type_identifier: String,
    pub type_string: String,
}

#[derive(Default)]
pub struct TypeDescriptions4 {
    pub type_identifier: String,
    pub type_string: String,
}

#[derive(Default)]
pub struct LeftHandSide {
    pub id: i64,
    pub name: String,
    pub node_type: String,
    pub overloaded_declarations: Vec<serde_json::Value>,
    pub referenced_declaration: i64,
    pub src: String,
    pub type_descriptions: TypeDescriptions5,
}

#[derive(Default)]
pub struct TypeDescriptions5 {
    pub type_identifier: String,
    pub type_string: String,
}

#[derive(Default)]
pub struct RightHandSide {
    pub id: i64,
    pub name: String,
    pub node_type: String,
    pub overloaded_declarations: Vec<serde_json::Value>,
    pub referenced_declaration: i64,
    pub src: String,
    pub type_descriptions: TypeDescriptions6,
}

#[derive(Default)]
pub struct TypeDescriptions6 {
    pub type_identifier: String,
    pub type_string: String,
}

#[derive(Default)]
pub struct Parameters {
    pub id: i64,
    pub node_type: String,
    pub parameters: Vec<Parameter>,
    pub src: String,
}

#[derive(Default)]
pub struct Parameter {
    pub constant: bool,
    pub id: i64,
    pub mutability: String,
    pub name: String,
    pub name_location: String,
    pub node_type: String,
    pub scope: i64,
    pub src: String,
    pub state_variable: bool,
    pub storage_location: String,
    pub type_descriptions: TypeDescriptions7,
    pub type_name_field: TypeName2,
    pub visibility: String,
}

#[derive(Default)]
pub struct TypeDescriptions7 {
    pub type_identifier: String,
    pub type_string: String,
}

#[derive(Default)]
pub struct TypeName2 {
    pub id: i64,
    pub name: String,
    pub node_type: String,
    pub src: String,
    pub type_descriptions: TypeDescriptions8,
}

#[derive(Default)]
pub struct TypeDescriptions8 {
    pub type_identifier: String,
    pub type_string: String,
}

#[derive(Default)]
pub struct ReturnParameters {
    pub id: i64,
    pub node_type: String,
    pub parameters: Vec<serde_json::Value>,
    pub src: String,
}

} // verus!
