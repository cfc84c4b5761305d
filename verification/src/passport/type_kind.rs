//! The type component of a passport and its mathematical model.

use vstd::prelude::*;
use vstd::string::*;

use super::kinds::{GpuBackend, InfinityMode, NodeArch};
use crate::text::{dec_text, u128_text, u8_text, usize_text};

verus! {

/// The static type recorded in a passport.
#[derive(Debug)]
pub enum TypeKind {
    Nat,
    Bool,
    Bytes,
    Text,
    Infinity { mode: InfinityMode },
    Universe { level: u8 },
    SetType { of_level: u8, lives_in: u8 },
    Class { of_level: u8 },
    Language { name: String },
    Encoding { name: String },
    MetaLevel { level: u8 },
    DefinableNat { language: String, encoding: String, object_theory: String, bound: u128, meta_level: u8 },
    BigNat { family: String, parameter: Option<u128> },
    Prop { name: String },
    Provable { object_theory: String, proposition: String },
    TruthClaim { proposition: String },
    ReflectionClaim { object_theory: String, proposition: String },
    SelfReferenceClaim { proposition: String },
    Statement { proposition: String },
    Theorem { name: String, proposition: String },
    Goal { proposition: String },
    Hypothesis { proposition: String },
    EqProof { lhs: String, rhs: String },
    RewriteRule { name: String, lhs: String, rhs: String },
    RewriteCertificate { from: String, to: String },
    NatInductionScheme { proposition_family: String },
    InductionBaseCase { proposition: String },
    InductionStepCase { proposition: String },
    InductionProof { proposition: String },
    ModuleManifest { module: String },
    ImportGraph { root: String },
    ModuleExport { module: String, symbol: String, visibility: String },
    ModuleInterface { module: String },
    ModuleImportAudit { importer: String, provider: String, status: String },
    AxiomRegistry { theory: String },
    MetatheoryDependencyAudit { subject: String, status: String },
    MetatheoryClosureReport { subject: String, status: String },
    ConservativeExtensionAudit { base: String, extension: String, status: String },
    GlobalMetatheoryInventory { subject: String, status: String },
    SoundnessBoundaryLedger { subject: String, status: String },
    TrustedBaseClosure { subject: String, status: String },
    MetatheoryFoundationExit { subject: String, status: String },
    LogicalFormula { form: String },
    QuantifiedFormula { quantifier: String, variable: String, domain: String, body: String },
    VariableScopeReport { subject: String },
    AlphaEquivalenceReport { lhs: String, rhs: String, status: String },
    SubstitutionReport { variable: String, status: String },
    FunctionType { domain: String, codomain: String },
    LambdaTerm { parameter: String, domain: String, body: String },
    ApplicationTerm { function: String, argument: String, result: String, status: String },
    FunctionContract { name: String, status: String },
    ProductType { lhs: String, rhs: String },
    ProductTerm { lhs: String, rhs: String, product_type: String },
    SumType { left: String, right: String },
    SumInjection { side: String, value: String, sum_type: String },
    RecordType { name: String, fields: String },
    RecordTerm { name: String, fields: String },
    RecordProjection { record: String, field: String, result: String },
    ProductElimination { product_type: String, lhs: String, rhs: String },
    SumElimination { sum_type: String, side: String, result: String },
    RecordPattern { record: String, fields: String },
    OptionType { item: String },
    OptionValue { kind: String, item: String },
    ResultType { ok: String, err: String },
    ResultValue { kind: String, value: String, result_type: String },
    PartialityReport { subject: String, status: String },
    ListType { item: String },
    ListValue { item: String, len: usize },
    SequenceType { item: String },
    SequenceValue { item: String, len: usize },
    SequenceIndex { sequence: String, index: usize, status: String },
    MapTraversal { source: String, function: String, result: String },
    FoldTraversal { source: String, step: String, result: String, fuel: usize },
    TraversalReport { subject: String, status: String },
    RecursionScheme { name: String, measure: String, status: String },
    RecursiveCall { scheme: String, status: String, fuel_after: usize },
    RecursionReport { subject: String, status: String },
    ComputationBudget { name: String, status: String },
    TerminationBudgetReport { subject: String, status: String },
    StandardPreludeContract { name: String, operation: String, status: String },
    PreludeEvaluationReport { name: String, operation: String, status: String },
    PreludeLoweringReport { name: String, target: String, status: String },
    BackendCapabilityContract { name: String, target: String, status: String },
    BackendLoweringReport { name: String, target: String, status: String },
    ConsistencyClaim { theory: String },
    ProofTerm { rule: String },
    Term { of_theory: String, of_type: String },
    Node { arch: NodeArch },
    GpuDevice { backend: GpuBackend },
    GpuPool,
    VirtualCluster,
    DistributedMemory { memory_mib: Option<u128> },
    DistributedGpuMemory { memory_mib: Option<u128> },
    GpuValue { inner: Box<TypeKind> },
    GpuKernel { inner: Box<TypeKind> },
    MemoryCheckpoint { memory_mib: Option<u128> },
    RemoteCheckpoint { inner: Box<TypeKind>, source_arch: NodeArch },
    PortableCode { inner: Box<TypeKind> },
    Remote { inner: Box<TypeKind>, target_arch: NodeArch },
    Result(Box<TypeKind>),
    StaticProof(String),
    RuntimeWitness(String),
    Unknown(String),
}

/// Mathematical model of `TypeKind`: strings become character sequences.
pub enum TypeKindV {
    Nat,
    Bool,
    Bytes,
    Text,
    Infinity { mode: InfinityMode },
    Universe { level: u8 },
    SetType { of_level: u8, lives_in: u8 },
    Class { of_level: u8 },
    Language { name: Seq<char> },
    Encoding { name: Seq<char> },
    MetaLevel { level: u8 },
    DefinableNat { language: Seq<char>, encoding: Seq<char>, object_theory: Seq<char>, bound: u128, meta_level: u8 },
    BigNat { family: Seq<char>, parameter: Option<u128> },
    Prop { name: Seq<char> },
    Provable { object_theory: Seq<char>, proposition: Seq<char> },
    TruthClaim { proposition: Seq<char> },
    ReflectionClaim { object_theory: Seq<char>, proposition: Seq<char> },
    SelfReferenceClaim { proposition: Seq<char> },
    Statement { proposition: Seq<char> },
    Theorem { name: Seq<char>, proposition: Seq<char> },
    Goal { proposition: Seq<char> },
    Hypothesis { proposition: Seq<char> },
    EqProof { lhs: Seq<char>, rhs: Seq<char> },
    RewriteRule { name: Seq<char>, lhs: Seq<char>, rhs: Seq<char> },
    RewriteCertificate { from: Seq<char>, to: Seq<char> },
    NatInductionScheme { proposition_family: Seq<char> },
    InductionBaseCase { proposition: Seq<char> },
    InductionStepCase { proposition: Seq<char> },
    InductionProof { proposition: Seq<char> },
    ModuleManifest { module: Seq<char> },
    ImportGraph { root: Seq<char> },
    ModuleExport { module: Seq<char>, symbol: Seq<char>, visibility: Seq<char> },
    ModuleInterface { module: Seq<char> },
    ModuleImportAudit { importer: Seq<char>, provider: Seq<char>, status: Seq<char> },
    AxiomRegistry { theory: Seq<char> },
    MetatheoryDependencyAudit { subject: Seq<char>, status: Seq<char> },
    MetatheoryClosureReport { subject: Seq<char>, status: Seq<char> },
    ConservativeExtensionAudit { base: Seq<char>, extension: Seq<char>, status: Seq<char> },
    GlobalMetatheoryInventory { subject: Seq<char>, status: Seq<char> },
    SoundnessBoundaryLedger { subject: Seq<char>, status: Seq<char> },
    TrustedBaseClosure { subject: Seq<char>, status: Seq<char> },
    MetatheoryFoundationExit { subject: Seq<char>, status: Seq<char> },
    LogicalFormula { form: Seq<char> },
    QuantifiedFormula { quantifier: Seq<char>, variable: Seq<char>, domain: Seq<char>, body: Seq<char> },
    VariableScopeReport { subject: Seq<char> },
    AlphaEquivalenceReport { lhs: Seq<char>, rhs: Seq<char>, status: Seq<char> },
    SubstitutionReport { variable: Seq<char>, status: Seq<char> },
    FunctionType { domain: Seq<char>, codomain: Seq<char> },
    LambdaTerm { parameter: Seq<char>, domain: Seq<char>, body: Seq<char> },
    ApplicationTerm { function: Seq<char>, argument: Seq<char>, result: Seq<char>, status: Seq<char> },
    FunctionContract { name: Seq<char>, status: Seq<char> },
    ProductType { lhs: Seq<char>, rhs: Seq<char> },
    ProductTerm { lhs: Seq<char>, rhs: Seq<char>, product_type: Seq<char> },
    SumType { left: Seq<char>, right: Seq<char> },
    SumInjection { side: Seq<char>, value: Seq<char>, sum_type: Seq<char> },
    RecordType { name: Seq<char>, fields: Seq<char> },
    RecordTerm { name: Seq<char>, fields: Seq<char> },
    RecordProjection { record: Seq<char>, field: Seq<char>, result: Seq<char> },
    ProductElimination { product_type: Seq<char>, lhs: Seq<char>, rhs: Seq<char> },
    SumElimination { sum_type: Seq<char>, side: Seq<char>, result: Seq<char> },
    RecordPattern { record: Seq<char>, fields: Seq<char> },
    OptionType { item: Seq<char> },
    OptionValue { kind: Seq<char>, item: Seq<char> },
    ResultType { ok: Seq<char>, err: Seq<char> },
    ResultValue { kind: Seq<char>, value: Seq<char>, result_type: Seq<char> },
    PartialityReport { subject: Seq<char>, status: Seq<char> },
    ListType { item: Seq<char> },
    ListValue { item: Seq<char>, len: usize },
    SequenceType { item: Seq<char> },
    SequenceValue { item: Seq<char>, len: usize },
    SequenceIndex { sequence: Seq<char>, index: usize, status: Seq<char> },
    MapTraversal { source: Seq<char>, function: Seq<char>, result: Seq<char> },
    FoldTraversal { source: Seq<char>, step: Seq<char>, result: Seq<char>, fuel: usize },
    TraversalReport { subject: Seq<char>, status: Seq<char> },
    RecursionScheme { name: Seq<char>, measure: Seq<char>, status: Seq<char> },
    RecursiveCall { scheme: Seq<char>, status: Seq<char>, fuel_after: usize },
    RecursionReport { subject: Seq<char>, status: Seq<char> },
    ComputationBudget { name: Seq<char>, status: Seq<char> },
    TerminationBudgetReport { subject: Seq<char>, status: Seq<char> },
    StandardPreludeContract { name: Seq<char>, operation: Seq<char>, status: Seq<char> },
    PreludeEvaluationReport { name: Seq<char>, operation: Seq<char>, status: Seq<char> },
    PreludeLoweringReport { name: Seq<char>, target: Seq<char>, status: Seq<char> },
    BackendCapabilityContract { name: Seq<char>, target: Seq<char>, status: Seq<char> },
    BackendLoweringReport { name: Seq<char>, target: Seq<char>, status: Seq<char> },
    ConsistencyClaim { theory: Seq<char> },
    ProofTerm { rule: Seq<char> },
    Term { of_theory: Seq<char>, of_type: Seq<char> },
    Node { arch: NodeArch },
    GpuDevice { backend: GpuBackend },
    GpuPool,
    VirtualCluster,
    DistributedMemory { memory_mib: Option<u128> },
    DistributedGpuMemory { memory_mib: Option<u128> },
    GpuValue { inner: Box<TypeKindV> },
    GpuKernel { inner: Box<TypeKindV> },
    MemoryCheckpoint { memory_mib: Option<u128> },
    RemoteCheckpoint { inner: Box<TypeKindV>, source_arch: NodeArch },
    PortableCode { inner: Box<TypeKindV> },
    Remote { inner: Box<TypeKindV>, target_arch: NodeArch },
    Result(Box<TypeKindV>),
    StaticProof(Seq<char>),
    RuntimeWitness(Seq<char>),
    Unknown(Seq<char>),
}

/// The model of a `TypeKind` value.
pub open spec fn kind_model(t: TypeKind) -> TypeKindV
    decreases t,
{
    match t {
        TypeKind::Nat => TypeKindV::Nat,
        TypeKind::Bool => TypeKindV::Bool,
        TypeKind::Bytes => TypeKindV::Bytes,
        TypeKind::Text => TypeKindV::Text,
        TypeKind::Infinity { mode } => TypeKindV::Infinity { mode: mode },
        TypeKind::Universe { level } => TypeKindV::Universe { level: level },
        TypeKind::SetType { of_level, lives_in } => TypeKindV::SetType { of_level: of_level, lives_in: lives_in },
        TypeKind::Class { of_level } => TypeKindV::Class { of_level: of_level },
        TypeKind::Language { name } => TypeKindV::Language { name: name@ },
        TypeKind::Encoding { name } => TypeKindV::Encoding { name: name@ },
        TypeKind::MetaLevel { level } => TypeKindV::MetaLevel { level: level },
        TypeKind::DefinableNat { language, encoding, object_theory, bound, meta_level } => TypeKindV::DefinableNat { language: language@, encoding: encoding@, object_theory: object_theory@, bound: bound, meta_level: meta_level },
        TypeKind::BigNat { family, parameter } => TypeKindV::BigNat { family: family@, parameter: parameter },
        TypeKind::Prop { name } => TypeKindV::Prop { name: name@ },
        TypeKind::Provable { object_theory, proposition } => TypeKindV::Provable { object_theory: object_theory@, proposition: proposition@ },
        TypeKind::TruthClaim { proposition } => TypeKindV::TruthClaim { proposition: proposition@ },
        TypeKind::ReflectionClaim { object_theory, proposition } => TypeKindV::ReflectionClaim { object_theory: object_theory@, proposition: proposition@ },
        TypeKind::SelfReferenceClaim { proposition } => TypeKindV::SelfReferenceClaim { proposition: proposition@ },
        TypeKind::Statement { proposition } => TypeKindV::Statement { proposition: proposition@ },
        TypeKind::Theorem { name, proposition } => TypeKindV::Theorem { name: name@, proposition: proposition@ },
        TypeKind::Goal { proposition } => TypeKindV::Goal { proposition: proposition@ },
        TypeKind::Hypothesis { proposition } => TypeKindV::Hypothesis { proposition: proposition@ },
        TypeKind::EqProof { lhs, rhs } => TypeKindV::EqProof { lhs: lhs@, rhs: rhs@ },
        TypeKind::RewriteRule { name, lhs, rhs } => TypeKindV::RewriteRule { name: name@, lhs: lhs@, rhs: rhs@ },
        TypeKind::RewriteCertificate { from, to } => TypeKindV::RewriteCertificate { from: from@, to: to@ },
        TypeKind::NatInductionScheme { proposition_family } => TypeKindV::NatInductionScheme { proposition_family: proposition_family@ },
        TypeKind::InductionBaseCase { proposition } => TypeKindV::InductionBaseCase { proposition: proposition@ },
        TypeKind::InductionStepCase { proposition } => TypeKindV::InductionStepCase { proposition: proposition@ },
        TypeKind::InductionProof { proposition } => TypeKindV::InductionProof { proposition: proposition@ },
        TypeKind::ModuleManifest { module } => TypeKindV::ModuleManifest { module: module@ },
        TypeKind::ImportGraph { root } => TypeKindV::ImportGraph { root: root@ },
        TypeKind::ModuleExport { module, symbol, visibility } => TypeKindV::ModuleExport { module: module@, symbol: symbol@, visibility: visibility@ },
        TypeKind::ModuleInterface { module } => TypeKindV::ModuleInterface { module: module@ },
        TypeKind::ModuleImportAudit { importer, provider, status } => TypeKindV::ModuleImportAudit { importer: importer@, provider: provider@, status: status@ },
        TypeKind::AxiomRegistry { theory } => TypeKindV::AxiomRegistry { theory: theory@ },
        TypeKind::MetatheoryDependencyAudit { subject, status } => TypeKindV::MetatheoryDependencyAudit { subject: subject@, status: status@ },
        TypeKind::MetatheoryClosureReport { subject, status } => TypeKindV::MetatheoryClosureReport { subject: subject@, status: status@ },
        TypeKind::ConservativeExtensionAudit { base, extension, status } => TypeKindV::ConservativeExtensionAudit { base: base@, extension: extension@, status: status@ },
        TypeKind::GlobalMetatheoryInventory { subject, status } => TypeKindV::GlobalMetatheoryInventory { subject: subject@, status: status@ },
        TypeKind::SoundnessBoundaryLedger { subject, status } => TypeKindV::SoundnessBoundaryLedger { subject: subject@, status: status@ },
        TypeKind::TrustedBaseClosure { subject, status } => TypeKindV::TrustedBaseClosure { subject: subject@, status: status@ },
        TypeKind::MetatheoryFoundationExit { subject, status } => TypeKindV::MetatheoryFoundationExit { subject: subject@, status: status@ },
        TypeKind::LogicalFormula { form } => TypeKindV::LogicalFormula { form: form@ },
        TypeKind::QuantifiedFormula { quantifier, variable, domain, body } => TypeKindV::QuantifiedFormula { quantifier: quantifier@, variable: variable@, domain: domain@, body: body@ },
        TypeKind::VariableScopeReport { subject } => TypeKindV::VariableScopeReport { subject: subject@ },
        TypeKind::AlphaEquivalenceReport { lhs, rhs, status } => TypeKindV::AlphaEquivalenceReport { lhs: lhs@, rhs: rhs@, status: status@ },
        TypeKind::SubstitutionReport { variable, status } => TypeKindV::SubstitutionReport { variable: variable@, status: status@ },
        TypeKind::FunctionType { domain, codomain } => TypeKindV::FunctionType { domain: domain@, codomain: codomain@ },
        TypeKind::LambdaTerm { parameter, domain, body } => TypeKindV::LambdaTerm { parameter: parameter@, domain: domain@, body: body@ },
        TypeKind::ApplicationTerm { function, argument, result, status } => TypeKindV::ApplicationTerm { function: function@, argument: argument@, result: result@, status: status@ },
        TypeKind::FunctionContract { name, status } => TypeKindV::FunctionContract { name: name@, status: status@ },
        TypeKind::ProductType { lhs, rhs } => TypeKindV::ProductType { lhs: lhs@, rhs: rhs@ },
        TypeKind::ProductTerm { lhs, rhs, product_type } => TypeKindV::ProductTerm { lhs: lhs@, rhs: rhs@, product_type: product_type@ },
        TypeKind::SumType { left, right } => TypeKindV::SumType { left: left@, right: right@ },
        TypeKind::SumInjection { side, value, sum_type } => TypeKindV::SumInjection { side: side@, value: value@, sum_type: sum_type@ },
        TypeKind::RecordType { name, fields } => TypeKindV::RecordType { name: name@, fields: fields@ },
        TypeKind::RecordTerm { name, fields } => TypeKindV::RecordTerm { name: name@, fields: fields@ },
        TypeKind::RecordProjection { record, field, result } => TypeKindV::RecordProjection { record: record@, field: field@, result: result@ },
        TypeKind::ProductElimination { product_type, lhs, rhs } => TypeKindV::ProductElimination { product_type: product_type@, lhs: lhs@, rhs: rhs@ },
        TypeKind::SumElimination { sum_type, side, result } => TypeKindV::SumElimination { sum_type: sum_type@, side: side@, result: result@ },
        TypeKind::RecordPattern { record, fields } => TypeKindV::RecordPattern { record: record@, fields: fields@ },
        TypeKind::OptionType { item } => TypeKindV::OptionType { item: item@ },
        TypeKind::OptionValue { kind, item } => TypeKindV::OptionValue { kind: kind@, item: item@ },
        TypeKind::ResultType { ok, err } => TypeKindV::ResultType { ok: ok@, err: err@ },
        TypeKind::ResultValue { kind, value, result_type } => TypeKindV::ResultValue { kind: kind@, value: value@, result_type: result_type@ },
        TypeKind::PartialityReport { subject, status } => TypeKindV::PartialityReport { subject: subject@, status: status@ },
        TypeKind::ListType { item } => TypeKindV::ListType { item: item@ },
        TypeKind::ListValue { item, len } => TypeKindV::ListValue { item: item@, len: len },
        TypeKind::SequenceType { item } => TypeKindV::SequenceType { item: item@ },
        TypeKind::SequenceValue { item, len } => TypeKindV::SequenceValue { item: item@, len: len },
        TypeKind::SequenceIndex { sequence, index, status } => TypeKindV::SequenceIndex { sequence: sequence@, index: index, status: status@ },
        TypeKind::MapTraversal { source, function, result } => TypeKindV::MapTraversal { source: source@, function: function@, result: result@ },
        TypeKind::FoldTraversal { source, step, result, fuel } => TypeKindV::FoldTraversal { source: source@, step: step@, result: result@, fuel: fuel },
        TypeKind::TraversalReport { subject, status } => TypeKindV::TraversalReport { subject: subject@, status: status@ },
        TypeKind::RecursionScheme { name, measure, status } => TypeKindV::RecursionScheme { name: name@, measure: measure@, status: status@ },
        TypeKind::RecursiveCall { scheme, status, fuel_after } => TypeKindV::RecursiveCall { scheme: scheme@, status: status@, fuel_after: fuel_after },
        TypeKind::RecursionReport { subject, status } => TypeKindV::RecursionReport { subject: subject@, status: status@ },
        TypeKind::ComputationBudget { name, status } => TypeKindV::ComputationBudget { name: name@, status: status@ },
        TypeKind::TerminationBudgetReport { subject, status } => TypeKindV::TerminationBudgetReport { subject: subject@, status: status@ },
        TypeKind::StandardPreludeContract { name, operation, status } => TypeKindV::StandardPreludeContract { name: name@, operation: operation@, status: status@ },
        TypeKind::PreludeEvaluationReport { name, operation, status } => TypeKindV::PreludeEvaluationReport { name: name@, operation: operation@, status: status@ },
        TypeKind::PreludeLoweringReport { name, target, status } => TypeKindV::PreludeLoweringReport { name: name@, target: target@, status: status@ },
        TypeKind::BackendCapabilityContract { name, target, status } => TypeKindV::BackendCapabilityContract { name: name@, target: target@, status: status@ },
        TypeKind::BackendLoweringReport { name, target, status } => TypeKindV::BackendLoweringReport { name: name@, target: target@, status: status@ },
        TypeKind::ConsistencyClaim { theory } => TypeKindV::ConsistencyClaim { theory: theory@ },
        TypeKind::ProofTerm { rule } => TypeKindV::ProofTerm { rule: rule@ },
        TypeKind::Term { of_theory, of_type } => TypeKindV::Term { of_theory: of_theory@, of_type: of_type@ },
        TypeKind::Node { arch } => TypeKindV::Node { arch: arch },
        TypeKind::GpuDevice { backend } => TypeKindV::GpuDevice { backend: backend },
        TypeKind::GpuPool => TypeKindV::GpuPool,
        TypeKind::VirtualCluster => TypeKindV::VirtualCluster,
        TypeKind::DistributedMemory { memory_mib } => TypeKindV::DistributedMemory { memory_mib: memory_mib },
        TypeKind::DistributedGpuMemory { memory_mib } => TypeKindV::DistributedGpuMemory { memory_mib: memory_mib },
        TypeKind::GpuValue { inner } => TypeKindV::GpuValue { inner: Box::new(kind_model(*inner)) },
        TypeKind::GpuKernel { inner } => TypeKindV::GpuKernel { inner: Box::new(kind_model(*inner)) },
        TypeKind::MemoryCheckpoint { memory_mib } => TypeKindV::MemoryCheckpoint { memory_mib: memory_mib },
        TypeKind::RemoteCheckpoint { inner, source_arch } => TypeKindV::RemoteCheckpoint { inner: Box::new(kind_model(*inner)), source_arch: source_arch },
        TypeKind::PortableCode { inner } => TypeKindV::PortableCode { inner: Box::new(kind_model(*inner)) },
        TypeKind::Remote { inner, target_arch } => TypeKindV::Remote { inner: Box::new(kind_model(*inner)), target_arch: target_arch },
        TypeKind::Result(v0) => TypeKindV::Result(Box::new(kind_model(*v0))),
        TypeKind::StaticProof(v0) => TypeKindV::StaticProof(v0@),
        TypeKind::RuntimeWitness(v0) => TypeKindV::RuntimeWitness(v0@),
        TypeKind::Unknown(v0) => TypeKindV::Unknown(v0@),
    }
}

impl View for TypeKind {
    type V = TypeKindV;

    open spec fn view(&self) -> TypeKindV {
        kind_model(*self)
    }
}

/// The display text of a type, as `Display` for `TypeKind` writes it.
pub open spec fn type_text(t: TypeKindV) -> Seq<char>
    decreases t,
{
    match t {
        TypeKindV::Nat => "Nat"@,
        TypeKindV::Bool => "Bool"@,
        TypeKindV::Bytes => "Bytes"@,
        TypeKindV::Text => "Text"@,
        TypeKindV::Infinity { mode } => "Infinity<"@ + mode.display_text() + ">"@,
        TypeKindV::Universe { level } => "U"@ + dec_text(level as nat),
        TypeKindV::SetType { of_level, lives_in } => "Set<U"@ + dec_text(of_level as nat) + "->U"@ + dec_text(lives_in as nat) + ">"@,
        TypeKindV::Class { of_level } => "Class<U"@ + dec_text(of_level as nat) + ">"@,
        TypeKindV::Language { name } => "Language<"@ + name + ">"@,
        TypeKindV::Encoding { name } => "Encoding<"@ + name + ">"@,
        TypeKindV::MetaLevel { level } => "MetaLevel<M"@ + dec_text(level as nat) + ">"@,
        TypeKindV::DefinableNat { language, encoding, object_theory, bound, meta_level } => "DefinableNat<"@ + language + ","@ + encoding + ","@ + object_theory + ",bound="@ + dec_text(bound as nat) + ",M"@ + dec_text(meta_level as nat) + ">"@,
        TypeKindV::BigNat { family, parameter } => match parameter {
            Some(p) => "BigNat<"@ + family + "("@ + dec_text(p as nat) + ")>"@,
            None => "BigNat<"@ + family + ">"@,
        },
        TypeKindV::Prop { name } => "Prop<"@ + name + ">"@,
        TypeKindV::Provable { object_theory, proposition } => "Provable<"@ + object_theory + "."@ + proposition + ">"@,
        TypeKindV::TruthClaim { proposition } => "TruthClaim<"@ + proposition + ">"@,
        TypeKindV::ReflectionClaim { object_theory, proposition } => "Reflection<"@ + object_theory + "."@ + proposition + ">"@,
        TypeKindV::SelfReferenceClaim { proposition } => "SelfReference<"@ + proposition + ">"@,
        TypeKindV::Statement { proposition } => "Statement<"@ + proposition + ">"@,
        TypeKindV::Theorem { name, proposition } => "Theorem<"@ + name + ":"@ + proposition + ">"@,
        TypeKindV::Goal { proposition } => "Goal<"@ + proposition + ">"@,
        TypeKindV::Hypothesis { proposition } => "Hypothesis<"@ + proposition + ">"@,
        TypeKindV::EqProof { lhs, rhs } => "EqProof<"@ + lhs + "="@ + rhs + ">"@,
        TypeKindV::RewriteRule { name, lhs, rhs } => "RewriteRule<"@ + name + ":"@ + lhs + "->"@ + rhs + ">"@,
        TypeKindV::RewriteCertificate { from, to } => "RewriteCertificate<"@ + from + "->"@ + to + ">"@,
        TypeKindV::NatInductionScheme { proposition_family } => "InductionScheme<Nat,"@ + proposition_family + ">"@,
        TypeKindV::InductionBaseCase { proposition } => "BaseCase<"@ + proposition + ">"@,
        TypeKindV::InductionStepCase { proposition } => "StepCase<"@ + proposition + ">"@,
        TypeKindV::InductionProof { proposition } => "InductionProof<"@ + proposition + ">"@,
        TypeKindV::ModuleManifest { module } => "ModuleManifest<"@ + module + ">"@,
        TypeKindV::ImportGraph { root } => "ImportGraph<root="@ + root + ">"@,
        TypeKindV::ModuleExport { module, symbol, visibility } => "ModuleExport<"@ + module + "."@ + symbol + ":"@ + visibility + ">"@,
        TypeKindV::ModuleInterface { module } => "ModuleInterface<"@ + module + ">"@,
        TypeKindV::ModuleImportAudit { importer, provider, status } => "ModuleImportAudit<"@ + importer + "->"@ + provider + ":"@ + status + ">"@,
        TypeKindV::AxiomRegistry { theory } => "AxiomRegistry<"@ + theory + ">"@,
        TypeKindV::MetatheoryDependencyAudit { subject, status } => "MetatheoryDependencyAudit<"@ + subject + ":"@ + status + ">"@,
        TypeKindV::MetatheoryClosureReport { subject, status } => "MetatheoryClosureReport<"@ + subject + ":"@ + status + ">"@,
        TypeKindV::ConservativeExtensionAudit { base, extension, status } => "ConservativeExtensionAudit<"@ + base + "->"@ + extension + ":"@ + status + ">"@,
        TypeKindV::GlobalMetatheoryInventory { subject, status } => "GlobalMetatheoryInventory<"@ + subject + ":"@ + status + ">"@,
        TypeKindV::SoundnessBoundaryLedger { subject, status } => "SoundnessBoundaryLedger<"@ + subject + ":"@ + status + ">"@,
        TypeKindV::TrustedBaseClosure { subject, status } => "TrustedBaseClosure<"@ + subject + ":"@ + status + ">"@,
        TypeKindV::MetatheoryFoundationExit { subject, status } => "MetatheoryFoundationExit<"@ + subject + ":"@ + status + ">"@,
        TypeKindV::LogicalFormula { form } => "LogicalFormula<"@ + form + ">"@,
        TypeKindV::QuantifiedFormula { quantifier, variable, domain, body } => "QuantifiedFormula<"@ + quantifier + " "@ + variable + ":"@ + domain + ". "@ + body + ">"@,
        TypeKindV::VariableScopeReport { subject } => "VariableScopeReport<"@ + subject + ">"@,
        TypeKindV::AlphaEquivalenceReport { lhs, rhs, status } => "AlphaEquivalenceReport<"@ + lhs + "~"@ + rhs + ":"@ + status + ">"@,
        TypeKindV::SubstitutionReport { variable, status } => "SubstitutionReport<"@ + variable + ":"@ + status + ">"@,
        TypeKindV::FunctionType { domain, codomain } => "FunctionType<"@ + domain + "->"@ + codomain + ">"@,
        TypeKindV::LambdaTerm { parameter, domain, body } => "LambdaTerm<"@ + parameter + ":"@ + domain + ". "@ + body + ">"@,
        TypeKindV::ApplicationTerm { function, argument, result, status } => "ApplicationTerm<"@ + function + "("@ + argument + ")=>"@ + result + ":"@ + status + ">"@,
        TypeKindV::FunctionContract { name, status } => "FunctionContract<"@ + name + ":"@ + status + ">"@,
        TypeKindV::ProductType { lhs, rhs } => "ProductType<"@ + lhs + "*"@ + rhs + ">"@,
        TypeKindV::ProductTerm { lhs, rhs, product_type } => "ProductTerm<("@ + lhs + ","@ + rhs + "):"@ + product_type + ">"@,
        TypeKindV::SumType { left, right } => "SumType<"@ + left + "+"@ + right + ">"@,
        TypeKindV::SumInjection { side, value, sum_type } => "SumInjection<"@ + side + ":"@ + value + ":"@ + sum_type + ">"@,
        TypeKindV::RecordType { name, fields } => "RecordType<"@ + name + "{"@ + fields + "}>"@,
        TypeKindV::RecordTerm { name, fields } => "RecordTerm<"@ + name + "{"@ + fields + "}>"@,
        TypeKindV::RecordProjection { record, field, result } => "RecordProjection<"@ + record + "."@ + field + ":"@ + result + ">"@,
        TypeKindV::ProductElimination { product_type, lhs, rhs } => "ProductElimination<"@ + product_type + "=>("@ + lhs + ","@ + rhs + ")>"@,
        TypeKindV::SumElimination { sum_type, side, result } => "SumElimination<"@ + sum_type + ":"@ + side + "=>"@ + result + ">"@,
        TypeKindV::RecordPattern { record, fields } => "RecordPattern<"@ + record + "{"@ + fields + "}>"@,
        TypeKindV::OptionType { item } => "OptionType<"@ + item + ">"@,
        TypeKindV::OptionValue { kind, item } => "OptionValue<"@ + kind + ":"@ + item + ">"@,
        TypeKindV::ResultType { ok, err } => "ResultType<"@ + ok + ","@ + err + ">"@,
        TypeKindV::ResultValue { kind, value, result_type } => "ResultValue<"@ + kind + ":"@ + value + ":"@ + result_type + ">"@,
        TypeKindV::PartialityReport { subject, status } => "PartialityReport<"@ + subject + ":"@ + status + ">"@,
        TypeKindV::ListType { item } => "ListType<"@ + item + ">"@,
        TypeKindV::ListValue { item, len } => "ListValue<"@ + item + ";len="@ + dec_text(len as nat) + ">"@,
        TypeKindV::SequenceType { item } => "SequenceType<"@ + item + ">"@,
        TypeKindV::SequenceValue { item, len } => "SequenceValue<"@ + item + ";len="@ + dec_text(len as nat) + ">"@,
        TypeKindV::SequenceIndex { sequence, index, status } => "SequenceIndex<"@ + sequence + "["@ + dec_text(index as nat) + "]:"@ + status + ">"@,
        TypeKindV::MapTraversal { source, function, result } => "MapTraversal<"@ + source + ":"@ + function + "=>"@ + result + ">"@,
        TypeKindV::FoldTraversal { source, step, result, fuel } => "FoldTraversal<"@ + source + ":"@ + step + "=>"@ + result + ";fuel="@ + dec_text(fuel as nat) + ">"@,
        TypeKindV::TraversalReport { subject, status } => "TraversalReport<"@ + subject + ":"@ + status + ">"@,
        TypeKindV::RecursionScheme { name, measure, status } => "RecursionScheme<"@ + name + ":"@ + measure + ":"@ + status + ">"@,
        TypeKindV::RecursiveCall { scheme, status, fuel_after } => "RecursiveCall<"@ + scheme + ":"@ + status + ";fuel_after="@ + dec_text(fuel_after as nat) + ">"@,
        TypeKindV::RecursionReport { subject, status } => "RecursionReport<"@ + subject + ":"@ + status + ">"@,
        TypeKindV::ComputationBudget { name, status } => "ComputationBudget<"@ + name + ":"@ + status + ">"@,
        TypeKindV::TerminationBudgetReport { subject, status } => "TerminationBudgetReport<"@ + subject + ":"@ + status + ">"@,
        TypeKindV::StandardPreludeContract { name, operation, status } => "StandardPreludeContract<"@ + name + ":"@ + operation + ":"@ + status + ">"@,
        TypeKindV::PreludeEvaluationReport { name, operation, status } => "PreludeEvaluationReport<"@ + name + ":"@ + operation + ":"@ + status + ">"@,
        TypeKindV::PreludeLoweringReport { name, target, status } => "PreludeLoweringReport<"@ + name + ":"@ + target + ":"@ + status + ">"@,
        TypeKindV::BackendCapabilityContract { name, target, status } => "BackendCapabilityContract<"@ + name + ":"@ + target + ":"@ + status + ">"@,
        TypeKindV::BackendLoweringReport { name, target, status } => "BackendLoweringReport<"@ + name + ":"@ + target + ":"@ + status + ">"@,
        TypeKindV::ConsistencyClaim { theory } => "Consistency<"@ + theory + ">"@,
        TypeKindV::ProofTerm { rule } => "ProofTerm<"@ + rule + ">"@,
        TypeKindV::Term { of_theory, of_type } => "Term<"@ + of_theory + "."@ + of_type + ">"@,
        TypeKindV::Node { arch } => "Node<"@ + arch.display_text() + ">"@,
        TypeKindV::GpuDevice { backend } => "GpuDevice<"@ + backend.display_text() + ">"@,
        TypeKindV::GpuPool => "GpuPool"@,
        TypeKindV::VirtualCluster => "VirtualCluster"@,
        TypeKindV::DistributedMemory { memory_mib } => match memory_mib {
            Some(v) => "DistributedMemory<"@ + dec_text(v as nat) + "MiB>"@,
            None => "DistributedMemory"@,
        },
        TypeKindV::DistributedGpuMemory { memory_mib } => match memory_mib {
            Some(v) => "DistributedGpuMemory<"@ + dec_text(v as nat) + "MiB>"@,
            None => "DistributedGpuMemory"@,
        },
        TypeKindV::GpuValue { inner } => "GpuValue<"@ + type_text(*inner) + ">"@,
        TypeKindV::GpuKernel { inner } => "GpuKernel<"@ + type_text(*inner) + ">"@,
        TypeKindV::MemoryCheckpoint { memory_mib } => match memory_mib {
            Some(v) => "MemoryCheckpoint<"@ + dec_text(v as nat) + "MiB>"@,
            None => "MemoryCheckpoint"@,
        },
        TypeKindV::RemoteCheckpoint { inner, source_arch } => "RemoteCheckpoint<"@ + type_text(*inner) + "@"@ + source_arch.display_text() + ">"@,
        TypeKindV::PortableCode { inner } => "PortableCode<"@ + type_text(*inner) + ">"@,
        TypeKindV::Remote { inner, target_arch } => "Remote<"@ + type_text(*inner) + "@"@ + target_arch.display_text() + ">"@,
        TypeKindV::Result(v0) => "Result<"@ + type_text(*v0) + ">"@,
        TypeKindV::StaticProof(v0) => "StaticProof<"@ + v0 + ">"@,
        TypeKindV::RuntimeWitness(v0) => "RuntimeWitness<"@ + v0 + ">"@,
        TypeKindV::Unknown(v0) => v0,
    }
}

impl TypeKind {
    /// A copy with the same model.
    pub fn duplicate(&self) -> (r: TypeKind)
        ensures
            r@ == self@,
        decreases self,
    {
        match self {
            TypeKind::Nat => TypeKind::Nat,
            TypeKind::Bool => TypeKind::Bool,
            TypeKind::Bytes => TypeKind::Bytes,
            TypeKind::Text => TypeKind::Text,
            TypeKind::Infinity { mode } => TypeKind::Infinity { mode: *mode },
            TypeKind::Universe { level } => TypeKind::Universe { level: *level },
            TypeKind::SetType { of_level, lives_in } => TypeKind::SetType { of_level: *of_level, lives_in: *lives_in },
            TypeKind::Class { of_level } => TypeKind::Class { of_level: *of_level },
            TypeKind::Language { name } => TypeKind::Language { name: name.clone() },
            TypeKind::Encoding { name } => TypeKind::Encoding { name: name.clone() },
            TypeKind::MetaLevel { level } => TypeKind::MetaLevel { level: *level },
            TypeKind::DefinableNat { language, encoding, object_theory, bound, meta_level } => TypeKind::DefinableNat { language: language.clone(), encoding: encoding.clone(), object_theory: object_theory.clone(), bound: *bound, meta_level: *meta_level },
            TypeKind::BigNat { family, parameter } => TypeKind::BigNat { family: family.clone(), parameter: *parameter },
            TypeKind::Prop { name } => TypeKind::Prop { name: name.clone() },
            TypeKind::Provable { object_theory, proposition } => TypeKind::Provable { object_theory: object_theory.clone(), proposition: proposition.clone() },
            TypeKind::TruthClaim { proposition } => TypeKind::TruthClaim { proposition: proposition.clone() },
            TypeKind::ReflectionClaim { object_theory, proposition } => TypeKind::ReflectionClaim { object_theory: object_theory.clone(), proposition: proposition.clone() },
            TypeKind::SelfReferenceClaim { proposition } => TypeKind::SelfReferenceClaim { proposition: proposition.clone() },
            TypeKind::Statement { proposition } => TypeKind::Statement { proposition: proposition.clone() },
            TypeKind::Theorem { name, proposition } => TypeKind::Theorem { name: name.clone(), proposition: proposition.clone() },
            TypeKind::Goal { proposition } => TypeKind::Goal { proposition: proposition.clone() },
            TypeKind::Hypothesis { proposition } => TypeKind::Hypothesis { proposition: proposition.clone() },
            TypeKind::EqProof { lhs, rhs } => TypeKind::EqProof { lhs: lhs.clone(), rhs: rhs.clone() },
            TypeKind::RewriteRule { name, lhs, rhs } => TypeKind::RewriteRule { name: name.clone(), lhs: lhs.clone(), rhs: rhs.clone() },
            TypeKind::RewriteCertificate { from, to } => TypeKind::RewriteCertificate { from: from.clone(), to: to.clone() },
            TypeKind::NatInductionScheme { proposition_family } => TypeKind::NatInductionScheme { proposition_family: proposition_family.clone() },
            TypeKind::InductionBaseCase { proposition } => TypeKind::InductionBaseCase { proposition: proposition.clone() },
            TypeKind::InductionStepCase { proposition } => TypeKind::InductionStepCase { proposition: proposition.clone() },
            TypeKind::InductionProof { proposition } => TypeKind::InductionProof { proposition: proposition.clone() },
            TypeKind::ModuleManifest { module } => TypeKind::ModuleManifest { module: module.clone() },
            TypeKind::ImportGraph { root } => TypeKind::ImportGraph { root: root.clone() },
            TypeKind::ModuleExport { module, symbol, visibility } => TypeKind::ModuleExport { module: module.clone(), symbol: symbol.clone(), visibility: visibility.clone() },
            TypeKind::ModuleInterface { module } => TypeKind::ModuleInterface { module: module.clone() },
            TypeKind::ModuleImportAudit { importer, provider, status } => TypeKind::ModuleImportAudit { importer: importer.clone(), provider: provider.clone(), status: status.clone() },
            TypeKind::AxiomRegistry { theory } => TypeKind::AxiomRegistry { theory: theory.clone() },
            TypeKind::MetatheoryDependencyAudit { subject, status } => TypeKind::MetatheoryDependencyAudit { subject: subject.clone(), status: status.clone() },
            TypeKind::MetatheoryClosureReport { subject, status } => TypeKind::MetatheoryClosureReport { subject: subject.clone(), status: status.clone() },
            TypeKind::ConservativeExtensionAudit { base, extension, status } => TypeKind::ConservativeExtensionAudit { base: base.clone(), extension: extension.clone(), status: status.clone() },
            TypeKind::GlobalMetatheoryInventory { subject, status } => TypeKind::GlobalMetatheoryInventory { subject: subject.clone(), status: status.clone() },
            TypeKind::SoundnessBoundaryLedger { subject, status } => TypeKind::SoundnessBoundaryLedger { subject: subject.clone(), status: status.clone() },
            TypeKind::TrustedBaseClosure { subject, status } => TypeKind::TrustedBaseClosure { subject: subject.clone(), status: status.clone() },
            TypeKind::MetatheoryFoundationExit { subject, status } => TypeKind::MetatheoryFoundationExit { subject: subject.clone(), status: status.clone() },
            TypeKind::LogicalFormula { form } => TypeKind::LogicalFormula { form: form.clone() },
            TypeKind::QuantifiedFormula { quantifier, variable, domain, body } => TypeKind::QuantifiedFormula { quantifier: quantifier.clone(), variable: variable.clone(), domain: domain.clone(), body: body.clone() },
            TypeKind::VariableScopeReport { subject } => TypeKind::VariableScopeReport { subject: subject.clone() },
            TypeKind::AlphaEquivalenceReport { lhs, rhs, status } => TypeKind::AlphaEquivalenceReport { lhs: lhs.clone(), rhs: rhs.clone(), status: status.clone() },
            TypeKind::SubstitutionReport { variable, status } => TypeKind::SubstitutionReport { variable: variable.clone(), status: status.clone() },
            TypeKind::FunctionType { domain, codomain } => TypeKind::FunctionType { domain: domain.clone(), codomain: codomain.clone() },
            TypeKind::LambdaTerm { parameter, domain, body } => TypeKind::LambdaTerm { parameter: parameter.clone(), domain: domain.clone(), body: body.clone() },
            TypeKind::ApplicationTerm { function, argument, result, status } => TypeKind::ApplicationTerm { function: function.clone(), argument: argument.clone(), result: result.clone(), status: status.clone() },
            TypeKind::FunctionContract { name, status } => TypeKind::FunctionContract { name: name.clone(), status: status.clone() },
            TypeKind::ProductType { lhs, rhs } => TypeKind::ProductType { lhs: lhs.clone(), rhs: rhs.clone() },
            TypeKind::ProductTerm { lhs, rhs, product_type } => TypeKind::ProductTerm { lhs: lhs.clone(), rhs: rhs.clone(), product_type: product_type.clone() },
            TypeKind::SumType { left, right } => TypeKind::SumType { left: left.clone(), right: right.clone() },
            TypeKind::SumInjection { side, value, sum_type } => TypeKind::SumInjection { side: side.clone(), value: value.clone(), sum_type: sum_type.clone() },
            TypeKind::RecordType { name, fields } => TypeKind::RecordType { name: name.clone(), fields: fields.clone() },
            TypeKind::RecordTerm { name, fields } => TypeKind::RecordTerm { name: name.clone(), fields: fields.clone() },
            TypeKind::RecordProjection { record, field, result } => TypeKind::RecordProjection { record: record.clone(), field: field.clone(), result: result.clone() },
            TypeKind::ProductElimination { product_type, lhs, rhs } => TypeKind::ProductElimination { product_type: product_type.clone(), lhs: lhs.clone(), rhs: rhs.clone() },
            TypeKind::SumElimination { sum_type, side, result } => TypeKind::SumElimination { sum_type: sum_type.clone(), side: side.clone(), result: result.clone() },
            TypeKind::RecordPattern { record, fields } => TypeKind::RecordPattern { record: record.clone(), fields: fields.clone() },
            TypeKind::OptionType { item } => TypeKind::OptionType { item: item.clone() },
            TypeKind::OptionValue { kind, item } => TypeKind::OptionValue { kind: kind.clone(), item: item.clone() },
            TypeKind::ResultType { ok, err } => TypeKind::ResultType { ok: ok.clone(), err: err.clone() },
            TypeKind::ResultValue { kind, value, result_type } => TypeKind::ResultValue { kind: kind.clone(), value: value.clone(), result_type: result_type.clone() },
            TypeKind::PartialityReport { subject, status } => TypeKind::PartialityReport { subject: subject.clone(), status: status.clone() },
            TypeKind::ListType { item } => TypeKind::ListType { item: item.clone() },
            TypeKind::ListValue { item, len } => TypeKind::ListValue { item: item.clone(), len: *len },
            TypeKind::SequenceType { item } => TypeKind::SequenceType { item: item.clone() },
            TypeKind::SequenceValue { item, len } => TypeKind::SequenceValue { item: item.clone(), len: *len },
            TypeKind::SequenceIndex { sequence, index, status } => TypeKind::SequenceIndex { sequence: sequence.clone(), index: *index, status: status.clone() },
            TypeKind::MapTraversal { source, function, result } => TypeKind::MapTraversal { source: source.clone(), function: function.clone(), result: result.clone() },
            TypeKind::FoldTraversal { source, step, result, fuel } => TypeKind::FoldTraversal { source: source.clone(), step: step.clone(), result: result.clone(), fuel: *fuel },
            TypeKind::TraversalReport { subject, status } => TypeKind::TraversalReport { subject: subject.clone(), status: status.clone() },
            TypeKind::RecursionScheme { name, measure, status } => TypeKind::RecursionScheme { name: name.clone(), measure: measure.clone(), status: status.clone() },
            TypeKind::RecursiveCall { scheme, status, fuel_after } => TypeKind::RecursiveCall { scheme: scheme.clone(), status: status.clone(), fuel_after: *fuel_after },
            TypeKind::RecursionReport { subject, status } => TypeKind::RecursionReport { subject: subject.clone(), status: status.clone() },
            TypeKind::ComputationBudget { name, status } => TypeKind::ComputationBudget { name: name.clone(), status: status.clone() },
            TypeKind::TerminationBudgetReport { subject, status } => TypeKind::TerminationBudgetReport { subject: subject.clone(), status: status.clone() },
            TypeKind::StandardPreludeContract { name, operation, status } => TypeKind::StandardPreludeContract { name: name.clone(), operation: operation.clone(), status: status.clone() },
            TypeKind::PreludeEvaluationReport { name, operation, status } => TypeKind::PreludeEvaluationReport { name: name.clone(), operation: operation.clone(), status: status.clone() },
            TypeKind::PreludeLoweringReport { name, target, status } => TypeKind::PreludeLoweringReport { name: name.clone(), target: target.clone(), status: status.clone() },
            TypeKind::BackendCapabilityContract { name, target, status } => TypeKind::BackendCapabilityContract { name: name.clone(), target: target.clone(), status: status.clone() },
            TypeKind::BackendLoweringReport { name, target, status } => TypeKind::BackendLoweringReport { name: name.clone(), target: target.clone(), status: status.clone() },
            TypeKind::ConsistencyClaim { theory } => TypeKind::ConsistencyClaim { theory: theory.clone() },
            TypeKind::ProofTerm { rule } => TypeKind::ProofTerm { rule: rule.clone() },
            TypeKind::Term { of_theory, of_type } => TypeKind::Term { of_theory: of_theory.clone(), of_type: of_type.clone() },
            TypeKind::Node { arch } => TypeKind::Node { arch: *arch },
            TypeKind::GpuDevice { backend } => TypeKind::GpuDevice { backend: *backend },
            TypeKind::GpuPool => TypeKind::GpuPool,
            TypeKind::VirtualCluster => TypeKind::VirtualCluster,
            TypeKind::DistributedMemory { memory_mib } => TypeKind::DistributedMemory { memory_mib: *memory_mib },
            TypeKind::DistributedGpuMemory { memory_mib } => TypeKind::DistributedGpuMemory { memory_mib: *memory_mib },
            TypeKind::GpuValue { inner } => TypeKind::GpuValue { inner: Box::new(inner.duplicate()) },
            TypeKind::GpuKernel { inner } => TypeKind::GpuKernel { inner: Box::new(inner.duplicate()) },
            TypeKind::MemoryCheckpoint { memory_mib } => TypeKind::MemoryCheckpoint { memory_mib: *memory_mib },
            TypeKind::RemoteCheckpoint { inner, source_arch } => TypeKind::RemoteCheckpoint { inner: Box::new(inner.duplicate()), source_arch: *source_arch },
            TypeKind::PortableCode { inner } => TypeKind::PortableCode { inner: Box::new(inner.duplicate()) },
            TypeKind::Remote { inner, target_arch } => TypeKind::Remote { inner: Box::new(inner.duplicate()), target_arch: *target_arch },
            TypeKind::Result(v0) => TypeKind::Result(Box::new(v0.duplicate())),
            TypeKind::StaticProof(v0) => TypeKind::StaticProof(v0.clone()),
            TypeKind::RuntimeWitness(v0) => TypeKind::RuntimeWitness(v0.clone()),
            TypeKind::Unknown(v0) => TypeKind::Unknown(v0.clone()),
        }
    }

    /// Display text of the type.
    pub fn to_text(&self) -> (r: String)
        ensures
            r@ == type_text(self@),
        decreases self,
    {
        match self {
            TypeKind::Nat => {
                let mut s = String::from_str("Nat");
                s
            },
            TypeKind::Bool => {
                let mut s = String::from_str("Bool");
                s
            },
            TypeKind::Bytes => {
                let mut s = String::from_str("Bytes");
                s
            },
            TypeKind::Text => {
                let mut s = String::from_str("Text");
                s
            },
            TypeKind::Infinity { mode } => {
                let mut s = String::from_str("Infinity<");
                s.append(mode.display_str());
                s.append(">");
                s
            },
            TypeKind::Universe { level } => {
                let mut s = String::from_str("U");
                s.append(u8_text(*level).as_str());
                s
            },
            TypeKind::SetType { of_level, lives_in } => {
                let mut s = String::from_str("Set<U");
                s.append(u8_text(*of_level).as_str());
                s.append("->U");
                s.append(u8_text(*lives_in).as_str());
                s.append(">");
                s
            },
            TypeKind::Class { of_level } => {
                let mut s = String::from_str("Class<U");
                s.append(u8_text(*of_level).as_str());
                s.append(">");
                s
            },
            TypeKind::Language { name } => {
                let mut s = String::from_str("Language<");
                s.append(name.as_str());
                s.append(">");
                s
            },
            TypeKind::Encoding { name } => {
                let mut s = String::from_str("Encoding<");
                s.append(name.as_str());
                s.append(">");
                s
            },
            TypeKind::MetaLevel { level } => {
                let mut s = String::from_str("MetaLevel<M");
                s.append(u8_text(*level).as_str());
                s.append(">");
                s
            },
            TypeKind::DefinableNat { language, encoding, object_theory, bound, meta_level } => {
                let mut s = String::from_str("DefinableNat<");
                s.append(language.as_str());
                s.append(",");
                s.append(encoding.as_str());
                s.append(",");
                s.append(object_theory.as_str());
                s.append(",bound=");
                s.append(u128_text(*bound).as_str());
                s.append(",M");
                s.append(u8_text(*meta_level).as_str());
                s.append(">");
                s
            },
            TypeKind::BigNat { family, parameter } => {
                let mut s = String::from_str("BigNat<");
                s.append(family.as_str());
                match parameter {
                    Some(p) => {
                        s.append("(");
                        s.append(u128_text(*p).as_str());
                        s.append(")>");
                    },
                    None => {
                        s.append(">");
                    },
                }
                s
            },
            TypeKind::Prop { name } => {
                let mut s = String::from_str("Prop<");
                s.append(name.as_str());
                s.append(">");
                s
            },
            TypeKind::Provable { object_theory, proposition } => {
                let mut s = String::from_str("Provable<");
                s.append(object_theory.as_str());
                s.append(".");
                s.append(proposition.as_str());
                s.append(">");
                s
            },
            TypeKind::TruthClaim { proposition } => {
                let mut s = String::from_str("TruthClaim<");
                s.append(proposition.as_str());
                s.append(">");
                s
            },
            TypeKind::ReflectionClaim { object_theory, proposition } => {
                let mut s = String::from_str("Reflection<");
                s.append(object_theory.as_str());
                s.append(".");
                s.append(proposition.as_str());
                s.append(">");
                s
            },
            TypeKind::SelfReferenceClaim { proposition } => {
                let mut s = String::from_str("SelfReference<");
                s.append(proposition.as_str());
                s.append(">");
                s
            },
            TypeKind::Statement { proposition } => {
                let mut s = String::from_str("Statement<");
                s.append(proposition.as_str());
                s.append(">");
                s
            },
            TypeKind::Theorem { name, proposition } => {
                let mut s = String::from_str("Theorem<");
                s.append(name.as_str());
                s.append(":");
                s.append(proposition.as_str());
                s.append(">");
                s
            },
            TypeKind::Goal { proposition } => {
                let mut s = String::from_str("Goal<");
                s.append(proposition.as_str());
                s.append(">");
                s
            },
            TypeKind::Hypothesis { proposition } => {
                let mut s = String::from_str("Hypothesis<");
                s.append(proposition.as_str());
                s.append(">");
                s
            },
            TypeKind::EqProof { lhs, rhs } => {
                let mut s = String::from_str("EqProof<");
                s.append(lhs.as_str());
                s.append("=");
                s.append(rhs.as_str());
                s.append(">");
                s
            },
            TypeKind::RewriteRule { name, lhs, rhs } => {
                let mut s = String::from_str("RewriteRule<");
                s.append(name.as_str());
                s.append(":");
                s.append(lhs.as_str());
                s.append("->");
                s.append(rhs.as_str());
                s.append(">");
                s
            },
            TypeKind::RewriteCertificate { from, to } => {
                let mut s = String::from_str("RewriteCertificate<");
                s.append(from.as_str());
                s.append("->");
                s.append(to.as_str());
                s.append(">");
                s
            },
            TypeKind::NatInductionScheme { proposition_family } => {
                let mut s = String::from_str("InductionScheme<Nat,");
                s.append(proposition_family.as_str());
                s.append(">");
                s
            },
            TypeKind::InductionBaseCase { proposition } => {
                let mut s = String::from_str("BaseCase<");
                s.append(proposition.as_str());
                s.append(">");
                s
            },
            TypeKind::InductionStepCase { proposition } => {
                let mut s = String::from_str("StepCase<");
                s.append(proposition.as_str());
                s.append(">");
                s
            },
            TypeKind::InductionProof { proposition } => {
                let mut s = String::from_str("InductionProof<");
                s.append(proposition.as_str());
                s.append(">");
                s
            },
            TypeKind::ModuleManifest { module } => {
                let mut s = String::from_str("ModuleManifest<");
                s.append(module.as_str());
                s.append(">");
                s
            },
            TypeKind::ImportGraph { root } => {
                let mut s = String::from_str("ImportGraph<root=");
                s.append(root.as_str());
                s.append(">");
                s
            },
            TypeKind::ModuleExport { module, symbol, visibility } => {
                let mut s = String::from_str("ModuleExport<");
                s.append(module.as_str());
                s.append(".");
                s.append(symbol.as_str());
                s.append(":");
                s.append(visibility.as_str());
                s.append(">");
                s
            },
            TypeKind::ModuleInterface { module } => {
                let mut s = String::from_str("ModuleInterface<");
                s.append(module.as_str());
                s.append(">");
                s
            },
            TypeKind::ModuleImportAudit { importer, provider, status } => {
                let mut s = String::from_str("ModuleImportAudit<");
                s.append(importer.as_str());
                s.append("->");
                s.append(provider.as_str());
                s.append(":");
                s.append(status.as_str());
                s.append(">");
                s
            },
            TypeKind::AxiomRegistry { theory } => {
                let mut s = String::from_str("AxiomRegistry<");
                s.append(theory.as_str());
                s.append(">");
                s
            },
            TypeKind::MetatheoryDependencyAudit { subject, status } => {
                let mut s = String::from_str("MetatheoryDependencyAudit<");
                s.append(subject.as_str());
                s.append(":");
                s.append(status.as_str());
                s.append(">");
                s
            },
            TypeKind::MetatheoryClosureReport { subject, status } => {
                let mut s = String::from_str("MetatheoryClosureReport<");
                s.append(subject.as_str());
                s.append(":");
                s.append(status.as_str());
                s.append(">");
                s
            },
            TypeKind::ConservativeExtensionAudit { base, extension, status } => {
                let mut s = String::from_str("ConservativeExtensionAudit<");
                s.append(base.as_str());
                s.append("->");
                s.append(extension.as_str());
                s.append(":");
                s.append(status.as_str());
                s.append(">");
                s
            },
            TypeKind::GlobalMetatheoryInventory { subject, status } => {
                let mut s = String::from_str("GlobalMetatheoryInventory<");
                s.append(subject.as_str());
                s.append(":");
                s.append(status.as_str());
                s.append(">");
                s
            },
            TypeKind::SoundnessBoundaryLedger { subject, status } => {
                let mut s = String::from_str("SoundnessBoundaryLedger<");
                s.append(subject.as_str());
                s.append(":");
                s.append(status.as_str());
                s.append(">");
                s
            },
            TypeKind::TrustedBaseClosure { subject, status } => {
                let mut s = String::from_str("TrustedBaseClosure<");
                s.append(subject.as_str());
                s.append(":");
                s.append(status.as_str());
                s.append(">");
                s
            },
            TypeKind::MetatheoryFoundationExit { subject, status } => {
                let mut s = String::from_str("MetatheoryFoundationExit<");
                s.append(subject.as_str());
                s.append(":");
                s.append(status.as_str());
                s.append(">");
                s
            },
            TypeKind::LogicalFormula { form } => {
                let mut s = String::from_str("LogicalFormula<");
                s.append(form.as_str());
                s.append(">");
                s
            },
            TypeKind::QuantifiedFormula { quantifier, variable, domain, body } => {
                let mut s = String::from_str("QuantifiedFormula<");
                s.append(quantifier.as_str());
                s.append(" ");
                s.append(variable.as_str());
                s.append(":");
                s.append(domain.as_str());
                s.append(". ");
                s.append(body.as_str());
                s.append(">");
                s
            },
            TypeKind::VariableScopeReport { subject } => {
                let mut s = String::from_str("VariableScopeReport<");
                s.append(subject.as_str());
                s.append(">");
                s
            },
            TypeKind::AlphaEquivalenceReport { lhs, rhs, status } => {
                let mut s = String::from_str("AlphaEquivalenceReport<");
                s.append(lhs.as_str());
                s.append("~");
                s.append(rhs.as_str());
                s.append(":");
                s.append(status.as_str());
                s.append(">");
                s
            },
            TypeKind::SubstitutionReport { variable, status } => {
                let mut s = String::from_str("SubstitutionReport<");
                s.append(variable.as_str());
                s.append(":");
                s.append(status.as_str());
                s.append(">");
                s
            },
            TypeKind::FunctionType { domain, codomain } => {
                let mut s = String::from_str("FunctionType<");
                s.append(domain.as_str());
                s.append("->");
                s.append(codomain.as_str());
                s.append(">");
                s
            },
            TypeKind::LambdaTerm { parameter, domain, body } => {
                let mut s = String::from_str("LambdaTerm<");
                s.append(parameter.as_str());
                s.append(":");
                s.append(domain.as_str());
                s.append(". ");
                s.append(body.as_str());
                s.append(">");
                s
            },
            TypeKind::ApplicationTerm { function, argument, result, status } => {
                let mut s = String::from_str("ApplicationTerm<");
                s.append(function.as_str());
                s.append("(");
                s.append(argument.as_str());
                s.append(")=>");
                s.append(result.as_str());
                s.append(":");
                s.append(status.as_str());
                s.append(">");
                s
            },
            TypeKind::FunctionContract { name, status } => {
                let mut s = String::from_str("FunctionContract<");
                s.append(name.as_str());
                s.append(":");
                s.append(status.as_str());
                s.append(">");
                s
            },
            TypeKind::ProductType { lhs, rhs } => {
                let mut s = String::from_str("ProductType<");
                s.append(lhs.as_str());
                s.append("*");
                s.append(rhs.as_str());
                s.append(">");
                s
            },
            TypeKind::ProductTerm { lhs, rhs, product_type } => {
                let mut s = String::from_str("ProductTerm<(");
                s.append(lhs.as_str());
                s.append(",");
                s.append(rhs.as_str());
                s.append("):");
                s.append(product_type.as_str());
                s.append(">");
                s
            },
            TypeKind::SumType { left, right } => {
                let mut s = String::from_str("SumType<");
                s.append(left.as_str());
                s.append("+");
                s.append(right.as_str());
                s.append(">");
                s
            },
            TypeKind::SumInjection { side, value, sum_type } => {
                let mut s = String::from_str("SumInjection<");
                s.append(side.as_str());
                s.append(":");
                s.append(value.as_str());
                s.append(":");
                s.append(sum_type.as_str());
                s.append(">");
                s
            },
            TypeKind::RecordType { name, fields } => {
                let mut s = String::from_str("RecordType<");
                s.append(name.as_str());
                s.append("{");
                s.append(fields.as_str());
                s.append("}>");
                s
            },
            TypeKind::RecordTerm { name, fields } => {
                let mut s = String::from_str("RecordTerm<");
                s.append(name.as_str());
                s.append("{");
                s.append(fields.as_str());
                s.append("}>");
                s
            },
            TypeKind::RecordProjection { record, field, result } => {
                let mut s = String::from_str("RecordProjection<");
                s.append(record.as_str());
                s.append(".");
                s.append(field.as_str());
                s.append(":");
                s.append(result.as_str());
                s.append(">");
                s
            },
            TypeKind::ProductElimination { product_type, lhs, rhs } => {
                let mut s = String::from_str("ProductElimination<");
                s.append(product_type.as_str());
                s.append("=>(");
                s.append(lhs.as_str());
                s.append(",");
                s.append(rhs.as_str());
                s.append(")>");
                s
            },
            TypeKind::SumElimination { sum_type, side, result } => {
                let mut s = String::from_str("SumElimination<");
                s.append(sum_type.as_str());
                s.append(":");
                s.append(side.as_str());
                s.append("=>");
                s.append(result.as_str());
                s.append(">");
                s
            },
            TypeKind::RecordPattern { record, fields } => {
                let mut s = String::from_str("RecordPattern<");
                s.append(record.as_str());
                s.append("{");
                s.append(fields.as_str());
                s.append("}>");
                s
            },
            TypeKind::OptionType { item } => {
                let mut s = String::from_str("OptionType<");
                s.append(item.as_str());
                s.append(">");
                s
            },
            TypeKind::OptionValue { kind, item } => {
                let mut s = String::from_str("OptionValue<");
                s.append(kind.as_str());
                s.append(":");
                s.append(item.as_str());
                s.append(">");
                s
            },
            TypeKind::ResultType { ok, err } => {
                let mut s = String::from_str("ResultType<");
                s.append(ok.as_str());
                s.append(",");
                s.append(err.as_str());
                s.append(">");
                s
            },
            TypeKind::ResultValue { kind, value, result_type } => {
                let mut s = String::from_str("ResultValue<");
                s.append(kind.as_str());
                s.append(":");
                s.append(value.as_str());
                s.append(":");
                s.append(result_type.as_str());
                s.append(">");
                s
            },
            TypeKind::PartialityReport { subject, status } => {
                let mut s = String::from_str("PartialityReport<");
                s.append(subject.as_str());
                s.append(":");
                s.append(status.as_str());
                s.append(">");
                s
            },
            TypeKind::ListType { item } => {
                let mut s = String::from_str("ListType<");
                s.append(item.as_str());
                s.append(">");
                s
            },
            TypeKind::ListValue { item, len } => {
                let mut s = String::from_str("ListValue<");
                s.append(item.as_str());
                s.append(";len=");
                s.append(usize_text(*len).as_str());
                s.append(">");
                s
            },
            TypeKind::SequenceType { item } => {
                let mut s = String::from_str("SequenceType<");
                s.append(item.as_str());
                s.append(">");
                s
            },
            TypeKind::SequenceValue { item, len } => {
                let mut s = String::from_str("SequenceValue<");
                s.append(item.as_str());
                s.append(";len=");
                s.append(usize_text(*len).as_str());
                s.append(">");
                s
            },
            TypeKind::SequenceIndex { sequence, index, status } => {
                let mut s = String::from_str("SequenceIndex<");
                s.append(sequence.as_str());
                s.append("[");
                s.append(usize_text(*index).as_str());
                s.append("]:");
                s.append(status.as_str());
                s.append(">");
                s
            },
            TypeKind::MapTraversal { source, function, result } => {
                let mut s = String::from_str("MapTraversal<");
                s.append(source.as_str());
                s.append(":");
                s.append(function.as_str());
                s.append("=>");
                s.append(result.as_str());
                s.append(">");
                s
            },
            TypeKind::FoldTraversal { source, step, result, fuel } => {
                let mut s = String::from_str("FoldTraversal<");
                s.append(source.as_str());
                s.append(":");
                s.append(step.as_str());
                s.append("=>");
                s.append(result.as_str());
                s.append(";fuel=");
                s.append(usize_text(*fuel).as_str());
                s.append(">");
                s
            },
            TypeKind::TraversalReport { subject, status } => {
                let mut s = String::from_str("TraversalReport<");
                s.append(subject.as_str());
                s.append(":");
                s.append(status.as_str());
                s.append(">");
                s
            },
            TypeKind::RecursionScheme { name, measure, status } => {
                let mut s = String::from_str("RecursionScheme<");
                s.append(name.as_str());
                s.append(":");
                s.append(measure.as_str());
                s.append(":");
                s.append(status.as_str());
                s.append(">");
                s
            },
            TypeKind::RecursiveCall { scheme, status, fuel_after } => {
                let mut s = String::from_str("RecursiveCall<");
                s.append(scheme.as_str());
                s.append(":");
                s.append(status.as_str());
                s.append(";fuel_after=");
                s.append(usize_text(*fuel_after).as_str());
                s.append(">");
                s
            },
            TypeKind::RecursionReport { subject, status } => {
                let mut s = String::from_str("RecursionReport<");
                s.append(subject.as_str());
                s.append(":");
                s.append(status.as_str());
                s.append(">");
                s
            },
            TypeKind::ComputationBudget { name, status } => {
                let mut s = String::from_str("ComputationBudget<");
                s.append(name.as_str());
                s.append(":");
                s.append(status.as_str());
                s.append(">");
                s
            },
            TypeKind::TerminationBudgetReport { subject, status } => {
                let mut s = String::from_str("TerminationBudgetReport<");
                s.append(subject.as_str());
                s.append(":");
                s.append(status.as_str());
                s.append(">");
                s
            },
            TypeKind::StandardPreludeContract { name, operation, status } => {
                let mut s = String::from_str("StandardPreludeContract<");
                s.append(name.as_str());
                s.append(":");
                s.append(operation.as_str());
                s.append(":");
                s.append(status.as_str());
                s.append(">");
                s
            },
            TypeKind::PreludeEvaluationReport { name, operation, status } => {
                let mut s = String::from_str("PreludeEvaluationReport<");
                s.append(name.as_str());
                s.append(":");
                s.append(operation.as_str());
                s.append(":");
                s.append(status.as_str());
                s.append(">");
                s
            },
            TypeKind::PreludeLoweringReport { name, target, status } => {
                let mut s = String::from_str("PreludeLoweringReport<");
                s.append(name.as_str());
                s.append(":");
                s.append(target.as_str());
                s.append(":");
                s.append(status.as_str());
                s.append(">");
                s
            },
            TypeKind::BackendCapabilityContract { name, target, status } => {
                let mut s = String::from_str("BackendCapabilityContract<");
                s.append(name.as_str());
                s.append(":");
                s.append(target.as_str());
                s.append(":");
                s.append(status.as_str());
                s.append(">");
                s
            },
            TypeKind::BackendLoweringReport { name, target, status } => {
                let mut s = String::from_str("BackendLoweringReport<");
                s.append(name.as_str());
                s.append(":");
                s.append(target.as_str());
                s.append(":");
                s.append(status.as_str());
                s.append(">");
                s
            },
            TypeKind::ConsistencyClaim { theory } => {
                let mut s = String::from_str("Consistency<");
                s.append(theory.as_str());
                s.append(">");
                s
            },
            TypeKind::ProofTerm { rule } => {
                let mut s = String::from_str("ProofTerm<");
                s.append(rule.as_str());
                s.append(">");
                s
            },
            TypeKind::Term { of_theory, of_type } => {
                let mut s = String::from_str("Term<");
                s.append(of_theory.as_str());
                s.append(".");
                s.append(of_type.as_str());
                s.append(">");
                s
            },
            TypeKind::Node { arch } => {
                let mut s = String::from_str("Node<");
                s.append(arch.display_str());
                s.append(">");
                s
            },
            TypeKind::GpuDevice { backend } => {
                let mut s = String::from_str("GpuDevice<");
                s.append(backend.display_str());
                s.append(">");
                s
            },
            TypeKind::GpuPool => {
                let mut s = String::from_str("GpuPool");
                s
            },
            TypeKind::VirtualCluster => {
                let mut s = String::from_str("VirtualCluster");
                s
            },
            TypeKind::DistributedMemory { memory_mib } => match memory_mib {
                Some(v) => {
                    let mut s = String::from_str("DistributedMemory<");
                    s.append(u128_text(*v).as_str());
                    s.append("MiB>");
                    s
                },
                None => String::from_str("DistributedMemory"),
            },
            TypeKind::DistributedGpuMemory { memory_mib } => match memory_mib {
                Some(v) => {
                    let mut s = String::from_str("DistributedGpuMemory<");
                    s.append(u128_text(*v).as_str());
                    s.append("MiB>");
                    s
                },
                None => String::from_str("DistributedGpuMemory"),
            },
            TypeKind::GpuValue { inner } => {
                let mut s = String::from_str("GpuValue<");
                s.append(inner.to_text().as_str());
                s.append(">");
                s
            },
            TypeKind::GpuKernel { inner } => {
                let mut s = String::from_str("GpuKernel<");
                s.append(inner.to_text().as_str());
                s.append(">");
                s
            },
            TypeKind::MemoryCheckpoint { memory_mib } => match memory_mib {
                Some(v) => {
                    let mut s = String::from_str("MemoryCheckpoint<");
                    s.append(u128_text(*v).as_str());
                    s.append("MiB>");
                    s
                },
                None => String::from_str("MemoryCheckpoint"),
            },
            TypeKind::RemoteCheckpoint { inner, source_arch } => {
                let mut s = String::from_str("RemoteCheckpoint<");
                s.append(inner.to_text().as_str());
                s.append("@");
                s.append(source_arch.display_str());
                s.append(">");
                s
            },
            TypeKind::PortableCode { inner } => {
                let mut s = String::from_str("PortableCode<");
                s.append(inner.to_text().as_str());
                s.append(">");
                s
            },
            TypeKind::Remote { inner, target_arch } => {
                let mut s = String::from_str("Remote<");
                s.append(inner.to_text().as_str());
                s.append("@");
                s.append(target_arch.display_str());
                s.append(">");
                s
            },
            TypeKind::Result(v0) => {
                let mut s = String::from_str("Result<");
                s.append(v0.to_text().as_str());
                s.append(">");
                s
            },
            TypeKind::StaticProof(v0) => {
                let mut s = String::from_str("StaticProof<");
                s.append(v0.as_str());
                s.append(">");
                s
            },
            TypeKind::RuntimeWitness(v0) => {
                let mut s = String::from_str("RuntimeWitness<");
                s.append(v0.as_str());
                s.append(">");
                s
            },
            TypeKind::Unknown(v0) => {
                let mut s = String::new();
                s.append(v0.as_str());
                s
            },
        }
    }
}

impl Clone for TypeKind {
    fn clone(&self) -> (r: Self)
        ensures
            r@ == self@,
    {
        self.duplicate()
    }
}

impl TypeKind {
    /// Equality of types (`==`).
    pub fn same_as(&self, other: &TypeKind) -> (r: bool)
        ensures
            r == (self@ == other@),
        decreases self,
    {
        match self {
            TypeKind::Nat => match other {
                TypeKind::Nat => true,
                _ => false,
            },
            TypeKind::Bool => match other {
                TypeKind::Bool => true,
                _ => false,
            },
            TypeKind::Bytes => match other {
                TypeKind::Bytes => true,
                _ => false,
            },
            TypeKind::Text => match other {
                TypeKind::Text => true,
                _ => false,
            },
            TypeKind::Infinity { mode: mode_a } => match other {
                TypeKind::Infinity { mode: mode_b } => *mode_a == *mode_b,
                _ => false,
            },
            TypeKind::Universe { level: level_a } => match other {
                TypeKind::Universe { level: level_b } => *level_a == *level_b,
                _ => false,
            },
            TypeKind::SetType { of_level: of_level_a, lives_in: lives_in_a } => match other {
                TypeKind::SetType { of_level: of_level_b, lives_in: lives_in_b } => *of_level_a == *of_level_b && *lives_in_a == *lives_in_b,
                _ => false,
            },
            TypeKind::Class { of_level: of_level_a } => match other {
                TypeKind::Class { of_level: of_level_b } => *of_level_a == *of_level_b,
                _ => false,
            },
            TypeKind::Language { name: name_a } => match other {
                TypeKind::Language { name: name_b } => crate::text::str_eq(name_a.as_str(), name_b.as_str()),
                _ => false,
            },
            TypeKind::Encoding { name: name_a } => match other {
                TypeKind::Encoding { name: name_b } => crate::text::str_eq(name_a.as_str(), name_b.as_str()),
                _ => false,
            },
            TypeKind::MetaLevel { level: level_a } => match other {
                TypeKind::MetaLevel { level: level_b } => *level_a == *level_b,
                _ => false,
            },
            TypeKind::DefinableNat { language: language_a, encoding: encoding_a, object_theory: object_theory_a, bound: bound_a, meta_level: meta_level_a } => match other {
                TypeKind::DefinableNat { language: language_b, encoding: encoding_b, object_theory: object_theory_b, bound: bound_b, meta_level: meta_level_b } => crate::text::str_eq(language_a.as_str(), language_b.as_str()) && crate::text::str_eq(encoding_a.as_str(), encoding_b.as_str()) && crate::text::str_eq(object_theory_a.as_str(), object_theory_b.as_str()) && *bound_a == *bound_b && *meta_level_a == *meta_level_b,
                _ => false,
            },
            TypeKind::BigNat { family: family_a, parameter: parameter_a } => match other {
                TypeKind::BigNat { family: family_b, parameter: parameter_b } => crate::text::str_eq(family_a.as_str(), family_b.as_str()) && opt_u128_eq(*parameter_a, *parameter_b),
                _ => false,
            },
            TypeKind::Prop { name: name_a } => match other {
                TypeKind::Prop { name: name_b } => crate::text::str_eq(name_a.as_str(), name_b.as_str()),
                _ => false,
            },
            TypeKind::Provable { object_theory: object_theory_a, proposition: proposition_a } => match other {
                TypeKind::Provable { object_theory: object_theory_b, proposition: proposition_b } => crate::text::str_eq(object_theory_a.as_str(), object_theory_b.as_str()) && crate::text::str_eq(proposition_a.as_str(), proposition_b.as_str()),
                _ => false,
            },
            TypeKind::TruthClaim { proposition: proposition_a } => match other {
                TypeKind::TruthClaim { proposition: proposition_b } => crate::text::str_eq(proposition_a.as_str(), proposition_b.as_str()),
                _ => false,
            },
            TypeKind::ReflectionClaim { object_theory: object_theory_a, proposition: proposition_a } => match other {
                TypeKind::ReflectionClaim { object_theory: object_theory_b, proposition: proposition_b } => crate::text::str_eq(object_theory_a.as_str(), object_theory_b.as_str()) && crate::text::str_eq(proposition_a.as_str(), proposition_b.as_str()),
                _ => false,
            },
            TypeKind::SelfReferenceClaim { proposition: proposition_a } => match other {
                TypeKind::SelfReferenceClaim { proposition: proposition_b } => crate::text::str_eq(proposition_a.as_str(), proposition_b.as_str()),
                _ => false,
            },
            TypeKind::Statement { proposition: proposition_a } => match other {
                TypeKind::Statement { proposition: proposition_b } => crate::text::str_eq(proposition_a.as_str(), proposition_b.as_str()),
                _ => false,
            },
            TypeKind::Theorem { name: name_a, proposition: proposition_a } => match other {
                TypeKind::Theorem { name: name_b, proposition: proposition_b } => crate::text::str_eq(name_a.as_str(), name_b.as_str()) && crate::text::str_eq(proposition_a.as_str(), proposition_b.as_str()),
                _ => false,
            },
            TypeKind::Goal { proposition: proposition_a } => match other {
                TypeKind::Goal { proposition: proposition_b } => crate::text::str_eq(proposition_a.as_str(), proposition_b.as_str()),
                _ => false,
            },
            TypeKind::Hypothesis { proposition: proposition_a } => match other {
                TypeKind::Hypothesis { proposition: proposition_b } => crate::text::str_eq(proposition_a.as_str(), proposition_b.as_str()),
                _ => false,
            },
            TypeKind::EqProof { lhs: lhs_a, rhs: rhs_a } => match other {
                TypeKind::EqProof { lhs: lhs_b, rhs: rhs_b } => crate::text::str_eq(lhs_a.as_str(), lhs_b.as_str()) && crate::text::str_eq(rhs_a.as_str(), rhs_b.as_str()),
                _ => false,
            },
            TypeKind::RewriteRule { name: name_a, lhs: lhs_a, rhs: rhs_a } => match other {
                TypeKind::RewriteRule { name: name_b, lhs: lhs_b, rhs: rhs_b } => crate::text::str_eq(name_a.as_str(), name_b.as_str()) && crate::text::str_eq(lhs_a.as_str(), lhs_b.as_str()) && crate::text::str_eq(rhs_a.as_str(), rhs_b.as_str()),
                _ => false,
            },
            TypeKind::RewriteCertificate { from: from_a, to: to_a } => match other {
                TypeKind::RewriteCertificate { from: from_b, to: to_b } => crate::text::str_eq(from_a.as_str(), from_b.as_str()) && crate::text::str_eq(to_a.as_str(), to_b.as_str()),
                _ => false,
            },
            TypeKind::NatInductionScheme { proposition_family: proposition_family_a } => match other {
                TypeKind::NatInductionScheme { proposition_family: proposition_family_b } => crate::text::str_eq(proposition_family_a.as_str(), proposition_family_b.as_str()),
                _ => false,
            },
            TypeKind::InductionBaseCase { proposition: proposition_a } => match other {
                TypeKind::InductionBaseCase { proposition: proposition_b } => crate::text::str_eq(proposition_a.as_str(), proposition_b.as_str()),
                _ => false,
            },
            TypeKind::InductionStepCase { proposition: proposition_a } => match other {
                TypeKind::InductionStepCase { proposition: proposition_b } => crate::text::str_eq(proposition_a.as_str(), proposition_b.as_str()),
                _ => false,
            },
            TypeKind::InductionProof { proposition: proposition_a } => match other {
                TypeKind::InductionProof { proposition: proposition_b } => crate::text::str_eq(proposition_a.as_str(), proposition_b.as_str()),
                _ => false,
            },
            TypeKind::ModuleManifest { module: module_a } => match other {
                TypeKind::ModuleManifest { module: module_b } => crate::text::str_eq(module_a.as_str(), module_b.as_str()),
                _ => false,
            },
            TypeKind::ImportGraph { root: root_a } => match other {
                TypeKind::ImportGraph { root: root_b } => crate::text::str_eq(root_a.as_str(), root_b.as_str()),
                _ => false,
            },
            TypeKind::ModuleExport { module: module_a, symbol: symbol_a, visibility: visibility_a } => match other {
                TypeKind::ModuleExport { module: module_b, symbol: symbol_b, visibility: visibility_b } => crate::text::str_eq(module_a.as_str(), module_b.as_str()) && crate::text::str_eq(symbol_a.as_str(), symbol_b.as_str()) && crate::text::str_eq(visibility_a.as_str(), visibility_b.as_str()),
                _ => false,
            },
            TypeKind::ModuleInterface { module: module_a } => match other {
                TypeKind::ModuleInterface { module: module_b } => crate::text::str_eq(module_a.as_str(), module_b.as_str()),
                _ => false,
            },
            TypeKind::ModuleImportAudit { importer: importer_a, provider: provider_a, status: status_a } => match other {
                TypeKind::ModuleImportAudit { importer: importer_b, provider: provider_b, status: status_b } => crate::text::str_eq(importer_a.as_str(), importer_b.as_str()) && crate::text::str_eq(provider_a.as_str(), provider_b.as_str()) && crate::text::str_eq(status_a.as_str(), status_b.as_str()),
                _ => false,
            },
            TypeKind::AxiomRegistry { theory: theory_a } => match other {
                TypeKind::AxiomRegistry { theory: theory_b } => crate::text::str_eq(theory_a.as_str(), theory_b.as_str()),
                _ => false,
            },
            TypeKind::MetatheoryDependencyAudit { subject: subject_a, status: status_a } => match other {
                TypeKind::MetatheoryDependencyAudit { subject: subject_b, status: status_b } => crate::text::str_eq(subject_a.as_str(), subject_b.as_str()) && crate::text::str_eq(status_a.as_str(), status_b.as_str()),
                _ => false,
            },
            TypeKind::MetatheoryClosureReport { subject: subject_a, status: status_a } => match other {
                TypeKind::MetatheoryClosureReport { subject: subject_b, status: status_b } => crate::text::str_eq(subject_a.as_str(), subject_b.as_str()) && crate::text::str_eq(status_a.as_str(), status_b.as_str()),
                _ => false,
            },
            TypeKind::ConservativeExtensionAudit { base: base_a, extension: extension_a, status: status_a } => match other {
                TypeKind::ConservativeExtensionAudit { base: base_b, extension: extension_b, status: status_b } => crate::text::str_eq(base_a.as_str(), base_b.as_str()) && crate::text::str_eq(extension_a.as_str(), extension_b.as_str()) && crate::text::str_eq(status_a.as_str(), status_b.as_str()),
                _ => false,
            },
            TypeKind::GlobalMetatheoryInventory { subject: subject_a, status: status_a } => match other {
                TypeKind::GlobalMetatheoryInventory { subject: subject_b, status: status_b } => crate::text::str_eq(subject_a.as_str(), subject_b.as_str()) && crate::text::str_eq(status_a.as_str(), status_b.as_str()),
                _ => false,
            },
            TypeKind::SoundnessBoundaryLedger { subject: subject_a, status: status_a } => match other {
                TypeKind::SoundnessBoundaryLedger { subject: subject_b, status: status_b } => crate::text::str_eq(subject_a.as_str(), subject_b.as_str()) && crate::text::str_eq(status_a.as_str(), status_b.as_str()),
                _ => false,
            },
            TypeKind::TrustedBaseClosure { subject: subject_a, status: status_a } => match other {
                TypeKind::TrustedBaseClosure { subject: subject_b, status: status_b } => crate::text::str_eq(subject_a.as_str(), subject_b.as_str()) && crate::text::str_eq(status_a.as_str(), status_b.as_str()),
                _ => false,
            },
            TypeKind::MetatheoryFoundationExit { subject: subject_a, status: status_a } => match other {
                TypeKind::MetatheoryFoundationExit { subject: subject_b, status: status_b } => crate::text::str_eq(subject_a.as_str(), subject_b.as_str()) && crate::text::str_eq(status_a.as_str(), status_b.as_str()),
                _ => false,
            },
            TypeKind::LogicalFormula { form: form_a } => match other {
                TypeKind::LogicalFormula { form: form_b } => crate::text::str_eq(form_a.as_str(), form_b.as_str()),
                _ => false,
            },
            TypeKind::QuantifiedFormula { quantifier: quantifier_a, variable: variable_a, domain: domain_a, body: body_a } => match other {
                TypeKind::QuantifiedFormula { quantifier: quantifier_b, variable: variable_b, domain: domain_b, body: body_b } => crate::text::str_eq(quantifier_a.as_str(), quantifier_b.as_str()) && crate::text::str_eq(variable_a.as_str(), variable_b.as_str()) && crate::text::str_eq(domain_a.as_str(), domain_b.as_str()) && crate::text::str_eq(body_a.as_str(), body_b.as_str()),
                _ => false,
            },
            TypeKind::VariableScopeReport { subject: subject_a } => match other {
                TypeKind::VariableScopeReport { subject: subject_b } => crate::text::str_eq(subject_a.as_str(), subject_b.as_str()),
                _ => false,
            },
            TypeKind::AlphaEquivalenceReport { lhs: lhs_a, rhs: rhs_a, status: status_a } => match other {
                TypeKind::AlphaEquivalenceReport { lhs: lhs_b, rhs: rhs_b, status: status_b } => crate::text::str_eq(lhs_a.as_str(), lhs_b.as_str()) && crate::text::str_eq(rhs_a.as_str(), rhs_b.as_str()) && crate::text::str_eq(status_a.as_str(), status_b.as_str()),
                _ => false,
            },
            TypeKind::SubstitutionReport { variable: variable_a, status: status_a } => match other {
                TypeKind::SubstitutionReport { variable: variable_b, status: status_b } => crate::text::str_eq(variable_a.as_str(), variable_b.as_str()) && crate::text::str_eq(status_a.as_str(), status_b.as_str()),
                _ => false,
            },
            TypeKind::FunctionType { domain: domain_a, codomain: codomain_a } => match other {
                TypeKind::FunctionType { domain: domain_b, codomain: codomain_b } => crate::text::str_eq(domain_a.as_str(), domain_b.as_str()) && crate::text::str_eq(codomain_a.as_str(), codomain_b.as_str()),
                _ => false,
            },
            TypeKind::LambdaTerm { parameter: parameter_a, domain: domain_a, body: body_a } => match other {
                TypeKind::LambdaTerm { parameter: parameter_b, domain: domain_b, body: body_b } => crate::text::str_eq(parameter_a.as_str(), parameter_b.as_str()) && crate::text::str_eq(domain_a.as_str(), domain_b.as_str()) && crate::text::str_eq(body_a.as_str(), body_b.as_str()),
                _ => false,
            },
            TypeKind::ApplicationTerm { function: function_a, argument: argument_a, result: result_a, status: status_a } => match other {
                TypeKind::ApplicationTerm { function: function_b, argument: argument_b, result: result_b, status: status_b } => crate::text::str_eq(function_a.as_str(), function_b.as_str()) && crate::text::str_eq(argument_a.as_str(), argument_b.as_str()) && crate::text::str_eq(result_a.as_str(), result_b.as_str()) && crate::text::str_eq(status_a.as_str(), status_b.as_str()),
                _ => false,
            },
            TypeKind::FunctionContract { name: name_a, status: status_a } => match other {
                TypeKind::FunctionContract { name: name_b, status: status_b } => crate::text::str_eq(name_a.as_str(), name_b.as_str()) && crate::text::str_eq(status_a.as_str(), status_b.as_str()),
                _ => false,
            },
            TypeKind::ProductType { lhs: lhs_a, rhs: rhs_a } => match other {
                TypeKind::ProductType { lhs: lhs_b, rhs: rhs_b } => crate::text::str_eq(lhs_a.as_str(), lhs_b.as_str()) && crate::text::str_eq(rhs_a.as_str(), rhs_b.as_str()),
                _ => false,
            },
            TypeKind::ProductTerm { lhs: lhs_a, rhs: rhs_a, product_type: product_type_a } => match other {
                TypeKind::ProductTerm { lhs: lhs_b, rhs: rhs_b, product_type: product_type_b } => crate::text::str_eq(lhs_a.as_str(), lhs_b.as_str()) && crate::text::str_eq(rhs_a.as_str(), rhs_b.as_str()) && crate::text::str_eq(product_type_a.as_str(), product_type_b.as_str()),
                _ => false,
            },
            TypeKind::SumType { left: left_a, right: right_a } => match other {
                TypeKind::SumType { left: left_b, right: right_b } => crate::text::str_eq(left_a.as_str(), left_b.as_str()) && crate::text::str_eq(right_a.as_str(), right_b.as_str()),
                _ => false,
            },
            TypeKind::SumInjection { side: side_a, value: value_a, sum_type: sum_type_a } => match other {
                TypeKind::SumInjection { side: side_b, value: value_b, sum_type: sum_type_b } => crate::text::str_eq(side_a.as_str(), side_b.as_str()) && crate::text::str_eq(value_a.as_str(), value_b.as_str()) && crate::text::str_eq(sum_type_a.as_str(), sum_type_b.as_str()),
                _ => false,
            },
            TypeKind::RecordType { name: name_a, fields: fields_a } => match other {
                TypeKind::RecordType { name: name_b, fields: fields_b } => crate::text::str_eq(name_a.as_str(), name_b.as_str()) && crate::text::str_eq(fields_a.as_str(), fields_b.as_str()),
                _ => false,
            },
            TypeKind::RecordTerm { name: name_a, fields: fields_a } => match other {
                TypeKind::RecordTerm { name: name_b, fields: fields_b } => crate::text::str_eq(name_a.as_str(), name_b.as_str()) && crate::text::str_eq(fields_a.as_str(), fields_b.as_str()),
                _ => false,
            },
            TypeKind::RecordProjection { record: record_a, field: field_a, result: result_a } => match other {
                TypeKind::RecordProjection { record: record_b, field: field_b, result: result_b } => crate::text::str_eq(record_a.as_str(), record_b.as_str()) && crate::text::str_eq(field_a.as_str(), field_b.as_str()) && crate::text::str_eq(result_a.as_str(), result_b.as_str()),
                _ => false,
            },
            TypeKind::ProductElimination { product_type: product_type_a, lhs: lhs_a, rhs: rhs_a } => match other {
                TypeKind::ProductElimination { product_type: product_type_b, lhs: lhs_b, rhs: rhs_b } => crate::text::str_eq(product_type_a.as_str(), product_type_b.as_str()) && crate::text::str_eq(lhs_a.as_str(), lhs_b.as_str()) && crate::text::str_eq(rhs_a.as_str(), rhs_b.as_str()),
                _ => false,
            },
            TypeKind::SumElimination { sum_type: sum_type_a, side: side_a, result: result_a } => match other {
                TypeKind::SumElimination { sum_type: sum_type_b, side: side_b, result: result_b } => crate::text::str_eq(sum_type_a.as_str(), sum_type_b.as_str()) && crate::text::str_eq(side_a.as_str(), side_b.as_str()) && crate::text::str_eq(result_a.as_str(), result_b.as_str()),
                _ => false,
            },
            TypeKind::RecordPattern { record: record_a, fields: fields_a } => match other {
                TypeKind::RecordPattern { record: record_b, fields: fields_b } => crate::text::str_eq(record_a.as_str(), record_b.as_str()) && crate::text::str_eq(fields_a.as_str(), fields_b.as_str()),
                _ => false,
            },
            TypeKind::OptionType { item: item_a } => match other {
                TypeKind::OptionType { item: item_b } => crate::text::str_eq(item_a.as_str(), item_b.as_str()),
                _ => false,
            },
            TypeKind::OptionValue { kind: kind_a, item: item_a } => match other {
                TypeKind::OptionValue { kind: kind_b, item: item_b } => crate::text::str_eq(kind_a.as_str(), kind_b.as_str()) && crate::text::str_eq(item_a.as_str(), item_b.as_str()),
                _ => false,
            },
            TypeKind::ResultType { ok: ok_a, err: err_a } => match other {
                TypeKind::ResultType { ok: ok_b, err: err_b } => crate::text::str_eq(ok_a.as_str(), ok_b.as_str()) && crate::text::str_eq(err_a.as_str(), err_b.as_str()),
                _ => false,
            },
            TypeKind::ResultValue { kind: kind_a, value: value_a, result_type: result_type_a } => match other {
                TypeKind::ResultValue { kind: kind_b, value: value_b, result_type: result_type_b } => crate::text::str_eq(kind_a.as_str(), kind_b.as_str()) && crate::text::str_eq(value_a.as_str(), value_b.as_str()) && crate::text::str_eq(result_type_a.as_str(), result_type_b.as_str()),
                _ => false,
            },
            TypeKind::PartialityReport { subject: subject_a, status: status_a } => match other {
                TypeKind::PartialityReport { subject: subject_b, status: status_b } => crate::text::str_eq(subject_a.as_str(), subject_b.as_str()) && crate::text::str_eq(status_a.as_str(), status_b.as_str()),
                _ => false,
            },
            TypeKind::ListType { item: item_a } => match other {
                TypeKind::ListType { item: item_b } => crate::text::str_eq(item_a.as_str(), item_b.as_str()),
                _ => false,
            },
            TypeKind::ListValue { item: item_a, len: len_a } => match other {
                TypeKind::ListValue { item: item_b, len: len_b } => crate::text::str_eq(item_a.as_str(), item_b.as_str()) && *len_a == *len_b,
                _ => false,
            },
            TypeKind::SequenceType { item: item_a } => match other {
                TypeKind::SequenceType { item: item_b } => crate::text::str_eq(item_a.as_str(), item_b.as_str()),
                _ => false,
            },
            TypeKind::SequenceValue { item: item_a, len: len_a } => match other {
                TypeKind::SequenceValue { item: item_b, len: len_b } => crate::text::str_eq(item_a.as_str(), item_b.as_str()) && *len_a == *len_b,
                _ => false,
            },
            TypeKind::SequenceIndex { sequence: sequence_a, index: index_a, status: status_a } => match other {
                TypeKind::SequenceIndex { sequence: sequence_b, index: index_b, status: status_b } => crate::text::str_eq(sequence_a.as_str(), sequence_b.as_str()) && *index_a == *index_b && crate::text::str_eq(status_a.as_str(), status_b.as_str()),
                _ => false,
            },
            TypeKind::MapTraversal { source: source_a, function: function_a, result: result_a } => match other {
                TypeKind::MapTraversal { source: source_b, function: function_b, result: result_b } => crate::text::str_eq(source_a.as_str(), source_b.as_str()) && crate::text::str_eq(function_a.as_str(), function_b.as_str()) && crate::text::str_eq(result_a.as_str(), result_b.as_str()),
                _ => false,
            },
            TypeKind::FoldTraversal { source: source_a, step: step_a, result: result_a, fuel: fuel_a } => match other {
                TypeKind::FoldTraversal { source: source_b, step: step_b, result: result_b, fuel: fuel_b } => crate::text::str_eq(source_a.as_str(), source_b.as_str()) && crate::text::str_eq(step_a.as_str(), step_b.as_str()) && crate::text::str_eq(result_a.as_str(), result_b.as_str()) && *fuel_a == *fuel_b,
                _ => false,
            },
            TypeKind::TraversalReport { subject: subject_a, status: status_a } => match other {
                TypeKind::TraversalReport { subject: subject_b, status: status_b } => crate::text::str_eq(subject_a.as_str(), subject_b.as_str()) && crate::text::str_eq(status_a.as_str(), status_b.as_str()),
                _ => false,
            },
            TypeKind::RecursionScheme { name: name_a, measure: measure_a, status: status_a } => match other {
                TypeKind::RecursionScheme { name: name_b, measure: measure_b, status: status_b } => crate::text::str_eq(name_a.as_str(), name_b.as_str()) && crate::text::str_eq(measure_a.as_str(), measure_b.as_str()) && crate::text::str_eq(status_a.as_str(), status_b.as_str()),
                _ => false,
            },
            TypeKind::RecursiveCall { scheme: scheme_a, status: status_a, fuel_after: fuel_after_a } => match other {
                TypeKind::RecursiveCall { scheme: scheme_b, status: status_b, fuel_after: fuel_after_b } => crate::text::str_eq(scheme_a.as_str(), scheme_b.as_str()) && crate::text::str_eq(status_a.as_str(), status_b.as_str()) && *fuel_after_a == *fuel_after_b,
                _ => false,
            },
            TypeKind::RecursionReport { subject: subject_a, status: status_a } => match other {
                TypeKind::RecursionReport { subject: subject_b, status: status_b } => crate::text::str_eq(subject_a.as_str(), subject_b.as_str()) && crate::text::str_eq(status_a.as_str(), status_b.as_str()),
                _ => false,
            },
            TypeKind::ComputationBudget { name: name_a, status: status_a } => match other {
                TypeKind::ComputationBudget { name: name_b, status: status_b } => crate::text::str_eq(name_a.as_str(), name_b.as_str()) && crate::text::str_eq(status_a.as_str(), status_b.as_str()),
                _ => false,
            },
            TypeKind::TerminationBudgetReport { subject: subject_a, status: status_a } => match other {
                TypeKind::TerminationBudgetReport { subject: subject_b, status: status_b } => crate::text::str_eq(subject_a.as_str(), subject_b.as_str()) && crate::text::str_eq(status_a.as_str(), status_b.as_str()),
                _ => false,
            },
            TypeKind::StandardPreludeContract { name: name_a, operation: operation_a, status: status_a } => match other {
                TypeKind::StandardPreludeContract { name: name_b, operation: operation_b, status: status_b } => crate::text::str_eq(name_a.as_str(), name_b.as_str()) && crate::text::str_eq(operation_a.as_str(), operation_b.as_str()) && crate::text::str_eq(status_a.as_str(), status_b.as_str()),
                _ => false,
            },
            TypeKind::PreludeEvaluationReport { name: name_a, operation: operation_a, status: status_a } => match other {
                TypeKind::PreludeEvaluationReport { name: name_b, operation: operation_b, status: status_b } => crate::text::str_eq(name_a.as_str(), name_b.as_str()) && crate::text::str_eq(operation_a.as_str(), operation_b.as_str()) && crate::text::str_eq(status_a.as_str(), status_b.as_str()),
                _ => false,
            },
            TypeKind::PreludeLoweringReport { name: name_a, target: target_a, status: status_a } => match other {
                TypeKind::PreludeLoweringReport { name: name_b, target: target_b, status: status_b } => crate::text::str_eq(name_a.as_str(), name_b.as_str()) && crate::text::str_eq(target_a.as_str(), target_b.as_str()) && crate::text::str_eq(status_a.as_str(), status_b.as_str()),
                _ => false,
            },
            TypeKind::BackendCapabilityContract { name: name_a, target: target_a, status: status_a } => match other {
                TypeKind::BackendCapabilityContract { name: name_b, target: target_b, status: status_b } => crate::text::str_eq(name_a.as_str(), name_b.as_str()) && crate::text::str_eq(target_a.as_str(), target_b.as_str()) && crate::text::str_eq(status_a.as_str(), status_b.as_str()),
                _ => false,
            },
            TypeKind::BackendLoweringReport { name: name_a, target: target_a, status: status_a } => match other {
                TypeKind::BackendLoweringReport { name: name_b, target: target_b, status: status_b } => crate::text::str_eq(name_a.as_str(), name_b.as_str()) && crate::text::str_eq(target_a.as_str(), target_b.as_str()) && crate::text::str_eq(status_a.as_str(), status_b.as_str()),
                _ => false,
            },
            TypeKind::ConsistencyClaim { theory: theory_a } => match other {
                TypeKind::ConsistencyClaim { theory: theory_b } => crate::text::str_eq(theory_a.as_str(), theory_b.as_str()),
                _ => false,
            },
            TypeKind::ProofTerm { rule: rule_a } => match other {
                TypeKind::ProofTerm { rule: rule_b } => crate::text::str_eq(rule_a.as_str(), rule_b.as_str()),
                _ => false,
            },
            TypeKind::Term { of_theory: of_theory_a, of_type: of_type_a } => match other {
                TypeKind::Term { of_theory: of_theory_b, of_type: of_type_b } => crate::text::str_eq(of_theory_a.as_str(), of_theory_b.as_str()) && crate::text::str_eq(of_type_a.as_str(), of_type_b.as_str()),
                _ => false,
            },
            TypeKind::Node { arch: arch_a } => match other {
                TypeKind::Node { arch: arch_b } => *arch_a == *arch_b,
                _ => false,
            },
            TypeKind::GpuDevice { backend: backend_a } => match other {
                TypeKind::GpuDevice { backend: backend_b } => *backend_a == *backend_b,
                _ => false,
            },
            TypeKind::GpuPool => match other {
                TypeKind::GpuPool => true,
                _ => false,
            },
            TypeKind::VirtualCluster => match other {
                TypeKind::VirtualCluster => true,
                _ => false,
            },
            TypeKind::DistributedMemory { memory_mib: memory_mib_a } => match other {
                TypeKind::DistributedMemory { memory_mib: memory_mib_b } => opt_u128_eq(*memory_mib_a, *memory_mib_b),
                _ => false,
            },
            TypeKind::DistributedGpuMemory { memory_mib: memory_mib_a } => match other {
                TypeKind::DistributedGpuMemory { memory_mib: memory_mib_b } => opt_u128_eq(*memory_mib_a, *memory_mib_b),
                _ => false,
            },
            TypeKind::GpuValue { inner: inner_a } => match other {
                TypeKind::GpuValue { inner: inner_b } => inner_a.same_as(inner_b),
                _ => false,
            },
            TypeKind::GpuKernel { inner: inner_a } => match other {
                TypeKind::GpuKernel { inner: inner_b } => inner_a.same_as(inner_b),
                _ => false,
            },
            TypeKind::MemoryCheckpoint { memory_mib: memory_mib_a } => match other {
                TypeKind::MemoryCheckpoint { memory_mib: memory_mib_b } => opt_u128_eq(*memory_mib_a, *memory_mib_b),
                _ => false,
            },
            TypeKind::RemoteCheckpoint { inner: inner_a, source_arch: source_arch_a } => match other {
                TypeKind::RemoteCheckpoint { inner: inner_b, source_arch: source_arch_b } => inner_a.same_as(inner_b) && *source_arch_a == *source_arch_b,
                _ => false,
            },
            TypeKind::PortableCode { inner: inner_a } => match other {
                TypeKind::PortableCode { inner: inner_b } => inner_a.same_as(inner_b),
                _ => false,
            },
            TypeKind::Remote { inner: inner_a, target_arch: target_arch_a } => match other {
                TypeKind::Remote { inner: inner_b, target_arch: target_arch_b } => inner_a.same_as(inner_b) && *target_arch_a == *target_arch_b,
                _ => false,
            },
            TypeKind::Result(a) => match other {
                TypeKind::Result(b) => a.same_as(b),
                _ => false,
            },
            TypeKind::StaticProof(a) => match other {
                TypeKind::StaticProof(b) => crate::text::str_eq(a.as_str(), b.as_str()),
                _ => false,
            },
            TypeKind::RuntimeWitness(a) => match other {
                TypeKind::RuntimeWitness(b) => crate::text::str_eq(a.as_str(), b.as_str()),
                _ => false,
            },
            TypeKind::Unknown(a) => match other {
                TypeKind::Unknown(b) => crate::text::str_eq(a.as_str(), b.as_str()),
                _ => false,
            },
        }
    }
}

fn opt_u128_eq(a: Option<u128>, b: Option<u128>) -> (r: bool)
    ensures
        r == (a == b),
{
    match (a, b) {
        (Some(x), Some(y)) => x == y,
        (None, None) => true,
        _ => false,
    }
}

} // verus!
