pub mod ast;
pub mod axiom_registry;
pub mod bridge;
pub mod bridge_assumption;
pub mod certificate;
pub mod certificate_audit;
pub mod checker;
pub mod conservative_extension;
pub mod diagnostics;
pub mod equality;
pub mod fingerprint;
pub mod function;
pub mod function_contract;
pub mod ids;
pub mod induction;
pub mod logic;
pub mod meta_level;
pub mod metatheory_closure;
pub mod metatheory_foundation;
pub mod module_interface;
pub mod module_system;
pub mod parser;
pub mod partiality;
pub mod passes;
pub mod passport;
pub mod passport_rules;
pub mod policy;
pub mod text;

pub use ast::{BridgeDecl, BridgeKind, Expr, ExprKind, ImportDecl, LetDecl, Module, ModuleItem, TheoryDecl, TheoryItem};
pub use checker::{CheckReport, Checker};
pub use diagnostics::{Diagnostic, DiagnosticKind, Severity, SourceSpan};
pub use parser::parse_module;
pub use passport::{
    Capability, CapabilitySet, ConstructionMode, CostClass, GpuBackend, HistoryChain, InfinityMode, LocationContext, NodeArch,
    Passport, Provenance, TheoryContext, TrustLevel, TypeKind, ValidationState,
};
pub use policy::CheckPolicy;
