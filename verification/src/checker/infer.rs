//! Passport inference for expressions.

use vstd::prelude::*;
use vstd::string::*;

use super::builtins::call_spec;
use super::{cap_error, lookup, passport_result, CheckEnv, Checker};
use crate::ast::{args_model, expr_model, Expr, ExprKind, ExprKindV, ExprV};
use crate::diagnostics::{error_help, error_model, error_with_help, Diagnostic, DiagnosticKind, DiagnosticV};
use crate::parser::expr::byte_len;
use crate::passport::constructors::{add_result_model, passports_view, compressed_nat_model, deployed_portable_code_model, literal_nat_model};
use crate::passport::record::{home_context, passport_text};
use crate::passport::{
    Capability, CapabilitySet, ConstructionMode, CostClass, HistoryChain, InfinityMode, LocationContext, NodeArch, Passport,
    PassportV, Provenance, TheoryContext, TypeKind, TypeKindV, ValidationState,
};
use crate::passport_rules::require_capability;
use crate::text::{dec_text, str_eq, usize_text};

verus! {

/// Size of an expression: its number of nodes.
pub open spec fn expr_size(e: ExprV) -> nat
    decreases e, 1nat,
{
    match e.kind {
        ExprKindV::Power { base, exp } => 1 + expr_size(*base) + expr_size(*exp),
        ExprKindV::Add { lhs, rhs } => 1 + expr_size(*lhs) + expr_size(*rhs),
        ExprKindV::CompareGt { lhs, rhs } => 1 + expr_size(*lhs) + expr_size(*rhs),
        ExprKindV::Call { args, .. } => 1 + args_size(args),
        _ => 1,
    }
}

/// Total size of a sequence of expressions.
pub open spec fn args_size(args: Seq<ExprV>) -> nat
    decreases args, 0nat,
{
    if args.len() == 0 {
        0
    } else {
        args_size(args.drop_last()) + expr_size(args.last())
    }
}

/// Every argument is no larger than the arguments together.
pub proof fn lemma_args_size(args: Seq<ExprV>)
    ensures
        forall|i: int| 0 <= i < args.len() ==> expr_size(#[trigger] args[i]) <= args_size(args),
    decreases args.len(),
{
    if args.len() > 0 {
        lemma_args_size(args.drop_last());
        assert forall|i: int| 0 <= i < args.len() implies expr_size(#[trigger] args[i]) <= args_size(args) by {
            if i < args.len() - 1 {
                assert(args.drop_last()[i] == args[i]);
            }
        }
    }
}

/// The models of a vector of expressions are the expressions' models, in order.
pub proof fn args_model_lemma(args: Seq<Expr>)
    ensures
        args_model(args).len() == args.len(),
        forall|i: int| 0 <= i < args.len() ==> #[trigger] args_model(args)[i] == args[i]@,
    decreases args.len(),
{
    if args.len() > 0 {
        args_model_lemma(args.drop_last());
        assert forall|i: int| 0 <= i < args.len() implies #[trigger] args_model(args)[i] == args[i]@ by {
            if i < args.len() - 1 {
                assert(args.drop_last()[i] == args[i]);
            }
        }
    }
}

/// A boolean comparing two values: the weaker of each of their properties, their
/// histories merged with `event`.
pub open spec fn compare_model(lhs: PassportV, rhs: PassportV, amb: Seq<char>, event: Seq<char>) -> PassportV {
    PassportV {
        ty: TypeKindV::Bool,
        construction: lhs.construction.higher(rhs.construction),
        capabilities: set![Capability::CanSymbolicPrint],
        cost: lhs.cost.higher(rhs.cost),
        trust: lhs.trust.higher(rhs.trust),
        provenance: lhs.provenance.higher(rhs.provenance),
        validation: lhs.validation.higher(rhs.validation),
        theory: home_context(amb),
        history: (lhs.history + rhs.history).push(event),
        location: LocationContext::Local,
    }
}

/// A boolean comparing two values by proof or syntax, with the given cost.
pub open spec fn proof_compare_model(lhs: PassportV, rhs: PassportV, amb: Seq<char>, event: Seq<char>, cost: CostClass) -> PassportV {
    PassportV { construction: ConstructionMode::ProofFinite, cost, ..compare_model(lhs, rhs, amb, event) }
}

/// A text output made from a value.
pub open spec fn text_model(value: PassportV, amb: Seq<char>, construction: ConstructionMode, cost: CostClass, event: Seq<char>) -> PassportV {
    PassportV {
        ty: TypeKindV::Text,
        construction,
        capabilities: set![Capability::CanSymbolicPrint],
        cost,
        trust: value.trust,
        provenance: value.provenance,
        validation: value.validation,
        theory: home_context(amb),
        history: value.history.push(event),
        location: LocationContext::Local,
    }
}

/// Portable code deployed on a node of a pool: the pool's taint and history join
/// the deployment's.
pub open spec fn deployed_on_pool_model(
    amb: Seq<char>,
    pool: PassportV,
    code: PassportV,
    target: PassportV,
    arch: NodeArch,
    event: Seq<char>,
) -> PassportV {
    let d = deployed_portable_code_model(amb, code, target, arch, event);
    PassportV {
        trust: d.trust.higher(pool.trust),
        provenance: d.provenance.higher(pool.provenance),
        validation: d.validation.higher(pool.validation),
        cost: d.cost.higher(pool.cost),
        history: (pool.history + code.history + target.history).push(event),
        ..d
    }
}

/// The value depends on input that is only known at run time.
pub open spec fn is_runtime_dependent(p: PassportV) -> bool {
    ||| p.provenance == Provenance::RuntimeInput
    ||| p.provenance == Provenance::ExternalFile
    ||| p.provenance == Provenance::OracleInput
    ||| p.provenance == Provenance::UnsafeExternal
    ||| p.validation == ValidationState::Raw
    ||| p.validation == ValidationState::Parsed
    ||| p.validation == ValidationState::RuntimeChecked
    ||| p.validation == ValidationState::ConstraintChecked
    ||| p.validation == ValidationState::Assumed
}

/// The level of a universe type (0 for other types).
pub open spec fn universe_level(t: TypeKindV) -> u8 {
    match t {
        TypeKindV::Universe { level } => level,
        _ => 0,
    }
}

/// The architecture of a node type.
pub open spec fn node_arch_of(t: TypeKindV) -> Option<NodeArch> {
    match t {
        TypeKindV::Node { arch } => Some(arch),
        _ => None,
    }
}

/// The predicate a kernel check of a proof term establishes.
pub open spec fn checked_predicate(t: TypeKindV, line: usize) -> Seq<char> {
    match t {
        TypeKindV::ProofTerm { rule } => "kernel_checked:"@ + rule,
        _ => "kernel_checked:line_"@ + dec_text(line as nat),
    }
}

/// Looking up `theory.name` from inside theory `amb`: only a theory's own values
/// are visible without a bridge.
pub open spec fn lookup_qualified_spec(env: CheckEnv, theory: Seq<char>, name: Seq<char>, amb: Seq<char>, line: usize) -> Result<PassportV, DiagnosticV> {
    match lookup(env.scopes, theory, name) {
        None => Err(error_model(DiagnosticKind::NameError, Some(line), "unknown qualified name '"@ + theory + "."@ + name + "'"@)),
        Some(v) => if theory == amb {
            Ok(v)
        } else {
            Err(error_with_help(
                DiagnosticKind::TheoryBridgeError,
                line,
                "cannot use "@ + theory + "."@ + name + " directly inside theory "@ + amb,
                "use quote(...), transport(...), or an explicit TheoryBridge"@,
            ))
        },
    }
}

/// The first `n` arguments of `gpu_pool`, each a GPU device able to host the runtime.
pub open spec fn gpu_devices_spec(env: CheckEnv, args: Seq<ExprV>, amb: Seq<char>, line: usize, n: int) -> Result<Seq<PassportV>, DiagnosticV>
    decreases 2 * args_size(args) + 1, n,
    when n <= args.len()
{
    if n <= 0 {
        Ok(Seq::empty())
    } else {
        proof {
            lemma_args_size(args);
        }
        match gpu_devices_spec(env, args, amb, line, n - 1) {
            Err(d) => Err(d),
            Ok(prev) => match infer_spec(env, args[n - 1], amb) {
                Err(d) => Err(d),
                Ok(device) => match cap_error(device, Capability::CanHostGpuRuntime, line, "gpu_pool requires GPU devices with can_host_gpu_runtime"@) {
                    Some(d) => Err(d),
                    None => if !(device.ty is GpuDevice) {
                        Err(error_with_help(
                            DiagnosticKind::DistributedResourceError,
                            line,
                            "gpu_pool accepts only GpuDevice<backend> values"@,
                            "value passport: "@ + passport_text(device),
                        ))
                    } else {
                        Ok(prev.push(device))
                    },
                },
            },
        }
    }
}

/// The first `n` arguments of `virtual_pool`, each a node able to host the runtime.
pub open spec fn pool_nodes_spec(env: CheckEnv, args: Seq<ExprV>, amb: Seq<char>, line: usize, n: int) -> Result<Seq<PassportV>, DiagnosticV>
    decreases 2 * args_size(args) + 1, n,
    when n <= args.len()
{
    if n <= 0 {
        Ok(Seq::empty())
    } else {
        proof {
            lemma_args_size(args);
        }
        match pool_nodes_spec(env, args, amb, line, n - 1) {
            Err(d) => Err(d),
            Ok(prev) => match infer_spec(env, args[n - 1], amb) {
                Err(d) => Err(d),
                Ok(node) => match cap_error(node, Capability::CanHostRuntime, line, "virtual_pool requires nodes with can_host_runtime"@) {
                    Some(d) => Err(d),
                    None => if !(node.ty is Node) {
                        Err(error_with_help(
                            DiagnosticKind::DistributedResourceError,
                            line,
                            "virtual_pool accepts only Node<x86_64> or Node<aarch64> values"@,
                            "value passport: "@ + passport_text(node),
                        ))
                    } else {
                        Ok(prev.push(node))
                    },
                },
            },
        }
    }
}

/// The passport of `b ^ x`: a compressed natural number that keeps the
/// operands' taint (the more tainted trust and provenance of the two).
pub open spec fn power_result_model(b: PassportV, x: PassportV, amb: Seq<char>) -> PassportV {
    PassportV {
        trust: b.trust.higher(x.trust),
        provenance: compressed_nat_model(amb).provenance.higher(b.provenance).higher(x.provenance),
        ..compressed_nat_model(amb)
    }
}

/// The passport inferred for expression `e` in theory `amb`, or the first error.
#[verifier::opaque]
pub open spec fn infer_spec(env: CheckEnv, e: ExprV, amb: Seq<char>) -> Result<PassportV, DiagnosticV>
    decreases 2 * expr_size(e), 0int,
{
    let line = e.line;
    match e.kind {
        ExprKindV::IntLiteral(v) => if byte_len(v) <= 18 {
            Ok(literal_nat_model(amb))
        } else {
            Ok(compressed_nat_model(amb))
        },
        ExprKindV::Ident(name) => match lookup(env.scopes, amb, name) {
            Some(p) => Ok(p),
            None => Err(error_model(DiagnosticKind::NameError, Some(line), "unknown name '"@ + name + "' in theory "@ + amb)),
        },
        ExprKindV::QualifiedIdent { theory, name } => lookup_qualified_spec(env, theory, name, amb, line),
        ExprKindV::Power { base, exp } => match infer_spec(env, *base, amb) {
            Err(d) => Err(d),
            Ok(b) => match infer_spec(env, *exp, amb) {
                Err(d) => Err(d),
                Ok(x) => match cap_error(b, Capability::CanAddAsNat, line, "power base must be Nat-like"@) {
                    Some(d) => Err(d),
                    None => match cap_error(x, Capability::CanAddAsNat, line, "power exponent must be Nat-like"@) {
                        Some(d) => Err(d),
                        None => Ok(power_result_model(b, x, amb)),
                    },
                },
            },
        },
        ExprKindV::Add { lhs, rhs } => match infer_spec(env, *lhs, amb) {
            Err(d) => Err(d),
            Ok(l) => match infer_spec(env, *rhs, amb) {
                Err(d) => Err(d),
                Ok(r) => match cap_error(l, Capability::CanAddAsNat, line, "left operand of + must support Nat addition"@) {
                    Some(d) => Err(d),
                    None => match cap_error(r, Capability::CanAddAsNat, line, "right operand of + must support Nat addition"@) {
                        Some(d) => Err(d),
                        None => Ok(add_result_model(l, r, amb)),
                    },
                },
            },
        },
        ExprKindV::CompareGt { lhs, rhs } => match infer_spec(env, *lhs, amb) {
            Err(d) => Err(d),
            Ok(l) => match infer_spec(env, *rhs, amb) {
                Err(d) => Err(d),
                Ok(r) => {
                    let direct = l.capabilities.contains(Capability::CanCompareDirect) && r.capabilities.contains(Capability::CanCompareDirect);
                    let by_proof = l.capabilities.contains(Capability::CanCompareByProof) && r.capabilities.contains(Capability::CanCompareByProof);
                    if !direct && !by_proof {
                        Err(error_with_help(
                            DiagnosticKind::AccessError,
                            line,
                            "comparison requires can_compare_direct or can_compare_by_proof on both operands"@,
                            "left: "@ + passport_text(l) + "\n  right: "@ + passport_text(r),
                        ))
                    } else {
                        Ok(compare_model(l, r, amb, "compare:gt"@))
                    }
                },
            },
        },
        ExprKindV::Call { name, args } => call_spec(env, name, args, amb, line),
    }
}

pub(crate) fn compare_passport(lhs: &Passport, rhs: &Passport, amb: &str, event: &str) -> (r: Passport)
    ensures
        r@ == compare_model(lhs@, rhs@, amb@, event@),
{
    Passport {
        ty: TypeKind::Bool,
        construction: lhs.construction.higher(rhs.construction),
        capabilities: CapabilitySet::empty().with(Capability::CanSymbolicPrint),
        cost: lhs.cost.higher(rhs.cost),
        trust: lhs.trust.higher(rhs.trust),
        provenance: lhs.provenance.higher(rhs.provenance),
        validation: lhs.validation.higher(rhs.validation),
        theory: TheoryContext::new(amb),
        history: HistoryChain::merge2(&lhs.history, &rhs.history, event),
        location: LocationContext::local(),
    }
}

pub(crate) fn proof_compare_passport(lhs: &Passport, rhs: &Passport, amb: &str, event: &str, cost: CostClass) -> (r: Passport)
    ensures
        r@ == proof_compare_model(lhs@, rhs@, amb@, event@, cost),
{
    let mut p = compare_passport(lhs, rhs, amb, event);
    p.construction = ConstructionMode::ProofFinite;
    p.cost = cost;
    p
}

pub(crate) fn text_passport(value: &Passport, amb: &str, construction: ConstructionMode, cost: CostClass, event: &str) -> (r: Passport)
    ensures
        r@ == text_model(value@, amb@, construction, cost, event@),
{
    Passport {
        ty: TypeKind::Text,
        construction,
        capabilities: CapabilitySet::empty().with(Capability::CanSymbolicPrint),
        cost,
        trust: value.trust,
        provenance: value.provenance,
        validation: value.validation,
        theory: TheoryContext::new(amb),
        history: HistoryChain::from_source(&value.history, event),
        location: LocationContext::local(),
    }
}

pub(crate) fn deployed_on_pool(
    amb: &str,
    pool: &Passport,
    code: &Passport,
    target: &Passport,
    arch: NodeArch,
    event: &str,
) -> (r: Passport)
    ensures
        r@ == deployed_on_pool_model(amb@, pool@, code@, target@, arch, event@),
{
    let mut deployed = Passport::deployed_portable_code(amb, code, target, arch, event);
    deployed.trust = deployed.trust.higher(pool.trust);
    deployed.provenance = deployed.provenance.higher(pool.provenance);
    deployed.validation = deployed.validation.higher(pool.validation);
    deployed.cost = deployed.cost.higher(pool.cost);
    deployed.history = HistoryChain::merge3(&pool.history, &code.history, &target.history, event);
    deployed
}

pub(crate) fn runtime_dependent(p: &Passport) -> (r: bool)
    ensures
        r == is_runtime_dependent(p@),
{
    match p.provenance {
        Provenance::RuntimeInput | Provenance::ExternalFile | Provenance::OracleInput | Provenance::UnsafeExternal => true,
        _ => match p.validation {
            ValidationState::Raw | ValidationState::Parsed | ValidationState::RuntimeChecked
            | ValidationState::ConstraintChecked | ValidationState::Assumed => true,
            _ => false,
        },
    }
}

pub(crate) fn universe_level_of(t: &TypeKind) -> (r: u8)
    ensures
        r == universe_level(t@),
{
    match t {
        TypeKind::Universe { level } => *level,
        _ => 0,
    }
}

pub(crate) fn is_infinity_mode(t: &TypeKind, mode: InfinityMode) -> (r: bool)
    ensures
        r == (t@ == TypeKindV::Infinity { mode }),
{
    match t {
        TypeKind::Infinity { mode: m } => *m == mode,
        _ => false,
    }
}

pub(crate) fn checked_predicate_of(t: &TypeKind, line: usize) -> (r: String)
    ensures
        r@ == checked_predicate(t@, line),
{
    match t {
        TypeKind::ProofTerm { rule } => {
            let mut s = String::from_str("kernel_checked:");
            s.append(rule.as_str());
            s
        },
        _ => {
            let mut s = String::from_str("kernel_checked:line_");
            s.append(usize_text(line).as_str());
            s
        },
    }
}

impl Checker {
    /// The passport of `expr` in theory `amb`, or the first error found.
    #[verifier::rlimit(60)]
    pub(crate) fn infer_expr(&self, expr: &Expr, amb: &str) -> (r: Result<Passport, Diagnostic>)
        ensures
            passport_result(r) == infer_spec(self@.env, expr@, amb@),
        decreases 2 * expr_size(expr@), 0int,
    {
        proof {
            reveal(infer_spec);
        }
        let line = expr.line;
        match &expr.kind {
            ExprKind::IntLiteral(value) => {
                if super::byte_len_at_most(value.as_str(), 18) {
                    Ok(Passport::literal_nat(amb))
                } else {
                    Ok(Passport::compressed_nat(amb))
                }
            },
            ExprKind::Ident(name) => match self.lookup_value(amb, name.as_str()) {
                Some(p) => Ok(p),
                None => {
                    let mut msg = String::from_str("unknown name '");
                    msg.append(name.as_str());
                    msg.append("' in theory ");
                    msg.append(amb);
                    Err(Diagnostic::error(DiagnosticKind::NameError, Some(line), msg.as_str()))
                },
            },
            ExprKind::QualifiedIdent { theory, name } => self.lookup_qualified(theory.as_str(), name.as_str(), amb, line),
            ExprKind::Power { base, exp } => {
                let b = match self.infer_expr(base, amb) {
                    Ok(x) => x,
                    Err(d) => return Err(d),
                };
                let x = match self.infer_expr(exp, amb) {
                    Ok(x) => x,
                    Err(d) => return Err(d),
                };
                match require_capability(&b, Capability::CanAddAsNat, line, "power base must be Nat-like") {
                    Ok(()) => {},
                    Err(d) => return Err(d),
                }
                match require_capability(&x, Capability::CanAddAsNat, line, "power exponent must be Nat-like") {
                    Ok(()) => {},
                    Err(d) => return Err(d),
                }
                let mut p = Passport::compressed_nat(amb);
                p.trust = b.trust.higher(x.trust);
                p.provenance = p.provenance.higher(b.provenance).higher(x.provenance);
                Ok(p)
            },
            ExprKind::Add { lhs, rhs } => {
                let l = match self.infer_expr(lhs, amb) {
                    Ok(x) => x,
                    Err(d) => return Err(d),
                };
                let r = match self.infer_expr(rhs, amb) {
                    Ok(x) => x,
                    Err(d) => return Err(d),
                };
                match require_capability(&l, Capability::CanAddAsNat, line, "left operand of + must support Nat addition") {
                    Ok(()) => {},
                    Err(d) => return Err(d),
                }
                match require_capability(&r, Capability::CanAddAsNat, line, "right operand of + must support Nat addition") {
                    Ok(()) => {},
                    Err(d) => return Err(d),
                }
                Ok(Passport::add_result(&l, &r, amb))
            },
            ExprKind::CompareGt { lhs, rhs } => {
                let l = match self.infer_expr(lhs, amb) {
                    Ok(x) => x,
                    Err(d) => return Err(d),
                };
                let r = match self.infer_expr(rhs, amb) {
                    Ok(x) => x,
                    Err(d) => return Err(d),
                };
                let direct = l.capabilities.contains(Capability::CanCompareDirect) && r.capabilities.contains(Capability::CanCompareDirect);
                let by_proof = l.capabilities.contains(Capability::CanCompareByProof) && r.capabilities.contains(Capability::CanCompareByProof);
                if !direct && !by_proof {
                    let mut help = String::from_str("left: ");
                    help.append(l.to_text().as_str());
                    help.append("\n  right: ");
                    help.append(r.to_text().as_str());
                    return Err(error_help(
                        DiagnosticKind::AccessError,
                        line,
                        "comparison requires can_compare_direct or can_compare_by_proof on both operands",
                        help.as_str(),
                    ));
                }
                Ok(compare_passport(&l, &r, amb, "compare:gt"))
            },
            ExprKind::Call { name, args } => self.infer_call(name.as_str(), args, amb, line),
        }
    }

    /// A call of a builtin.
    pub(crate) fn infer_call(&self, name: &str, args: &Vec<Expr>, amb: &str, line: usize) -> (r: Result<Passport, Diagnostic>)
        ensures
            passport_result(r) == call_spec(self@.env, name@, args_model(args@), amb@, line),
        decreases 2 * args_size(args_model(args@)) + 1, args@.len() + 3,
    {
        proof {
            args_model_lemma(args@);
        }
        match self.call_group0(name, args, amb, line) {
            Some(r) => return r,
            None => {},
        }
        match self.call_group1(name, args, amb, line) {
            Some(r) => return r,
            None => {},
        }
        match self.call_group2(name, args, amb, line) {
            Some(r) => return r,
            None => {},
        }
        match self.call_group3(name, args, amb, line) {
            Some(r) => return r,
            None => {},
        }
        match self.call_group4(name, args, amb, line) {
            Some(r) => return r,
            None => {},
        }
        match self.call_group5(name, args, amb, line) {
            Some(r) => return r,
            None => {},
        }
        match self.call_group6(name, args, amb, line) {
            Some(r) => return r,
            None => {},
        }
        match self.call_group7(name, args, amb, line) {
            Some(r) => return r,
            None => {},
        }
        match self.call_group8(name, args, amb, line) {
            Some(r) => return r,
            None => {},
        }
        let mut msg = String::from_str("unknown builtin or function '");
        msg.append(name);
        msg.append("' in MVP");
        Err(Diagnostic::error(DiagnosticKind::NameError, Some(line), msg.as_str()))
    }

    /// `theory.name` seen from theory `amb`.
    pub(crate) fn lookup_qualified(&self, theory: &str, name: &str, amb: &str, line: usize) -> (r: Result<Passport, Diagnostic>)
        ensures
            passport_result(r) == lookup_qualified_spec(self@.env, theory@, name@, amb@, line),
    {
        match self.lookup_value(theory, name) {
            None => {
                let mut msg = String::from_str("unknown qualified name '");
                msg.append(theory);
                msg.append(".");
                msg.append(name);
                msg.append("'");
                Err(Diagnostic::error(DiagnosticKind::NameError, Some(line), msg.as_str()))
            },
            Some(v) => {
                if str_eq(theory, amb) {
                    Ok(v)
                } else {
                    let mut msg = String::from_str("cannot use ");
                    msg.append(theory);
                    msg.append(".");
                    msg.append(name);
                    msg.append(" directly inside theory ");
                    msg.append(amb);
                    Err(error_help(
                        DiagnosticKind::TheoryBridgeError,
                        line,
                        msg.as_str(),
                        "use quote(...), transport(...), or an explicit TheoryBridge",
                    ))
                }
            },
        }
    }

    /// The devices of a `gpu_pool` call, in order.
    pub(crate) fn gpu_devices(&self, args: &Vec<Expr>, amb: &str, line: usize) -> (r: Result<Vec<Passport>, Diagnostic>)
        ensures
            gpu_devices_spec(self@.env, args_model(args@), amb@, line, args@.len() as int) == (match r {
                Ok(v) => Ok::<Seq<PassportV>, DiagnosticV>(passports_view(v@)),
                Err(d) => Err::<Seq<PassportV>, DiagnosticV>(d@),
            }),
        decreases 2 * args_size(args_model(args@)) + 1, args@.len() as int,
    {
        proof {
            args_model_lemma(args@);
            lemma_args_size(args_model(args@));
        }
        let ghost sargs = args_model(args@);
        let mut out: Vec<Passport> = Vec::new();
        let mut i: usize = 0;
        assert(passports_view(out@) =~= Seq::<PassportV>::empty());
        while i < args.len()
            invariant
                sargs == args_model(args@),
                sargs.len() == args@.len(),
                forall|j: int| 0 <= j < args@.len() ==> #[trigger] sargs[j] == args@[j]@,
                forall|j: int| 0 <= j < sargs.len() ==> expr_size(#[trigger] sargs[j]) <= args_size(sargs),
                i <= args.len(),
                gpu_devices_spec(self@.env, sargs, amb@, line, i as int) == Ok::<Seq<PassportV>, DiagnosticV>(passports_view(out@)),
            decreases args.len() - i,
        {
            assert(sargs[i as int] == args@[i as int]@);
            proof {
                reveal(infer_spec);
            }
            let device = match self.infer_expr(&args[i], amb) {
                Ok(x) => x,
                Err(d) => {
                    proof {
                        lemma_devices_err(self@.env, sargs, amb@, line, i + 1, args@.len() as int);
                    }
                    return Err(d);
                },
            };
            match require_capability(&device, Capability::CanHostGpuRuntime, line, "gpu_pool requires GPU devices with can_host_gpu_runtime") {
                Ok(()) => {},
                Err(d) => {
                    proof {
                        lemma_devices_err(self@.env, sargs, amb@, line, i + 1, args@.len() as int);
                    }
                    return Err(d);
                },
            }
            if !matches!(device.ty, TypeKind::GpuDevice { .. }) {
                let mut help = String::from_str("value passport: ");
                help.append(device.to_text().as_str());
                proof {
                    lemma_devices_err(self@.env, sargs, amb@, line, i + 1, args@.len() as int);
                }
                return Err(error_help(DiagnosticKind::DistributedResourceError, line, "gpu_pool accepts only GpuDevice<backend> values", help.as_str()));
            }
            let ghost old = out@;
            let ghost dv = device@;
            out.push(device);
            assert(passports_view(out@) =~= passports_view(old).push(dv));
            i = i + 1;
        }
        Ok(out)
    }

    /// The nodes of a `virtual_pool` call, in order.
    pub(crate) fn pool_nodes(&self, args: &Vec<Expr>, amb: &str, line: usize) -> (r: Result<Vec<Passport>, Diagnostic>)
        ensures
            pool_nodes_spec(self@.env, args_model(args@), amb@, line, args@.len() as int) == (match r {
                Ok(v) => Ok::<Seq<PassportV>, DiagnosticV>(passports_view(v@)),
                Err(d) => Err::<Seq<PassportV>, DiagnosticV>(d@),
            }),
        decreases 2 * args_size(args_model(args@)) + 1, args@.len() as int,
    {
        proof {
            args_model_lemma(args@);
            lemma_args_size(args_model(args@));
        }
        let ghost sargs = args_model(args@);
        let mut out: Vec<Passport> = Vec::new();
        let mut i: usize = 0;
        assert(passports_view(out@) =~= Seq::<PassportV>::empty());
        while i < args.len()
            invariant
                sargs == args_model(args@),
                sargs.len() == args@.len(),
                forall|j: int| 0 <= j < args@.len() ==> #[trigger] sargs[j] == args@[j]@,
                forall|j: int| 0 <= j < sargs.len() ==> expr_size(#[trigger] sargs[j]) <= args_size(sargs),
                i <= args.len(),
                pool_nodes_spec(self@.env, sargs, amb@, line, i as int) == Ok::<Seq<PassportV>, DiagnosticV>(passports_view(out@)),
            decreases args.len() - i,
        {
            assert(sargs[i as int] == args@[i as int]@);
            proof {
                reveal(infer_spec);
            }
            let node = match self.infer_expr(&args[i], amb) {
                Ok(x) => x,
                Err(d) => {
                    proof {
                        lemma_nodes_err(self@.env, sargs, amb@, line, i + 1, args@.len() as int);
                    }
                    return Err(d);
                },
            };
            match require_capability(&node, Capability::CanHostRuntime, line, "virtual_pool requires nodes with can_host_runtime") {
                Ok(()) => {},
                Err(d) => {
                    proof {
                        lemma_nodes_err(self@.env, sargs, amb@, line, i + 1, args@.len() as int);
                    }
                    return Err(d);
                },
            }
            if !matches!(node.ty, TypeKind::Node { .. }) {
                let mut help = String::from_str("value passport: ");
                help.append(node.to_text().as_str());
                proof {
                    lemma_nodes_err(self@.env, sargs, amb@, line, i + 1, args@.len() as int);
                }
                return Err(error_help(DiagnosticKind::DistributedResourceError, line, "virtual_pool accepts only Node<x86_64> or Node<aarch64> values", help.as_str()));
            }
            let ghost old = out@;
            let ghost nv = node@;
            out.push(node);
            assert(passports_view(out@) =~= passports_view(old).push(nv));
            i = i + 1;
        }
        Ok(out)
    }
}

/// Once a device fails, every longer prefix fails the same way.
proof fn lemma_devices_err(env: CheckEnv, args: Seq<ExprV>, amb: Seq<char>, line: usize, m: int, n: int)
    requires
        0 < m <= n <= args.len(),
        gpu_devices_spec(env, args, amb, line, m) is Err,
    ensures
        gpu_devices_spec(env, args, amb, line, n) == gpu_devices_spec(env, args, amb, line, m),
    decreases n - m,
{
    if m < n {
        lemma_devices_err(env, args, amb, line, m, n - 1);
    }
}

/// Once a node fails, every longer prefix fails the same way.
proof fn lemma_nodes_err(env: CheckEnv, args: Seq<ExprV>, amb: Seq<char>, line: usize, m: int, n: int)
    requires
        0 < m <= n <= args.len(),
        pool_nodes_spec(env, args, amb, line, m) is Err,
    ensures
        pool_nodes_spec(env, args, amb, line, n) == pool_nodes_spec(env, args, amb, line, m),
    decreases n - m,
{
    if m < n {
        lemma_nodes_err(env, args, amb, line, m, n - 1);
    }
}


/// Taint only joins through arithmetic and comparison: the trust of a sum, of a
/// power or of a `>` comparison is the join (the more tainted) of its
/// operands' trust, so none of them lowers taint.
#[verifier::rlimit(40)]
pub proof fn lemma_binary_joins_trust(env: CheckEnv, e: ExprV, amb: Seq<char>)
    requires
        e.kind is Add || e.kind is CompareGt || e.kind is Power,
        infer_spec(env, e, amb) is Ok,
    ensures
        match e.kind {
            ExprKindV::Add { lhs, rhs } | ExprKindV::CompareGt { lhs, rhs } | ExprKindV::Power { base: lhs, exp: rhs } => {
                &&& infer_spec(env, *lhs, amb) is Ok
                &&& infer_spec(env, *rhs, amb) is Ok
                &&& infer_spec(env, e, amb)->Ok_0.trust == infer_spec(env, *lhs, amb)->Ok_0.trust.higher(
                    infer_spec(env, *rhs, amb)->Ok_0.trust,
                )
                &&& infer_spec(env, e, amb)->Ok_0.trust.rank() >= infer_spec(env, *lhs, amb)->Ok_0.trust.rank()
                &&& infer_spec(env, e, amb)->Ok_0.trust.rank() >= infer_spec(env, *rhs, amb)->Ok_0.trust.rank()
            },
            _ => true,
        },
{
    reveal_with_fuel(infer_spec, 1);
}

/// Theories are sealed: a qualified name of another theory never evaluates inside
/// the current one; crossing needs a bridge (`quote`, `transport`, ...).
pub proof fn lemma_no_silent_theory_crossing(env: CheckEnv, e: ExprV, amb: Seq<char>)
    requires
        e.kind matches ExprKindV::QualifiedIdent { theory, .. } && theory != amb,
    ensures
        infer_spec(env, e, amb) is Err,
        lookup(env.scopes, e.kind->theory, e.kind->QualifiedIdent_name) is Some ==> infer_spec(env, e, amb)->Err_0.kind
            == DiagnosticKind::TheoryBridgeError,
{
    reveal_with_fuel(infer_spec, 1);
}

/// A name is only visible in the theory that bound it.
pub proof fn lemma_lookup_is_per_theory(scopes: Seq<(Seq<char>, Seq<char>, PassportV)>, theory: Seq<char>, name: Seq<char>)
    ensures
        lookup(scopes, theory, name) matches Some(p) ==> exists|i: int|
            0 <= i < scopes.len() && #[trigger] scopes[i] == (theory, name, p),
    decreases scopes.len(),
{
    if scopes.len() > 0 && !(scopes.last().0 == theory && scopes.last().1 == name) {
        lemma_lookup_is_per_theory(scopes.drop_last(), theory, name);
        if lookup(scopes, theory, name) is Some {
            let p = lookup(scopes, theory, name)->Some_0;
            let i = choose|i: int| 0 <= i < scopes.drop_last().len() && #[trigger] scopes.drop_last()[i] == (theory, name, p);
            assert(scopes[i] == scopes.drop_last()[i]);
        }
    } else if scopes.len() > 0 {
        assert(scopes[scopes.len() - 1] == scopes.last());
    }
}

} // verus!
