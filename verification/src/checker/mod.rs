//! The checker: infers a passport for every value of a module and reports what
//! the trust policy, the capabilities and the bridges do not allow.

pub mod builtins;
pub mod infer;

use vstd::prelude::*;
use vstd::string::*;

use crate::ast::{
    BridgeDecl, BridgeDeclV, BridgeKind, BridgeKindV, Expr, ExprKind, ExprKindV, ExprV, Module, ModuleItem, ModuleItemV, ModuleV,
    TheoryDecl, TheoryItem, TheoryItemV,
};
use crate::policy::{allowed, policy_violation, validate_policy};
use self::infer::infer_spec;
use crate::bridge::bridge_fits;
use crate::diagnostics::{error_model, error_with_help, Diagnostic, DiagnosticKind, DiagnosticV};
use crate::parser::expr::{byte_len, byte_pos, lemma_byte_pos_mono};
use crate::passport::record::passport_text;
use crate::passport::{Capability, Passport, PassportV, TrustLevel};
use crate::text::{chars_of, parse_u128, parse_u128_text, str_eq};

pub use crate::policy::CheckPolicy;

verus! {

/// A binding made by a `let` in a theory.
pub(crate) struct Binding {
    pub(crate) theory: String,
    pub(crate) name: String,
    pub(crate) value: Passport,
}

/// What inference reads: the bindings made so far, in order (a later binding of a
/// name in a theory hides an earlier one), and the module's bridges.
pub struct CheckEnv {
    pub scopes: Seq<(Seq<char>, Seq<char>, PassportV)>,
    pub bridges: Seq<BridgeDeclV>,
}

/// The checker's state.
pub struct Checker {
    pub(crate) policy: CheckPolicy,
    pub(crate) scopes: Vec<Binding>,
    pub(crate) bridges: Vec<BridgeDecl>,
    pub(crate) inferred: Vec<(String, Passport)>,
    pub(crate) diagnostics: Vec<Diagnostic>,
}

/// Model of the checker's state.
pub struct CheckerV {
    pub policy: CheckPolicy,
    pub env: CheckEnv,
    pub inferred: Seq<(Seq<char>, PassportV)>,
    pub diagnostics: Seq<DiagnosticV>,
}

spec fn binding_view(b: Binding) -> (Seq<char>, Seq<char>, PassportV) {
    (b.theory@, b.name@, b.value@)
}

spec fn scopes_view(s: Seq<Binding>) -> Seq<(Seq<char>, Seq<char>, PassportV)> {
    s.map_values(|b: Binding| binding_view(b))
}

pub open spec fn bridges_view(s: Seq<BridgeDecl>) -> Seq<BridgeDeclV> {
    s.map_values(|b: BridgeDecl| b@)
}

pub open spec fn inferred_view(s: Seq<(String, Passport)>) -> Seq<(Seq<char>, PassportV)> {
    s.map_values(|e: (String, Passport)| (e.0@, e.1@))
}

pub open spec fn diags_view(s: Seq<Diagnostic>) -> Seq<DiagnosticV> {
    s.map_values(|d: Diagnostic| d@)
}

impl View for Checker {
    type V = CheckerV;

    closed spec fn view(&self) -> CheckerV {
        CheckerV {
            policy: self.policy,
            env: CheckEnv { scopes: scopes_view(self.scopes@), bridges: bridges_view(self.bridges@) },
            inferred: inferred_view(self.inferred@),
            diagnostics: diags_view(self.diagnostics@),
        }
    }
}

/// The value bound to `name` in `theory`: the latest binding.
pub open spec fn lookup(scopes: Seq<(Seq<char>, Seq<char>, PassportV)>, theory: Seq<char>, name: Seq<char>) -> Option<PassportV>
    decreases scopes.len(),
{
    if scopes.len() == 0 {
        None
    } else if scopes.last().0 == theory && scopes.last().1 == name {
        Some(scopes.last().2)
    } else {
        lookup(scopes.drop_last(), theory, name)
    }
}

/// The first bridge from `source` to `target` of kind `kind`.
pub open spec fn first_bridge(bridges: Seq<BridgeDeclV>, source: Seq<char>, target: Seq<char>, kind: BridgeKindV) -> Option<BridgeDeclV>
    decreases bridges.len(),
{
    if bridges.len() == 0 {
        None
    } else if bridge_fits(bridges[0], source, target, kind) {
        Some(bridges[0])
    } else {
        first_bridge(bridges.drop_first(), source, target, kind)
    }
}

/// The error `require_capability` gives, if the passport lacks the capability.
pub open spec fn cap_error(p: PassportV, cap: Capability, line: usize, reason: Seq<char>) -> Option<DiagnosticV> {
    if p.capabilities.contains(cap) {
        None
    } else {
        Some(error_with_help(
            DiagnosticKind::AccessError,
            line,
            reason,
            "value passport: "@ + passport_text(p) + "\n  missing capability: "@ + cap.debug_text(),
        ))
    }
}

/// The number an integer-literal expression denotes, if it is one that fits a `u128`.
pub open spec fn literal_of(e: ExprV) -> Option<u128> {
    match e.kind {
        ExprKindV::IntLiteral(v) => parse_u128_text(v),
        _ => None,
    }
}

/// The model of a result of inference.
pub open spec fn passport_result(r: Result<Passport, Diagnostic>) -> Result<PassportV, DiagnosticV> {
    match r {
        Ok(p) => Ok(p@),
        Err(d) => Err(d@),
    }
}

impl Checker {
    pub fn new() -> (r: Self)
        ensures
            r@.policy.max_trust == TrustLevel::Axiom,
            r@.env.scopes.len() == 0,
            r@.env.bridges.len() == 0,
            r@.inferred.len() == 0,
            r@.diagnostics.len() == 0,
    {
        Self::with_policy(CheckPolicy::research())
    }

    pub fn with_policy(policy: CheckPolicy) -> (r: Self)
        ensures
            r@.policy == policy,
            r@.env.scopes.len() == 0,
            r@.env.bridges.len() == 0,
            r@.inferred.len() == 0,
            r@.diagnostics.len() == 0,
    {
        Checker {
            policy,
            scopes: Vec::new(),
            bridges: Vec::new(),
            inferred: Vec::new(),
            diagnostics: Vec::new(),
        }
    }

    /// The value bound to `name` in `theory`.
    pub(crate) fn lookup_value(&self, theory: &str, name: &str) -> (r: Option<Passport>)
        ensures
            lookup(self@.env.scopes, theory@, name@) == (match r {
                Some(p) => Some(p@),
                None => None::<PassportV>,
            }),
    {
        let ghost sv = self@.env.scopes;
        let mut k = self.scopes.len();
        assert(sv.take(k as int) =~= sv);
        while k > 0
            invariant
                k <= self.scopes.len(),
                sv == scopes_view(self.scopes@),
                lookup(sv, theory@, name@) == lookup(sv.take(k as int), theory@, name@),
            decreases k,
        {
            let b = &self.scopes[k - 1];
            assert(sv.take(k as int).last() == binding_view(self.scopes@[k - 1]));
            assert(sv.take(k as int).drop_last() =~= sv.take(k - 1));
            if str_eq(b.theory.as_str(), theory) && str_eq(b.name.as_str(), name) {
                return Some(b.value.clone());
            }
            k = k - 1;
        }
        None
    }

    /// The name of the first bridge from `source` to `target` of kind `kind`.
    pub(crate) fn bridge_name(&self, source: &str, target: &str, kind: BridgeKind) -> (r: Option<String>)
        ensures
            (match first_bridge(self@.env.bridges, source@, target@, kind@) {
                Some(b) => Some(b.name),
                None => None::<Seq<char>>,
            }) == (match r {
                Some(n) => Some(n@),
                None => None::<Seq<char>>,
            }),
    {
        let ghost bv = self@.env.bridges;
        let mut i: usize = 0;
        assert(bv.subrange(0, bv.len() as int) =~= bv);
        while i < self.bridges.len()
            invariant
                i <= self.bridges.len(),
                bv == bridges_view(self.bridges@),
                first_bridge(bv, source@, target@, kind@) == first_bridge(bv.subrange(i as int, bv.len() as int), source@, target@, kind@),
            decreases self.bridges.len() - i,
        {
            let b = &self.bridges[i];
            let ghost rest = bv.subrange(i as int, bv.len() as int);
            assert(rest[0] == b@);
            assert(rest.drop_first() =~= bv.subrange(i + 1, bv.len() as int));
            if str_eq(b.source.as_str(), source) && str_eq(b.target.as_str(), target) && b.kind.same_as(&kind) {
                return Some(b.name.clone());
            }
            i = i + 1;
        }
        None
    }
}

/// `literal_u128`: the number an integer literal denotes.
pub(crate) fn literal_u128(expr: &Expr) -> (r: Option<u128>)
    ensures
        r == literal_of(expr@),
{
    match &expr.kind {
        ExprKind::IntLiteral(v) => parse_u128(v.as_str()),
        _ => None,
    }
}

/// The text takes at most `k` bytes in UTF-8.
pub(crate) fn byte_len_at_most(s: &str, k: usize) -> (r: bool)
    ensures
        r == (byte_len(s@) <= k),
{
    let cs = chars_of(s);
    let mut acc: usize = 0;
    let mut i: usize = 0;
    proof {
        assert(s@.take(0) =~= Seq::<char>::empty());
        assert(s@.take(s@.len() as int) =~= s@);
    }
    while i < cs.len()
        invariant
            cs@ == s@,
            i <= cs.len(),
            acc == byte_pos(s@, i as int),
            acc <= k,
            byte_pos(s@, s@.len() as int) == byte_len(s@),
        decreases cs.len() - i,
    {
        proof {
            assert(s@.take(i + 1).drop_last() =~= s@.take(i as int));
            lemma_byte_pos_mono(s@, i + 1, s@.len() as int);
        }
        let w = crate::parser::expr::char_width_of(cs[i]);
        if w > k - acc {
            return false;
        }
        acc = acc + w;
        i = i + 1;
    }
    true
}


/// What checking has gathered: bindings, inferred values and diagnostics.
pub struct CheckStateV {
    pub scopes: Seq<(Seq<char>, Seq<char>, PassportV)>,
    pub inferred: Seq<(Seq<char>, PassportV)>,
    pub diags: Seq<DiagnosticV>,
}

/// Checking one item of theory `theory`: a `let` is inferred, checked against the
/// policy and bound; a statement is inferred and checked against the policy.
pub open spec fn check_item(policy: CheckPolicy, bridges: Seq<BridgeDeclV>, st: CheckStateV, theory: Seq<char>, item: TheoryItemV) -> CheckStateV {
    let env = CheckEnv { scopes: st.scopes, bridges };
    match item {
        TheoryItemV::Let(d) => match infer_spec(env, d.expr, theory) {
            Ok(p) => CheckStateV {
                scopes: st.scopes.push((theory, d.name, p)),
                inferred: st.inferred.push((theory + "."@ + d.name, p)),
                diags: if allowed(policy, p.trust) {
                    st.diags
                } else {
                    st.diags.push(policy_violation(p.trust, policy, d.line, passport_text(p)))
                },
            },
            Err(e) => CheckStateV { diags: st.diags.push(e), ..st },
        },
        TheoryItemV::Expr(e) => match infer_spec(env, e, theory) {
            Ok(p) => if allowed(policy, p.trust) {
                st
            } else {
                CheckStateV { diags: st.diags.push(policy_violation(p.trust, policy, e.line, passport_text(p))), ..st }
            },
            Err(d) => CheckStateV { diags: st.diags.push(d), ..st },
        },
    }
}

/// Checking the first `n` items of theory `theory`.
pub open spec fn check_items(policy: CheckPolicy, bridges: Seq<BridgeDeclV>, st: CheckStateV, theory: Seq<char>, items: Seq<TheoryItemV>, n: int) -> CheckStateV
    decreases n,
{
    if n <= 0 {
        st
    } else {
        check_item(policy, bridges, check_items(policy, bridges, st, theory, items, n - 1), theory, items[n - 1])
    }
}

/// Checking the theories among the first `n` items of a module.
pub open spec fn check_theories(policy: CheckPolicy, bridges: Seq<BridgeDeclV>, st: CheckStateV, items: Seq<ModuleItemV>, n: int) -> CheckStateV
    decreases n,
{
    if n <= 0 {
        st
    } else {
        let before = check_theories(policy, bridges, st, items, n - 1);
        match items[n - 1] {
            ModuleItemV::Theory(t) => check_items(policy, bridges, before, t.name, t.items, t.items.len() as int),
            ModuleItemV::Bridge(_) => before,
        }
    }
}

/// The bridges among the first `n` items of a module, in order.
pub open spec fn module_bridges(items: Seq<ModuleItemV>, n: int) -> Seq<BridgeDeclV>
    decreases n,
{
    if n <= 0 {
        Seq::empty()
    } else {
        match items[n - 1] {
            ModuleItemV::Bridge(b) => module_bridges(items, n - 1).push(b),
            ModuleItemV::Theory(_) => module_bridges(items, n - 1),
        }
    }
}

/// The number of theories among the first `n` items of a module.
pub open spec fn theory_count(items: Seq<ModuleItemV>, n: int) -> nat
    decreases n,
{
    if n <= 0 {
        0
    } else {
        match items[n - 1] {
            ModuleItemV::Theory(_) => theory_count(items, n - 1) + 1,
            ModuleItemV::Bridge(_) => theory_count(items, n - 1),
        }
    }
}

/// Model of a `CheckReport`.
pub struct CheckReportV {
    pub module_name: Seq<char>,
    pub theory_count: nat,
    pub value_count: nat,
    pub inferred: Seq<(Seq<char>, PassportV)>,
    pub bridges: Seq<BridgeDeclV>,
    pub diagnostics: Seq<DiagnosticV>,
}

/// The report of checking module `m` from state `st` under `policy`.
pub open spec fn check_module_spec(policy: CheckPolicy, st: CheckStateV, m: ModuleV) -> CheckReportV {
    let bridges = module_bridges(m.items, m.items.len() as int);
    let end = check_theories(policy, bridges, st, m.items, m.items.len() as int);
    CheckReportV {
        module_name: m.name,
        theory_count: theory_count(m.items, m.items.len() as int),
        value_count: end.inferred.len(),
        inferred: end.inferred,
        bridges,
        diagnostics: end.diags,
    }
}

/// Every inferred value is within the policy, unless a diagnostic was reported.
pub open spec fn clean_within_policy(policy: CheckPolicy, inferred: Seq<(Seq<char>, PassportV)>, diags: Seq<DiagnosticV>) -> bool {
    diags.len() > 0 || forall|i: int| 0 <= i < inferred.len() ==> allowed(policy, #[trigger] inferred[i].1.trust)
}

/// The result of checking a module.
#[derive(Debug)]
pub struct CheckReport {
    pub module_name: String,
    pub theory_count: usize,
    pub value_count: usize,
    pub inferred: Vec<(String, Passport)>,
    pub bridges: Vec<BridgeDecl>,
    pub diagnostics: Vec<Diagnostic>,
}

impl View for CheckReport {
    type V = CheckReportV;

    open spec fn view(&self) -> CheckReportV {
        CheckReportV {
            module_name: self.module_name@,
            theory_count: self.theory_count as nat,
            value_count: self.value_count as nat,
            inferred: inferred_view(self.inferred@),
            bridges: bridges_view(self.bridges@),
            diagnostics: diags_view(self.diagnostics@),
        }
    }
}

impl CheckReport {
    /// The module checked without any diagnostic.
    pub fn ok(&self) -> (r: bool)
        ensures
            r == (self@.diagnostics.len() == 0),
    {
        self.diagnostics.len() == 0
    }
}

proof fn lemma_check_item_clean(policy: CheckPolicy, bridges: Seq<BridgeDeclV>, st: CheckStateV, theory: Seq<char>, item: TheoryItemV)
    requires
        clean_within_policy(policy, st.inferred, st.diags),
    ensures
        clean_within_policy(policy, check_item(policy, bridges, st, theory, item).inferred, check_item(policy, bridges, st, theory, item).diags),
        check_item(policy, bridges, st, theory, item).diags.len() >= st.diags.len(),
{
    let r = check_item(policy, bridges, st, theory, item);
    if r.diags.len() == 0 {
        assert forall|i: int| 0 <= i < r.inferred.len() implies allowed(policy, #[trigger] r.inferred[i].1.trust) by {
            if i < st.inferred.len() {
                assert(r.inferred[i] == st.inferred[i]);
            }
        }
    }
}

proof fn lemma_check_items_clean(policy: CheckPolicy, bridges: Seq<BridgeDeclV>, st: CheckStateV, theory: Seq<char>, items: Seq<TheoryItemV>, n: int)
    requires
        clean_within_policy(policy, st.inferred, st.diags),
    ensures
        clean_within_policy(policy, check_items(policy, bridges, st, theory, items, n).inferred, check_items(policy, bridges, st, theory, items, n).diags),
    decreases n,
{
    if n > 0 {
        lemma_check_items_clean(policy, bridges, st, theory, items, n - 1);
        lemma_check_item_clean(policy, bridges, check_items(policy, bridges, st, theory, items, n - 1), theory, items[n - 1]);
    }
}

/// A clean report vouches for its values: when checking a module reports no
/// diagnostic, every value it inferred is within the policy's trust bound.
pub proof fn lemma_clean_report_within_policy(policy: CheckPolicy, st: CheckStateV, m: ModuleV)
    requires
        clean_within_policy(policy, st.inferred, st.diags),
    ensures
        check_module_spec(policy, st, m).diagnostics.len() == 0 ==> forall|i: int|
            0 <= i < check_module_spec(policy, st, m).inferred.len() ==> allowed(policy, #[trigger] check_module_spec(policy, st, m).inferred[i].1.trust),
        check_module_spec(policy, st, m).diagnostics.len() == 0 ==> forall|i: int|
            0 <= i < check_module_spec(policy, st, m).inferred.len() ==> (#[trigger] check_module_spec(policy, st, m).inferred[i].1.trust).rank()
                <= policy.max_trust.rank(),
{
    let bridges = module_bridges(m.items, m.items.len() as int);
    lemma_check_theories_clean(policy, bridges, st, m.items, m.items.len() as int);
}

proof fn lemma_check_theories_clean(policy: CheckPolicy, bridges: Seq<BridgeDeclV>, st: CheckStateV, items: Seq<ModuleItemV>, n: int)
    requires
        clean_within_policy(policy, st.inferred, st.diags),
    ensures
        clean_within_policy(policy, check_theories(policy, bridges, st, items, n).inferred, check_theories(policy, bridges, st, items, n).diags),
    decreases n,
{
    if n > 0 {
        lemma_check_theories_clean(policy, bridges, st, items, n - 1);
        let before = check_theories(policy, bridges, st, items, n - 1);
        match items[n - 1] {
            ModuleItemV::Theory(t) => {
                lemma_check_items_clean(policy, bridges, before, t.name, t.items, t.items.len() as int);
            },
            ModuleItemV::Bridge(_) => {},
        }
    }
}

impl Checker {
    /// The state checking starts from.
    pub open spec fn start_state(self) -> CheckStateV {
        CheckStateV { scopes: self@.env.scopes, inferred: self@.inferred, diags: self@.diagnostics }
    }

    /// Checks every theory of `module`, in order, with the module's bridges in scope.
    pub fn check_module(self, module: &Module) -> (r: CheckReport)
        ensures
            r@ == check_module_spec(self@.policy, self.start_state(), module@),
            clean_within_policy(self@.policy, self@.inferred, self@.diagnostics) ==> clean_within_policy(
                self@.policy,
                r@.inferred,
                r@.diagnostics,
            ),
            clean_within_policy(self@.policy, self@.inferred, self@.diagnostics) && r@.diagnostics.len() == 0 ==> forall|i: int|
                0 <= i < r@.inferred.len() ==> (#[trigger] r@.inferred[i].1.trust).rank() <= self@.policy.max_trust.rank(),
    {
        let mut checker = self;
        let ghost items = module@.items;
        let ghost st0 = checker.start_state();
        let mut bridges: Vec<BridgeDecl> = Vec::new();
        let mut i: usize = 0;
        assert(bridges_view(bridges@) =~= Seq::<BridgeDeclV>::empty());
        while i < module.items.len()
            invariant
                items == module@.items,
                items == module.items@.map_values(|x: ModuleItem| x@),
                i <= module.items.len(),
                bridges_view(bridges@) == module_bridges(items, i as int),
            decreases module.items.len() - i,
        {
            match &module.items[i] {
                ModuleItem::Bridge(b) => {
                    let ghost old = bridges@;
                    bridges.push(b.clone());
                    assert(bridges_view(bridges@) =~= bridges_view(old).push(b@));
                },
                ModuleItem::Theory(_) => {},
            }
            i = i + 1;
        }
        checker.bridges = bridges;
        let ghost bv = module_bridges(items, items.len() as int);
        let mut theory_total: usize = 0;
        let mut k: usize = 0;
        while k < module.items.len()
            invariant
                items == module@.items,
                items == module.items@.map_values(|x: ModuleItem| x@),
                k <= module.items.len(),
                checker@.env.bridges == bv,
                checker@.policy == self@.policy,
                theory_total as nat == theory_count(items, k as int),
                theory_total <= k,
                (CheckStateV { scopes: checker@.env.scopes, inferred: checker@.inferred, diags: checker@.diagnostics })
                    == check_theories(self@.policy, bv, st0, items, k as int),
            decreases module.items.len() - k,
        {
            match &module.items[k] {
                ModuleItem::Theory(theory) => {
                    theory_total = theory_total + 1;
                    checker.check_theory(theory);
                },
                ModuleItem::Bridge(_) => {},
            }
            k = k + 1;
        }
        proof {
            if clean_within_policy(self@.policy, st0.inferred, st0.diags) {
                lemma_check_theories_clean(self@.policy, bv, st0, items, items.len() as int);
            }
        }
        let value_count = checker.inferred.len();
        CheckReport {
            module_name: module.name.clone(),
            theory_count: theory_total,
            value_count,
            inferred: checker.inferred,
            bridges: checker.bridges,
            diagnostics: checker.diagnostics,
        }
    }

    /// Checks the items of one theory, in order.
    fn check_theory(&mut self, theory: &TheoryDecl)
        ensures
            final(self)@.policy == old(self)@.policy,
            final(self)@.env.bridges == old(self)@.env.bridges,
            (CheckStateV { scopes: final(self)@.env.scopes, inferred: final(self)@.inferred, diags: final(self)@.diagnostics })
                == check_items(
                old(self)@.policy,
                old(self)@.env.bridges,
                old(self).start_state(),
                theory@.name,
                theory@.items,
                theory@.items.len() as int,
            ),
    {
        let ghost items = theory@.items;
        let ghost st0 = self.start_state();
        let mut i: usize = 0;
        while i < theory.items.len()
            invariant
                items == theory@.items,
                items == theory.items@.map_values(|x: TheoryItem| x@),
                i <= theory.items.len(),
                self@.policy == old(self)@.policy,
                self@.env.bridges == old(self)@.env.bridges,
                st0 == old(self).start_state(),
                self.start_state() == check_items(old(self)@.policy, old(self)@.env.bridges, st0, theory@.name, items, i as int),
            decreases theory.items.len() - i,
        {
            self.check_one(theory.name.as_str(), &theory.items[i]);
            i = i + 1;
        }
    }

    /// Checks one item of a theory.
    fn check_one(&mut self, theory: &str, item: &TheoryItem)
        ensures
            final(self)@.policy == old(self)@.policy,
            final(self)@.env.bridges == old(self)@.env.bridges,
            final(self).start_state() == check_item(old(self)@.policy, old(self)@.env.bridges, old(self).start_state(), theory@, item@),
    {
        match item {
            TheoryItem::Let(let_decl) => match self.infer_expr(&let_decl.expr, theory) {
                Ok(passport) => {
                    match validate_policy(&passport, self.policy, let_decl.line) {
                        Ok(()) => {},
                        Err(diag) => {
                            let ghost old_d = self.diagnostics@;
                            self.diagnostics.push(diag);
                            assert(diags_view(self.diagnostics@) =~= diags_view(old_d).push(diag@));
                        },
                    }
                    let ghost old_s = self.scopes@;
                    let ghost old_i = self.inferred@;
                    let ghost pv = passport@;
                    self.scopes.push(Binding {
                        theory: String::from_str(theory),
                        name: let_decl.name.clone(),
                        value: passport.clone(),
                    });
                    assert(scopes_view(self.scopes@) =~= scopes_view(old_s).push((theory@, let_decl.name@, pv)));
                    let mut full = String::from_str(theory);
                    full.append(".");
                    full.append(let_decl.name.as_str());
                    self.inferred.push((full, passport));
                    assert(inferred_view(self.inferred@) =~= inferred_view(old_i).push((theory@ + "."@ + let_decl.name@, pv)));
                },
                Err(diag) => {
                    let ghost old_d = self.diagnostics@;
                    self.diagnostics.push(diag);
                    assert(diags_view(self.diagnostics@) =~= diags_view(old_d).push(diag@));
                },
            },
            TheoryItem::Expr(expr) => match self.infer_expr(expr, theory) {
                Ok(passport) => {
                    match validate_policy(&passport, self.policy, expr.line) {
                        Ok(()) => {},
                        Err(diag) => {
                            let ghost old_d = self.diagnostics@;
                            self.diagnostics.push(diag);
                            assert(diags_view(self.diagnostics@) =~= diags_view(old_d).push(diag@));
                        },
                    }
                },
                Err(diag) => {
                    let ghost old_d = self.diagnostics@;
                    self.diagnostics.push(diag);
                    assert(diags_view(self.diagnostics@) =~= diags_view(old_d).push(diag@));
                },
            },
        }
    }
}

} // verus!
