//! Syntax tree of a module, as the parser produces it.

use vstd::prelude::*;
use vstd::string::*;

verus! {

#[derive(Debug)]
pub struct Module {
    pub name: String,
    pub imports: Vec<ImportDecl>,
    pub items: Vec<ModuleItem>,
}

#[derive(Debug)]
pub struct ImportDecl {
    pub path: String,
}

#[derive(Debug)]
pub enum ModuleItem {
    Theory(TheoryDecl),
    Bridge(BridgeDecl),
}

#[derive(Debug)]
pub struct TheoryDecl {
    pub name: String,
    pub items: Vec<TheoryItem>,
}

#[derive(Debug)]
pub enum TheoryItem {
    Let(LetDecl),
    Expr(Expr),
}

#[derive(Debug)]
pub struct LetDecl {
    pub name: String,
    pub expr: Expr,
    pub line: usize,
}

#[derive(Debug)]
pub struct BridgeDecl {
    pub name: String,
    pub source: String,
    pub target: String,
    pub kind: BridgeKind,
    pub line: usize,
}

/// What a bridge between two theories is declared to be.
#[derive(Debug)]
pub enum BridgeKind {
    Definitional,
    Conservative,
    Quote,
    Transport,
    Soundness,
    Reflection,
    Migration,
    Materialize,
    Unsafe,
    Unknown(String),
}

/// Model of a `BridgeKind`.
pub enum BridgeKindV {
    Definitional,
    Conservative,
    Quote,
    Transport,
    Soundness,
    Reflection,
    Migration,
    Materialize,
    Unsafe,
    Unknown(Seq<char>),
}

impl View for BridgeKind {
    type V = BridgeKindV;

    open spec fn view(&self) -> BridgeKindV {
        match self {
            BridgeKind::Definitional => BridgeKindV::Definitional,
            BridgeKind::Conservative => BridgeKindV::Conservative,
            BridgeKind::Quote => BridgeKindV::Quote,
            BridgeKind::Transport => BridgeKindV::Transport,
            BridgeKind::Soundness => BridgeKindV::Soundness,
            BridgeKind::Reflection => BridgeKindV::Reflection,
            BridgeKind::Migration => BridgeKindV::Migration,
            BridgeKind::Materialize => BridgeKindV::Materialize,
            BridgeKind::Unsafe => BridgeKindV::Unsafe,
            BridgeKind::Unknown(name) => BridgeKindV::Unknown(name@),
        }
    }
}

/// The name of a bridge kind (`as_str`).
pub open spec fn bridge_kind_text(k: BridgeKindV) -> Seq<char> {
    match k {
        BridgeKindV::Definitional => "definitional"@,
        BridgeKindV::Conservative => "conservative"@,
        BridgeKindV::Quote => "quote"@,
        BridgeKindV::Transport => "transport"@,
        BridgeKindV::Soundness => "soundness"@,
        BridgeKindV::Reflection => "reflection"@,
        BridgeKindV::Migration => "migration"@,
        BridgeKindV::Materialize => "materialize"@,
        BridgeKindV::Unsafe => "unsafe"@,
        BridgeKindV::Unknown(name) => name,
    }
}

impl Clone for BridgeKind {
    fn clone(&self) -> (r: Self)
        ensures
            r@ == self@,
    {
        self.duplicate()
    }
}

impl BridgeKind {
    pub fn as_str(&self) -> (r: &str)
        ensures
            r@ == bridge_kind_text(self@),
    {
        match self {
            BridgeKind::Definitional => "definitional",
            BridgeKind::Conservative => "conservative",
            BridgeKind::Quote => "quote",
            BridgeKind::Transport => "transport",
            BridgeKind::Soundness => "soundness",
            BridgeKind::Reflection => "reflection",
            BridgeKind::Migration => "migration",
            BridgeKind::Materialize => "materialize",
            BridgeKind::Unsafe => "unsafe",
            BridgeKind::Unknown(name) => name.as_str(),
        }
    }

    pub fn duplicate(&self) -> (r: Self)
        ensures
            r@ == self@,
    {
        match self {
            BridgeKind::Definitional => BridgeKind::Definitional,
            BridgeKind::Conservative => BridgeKind::Conservative,
            BridgeKind::Quote => BridgeKind::Quote,
            BridgeKind::Transport => BridgeKind::Transport,
            BridgeKind::Soundness => BridgeKind::Soundness,
            BridgeKind::Reflection => BridgeKind::Reflection,
            BridgeKind::Migration => BridgeKind::Migration,
            BridgeKind::Materialize => BridgeKind::Materialize,
            BridgeKind::Unsafe => BridgeKind::Unsafe,
            BridgeKind::Unknown(name) => BridgeKind::Unknown(name.clone()),
        }
    }

    /// Equality of bridge kinds (`==`).
    pub fn same_as(&self, other: &BridgeKind) -> (r: bool)
        ensures
            r == (self@ == other@),
    {
        match self {
            BridgeKind::Definitional => match other {
                BridgeKind::Definitional => true,
                _ => {
                    assert(!(other@ is Definitional));
                    false
                },
            },
            BridgeKind::Conservative => match other {
                BridgeKind::Conservative => true,
                _ => false,
            },
            BridgeKind::Quote => match other {
                BridgeKind::Quote => true,
                _ => false,
            },
            BridgeKind::Transport => match other {
                BridgeKind::Transport => true,
                _ => false,
            },
            BridgeKind::Soundness => match other {
                BridgeKind::Soundness => true,
                _ => false,
            },
            BridgeKind::Reflection => match other {
                BridgeKind::Reflection => true,
                _ => false,
            },
            BridgeKind::Migration => match other {
                BridgeKind::Migration => true,
                _ => false,
            },
            BridgeKind::Materialize => match other {
                BridgeKind::Materialize => true,
                _ => false,
            },
            BridgeKind::Unsafe => match other {
                BridgeKind::Unsafe => true,
                _ => false,
            },
            BridgeKind::Unknown(a) => match other {
                BridgeKind::Unknown(b) => crate::text::str_eq(a.as_str(), b.as_str()),
                _ => false,
            },
        }
    }
}

/// Model of a `BridgeDecl`.
pub struct BridgeDeclV {
    pub name: Seq<char>,
    pub source: Seq<char>,
    pub target: Seq<char>,
    pub kind: BridgeKindV,
    pub line: usize,
}

impl View for BridgeDecl {
    type V = BridgeDeclV;

    open spec fn view(&self) -> BridgeDeclV {
        BridgeDeclV {
            name: self.name@,
            source: self.source@,
            target: self.target@,
            kind: self.kind@,
            line: self.line,
        }
    }
}

impl Clone for BridgeDecl {
    fn clone(&self) -> (r: Self)
        ensures
            r@ == self@,
    {
        self.duplicate()
    }
}

impl BridgeDecl {
    pub fn duplicate(&self) -> (r: Self)
        ensures
            r@ == self@,
    {
        BridgeDecl {
            name: self.name.clone(),
            source: self.source.clone(),
            target: self.target.clone(),
            kind: self.kind.duplicate(),
            line: self.line,
        }
    }
}

/// An expression, with the line it stands on.
#[derive(Debug)]
pub struct Expr {
    pub kind: ExprKind,
    pub line: usize,
}

#[derive(Debug)]
pub enum ExprKind {
    IntLiteral(String),
    Ident(String),
    QualifiedIdent { theory: String, name: String },
    Power { base: Box<Expr>, exp: Box<Expr> },
    Add { lhs: Box<Expr>, rhs: Box<Expr> },
    Call { name: String, args: Vec<Expr> },
    CompareGt { lhs: Box<Expr>, rhs: Box<Expr> },
}

/// Model of an `Expr`.
pub struct ExprV {
    pub kind: ExprKindV,
    pub line: usize,
}

/// Model of an `ExprKind`.
pub enum ExprKindV {
    IntLiteral(Seq<char>),
    Ident(Seq<char>),
    QualifiedIdent { theory: Seq<char>, name: Seq<char> },
    Power { base: Box<ExprV>, exp: Box<ExprV> },
    Add { lhs: Box<ExprV>, rhs: Box<ExprV> },
    Call { name: Seq<char>, args: Seq<ExprV> },
    CompareGt { lhs: Box<ExprV>, rhs: Box<ExprV> },
}

/// The model of an expression.
pub open spec fn expr_model(e: Expr) -> ExprV
    decreases e, 1nat,
{
    ExprV {
        kind: match e.kind {
            ExprKind::IntLiteral(v) => ExprKindV::IntLiteral(v@),
            ExprKind::Ident(v) => ExprKindV::Ident(v@),
            ExprKind::QualifiedIdent { theory, name } => ExprKindV::QualifiedIdent { theory: theory@, name: name@ },
            ExprKind::Power { base, exp } => ExprKindV::Power {
                base: Box::new(expr_model(*base)),
                exp: Box::new(expr_model(*exp)),
            },
            ExprKind::Add { lhs, rhs } => ExprKindV::Add {
                lhs: Box::new(expr_model(*lhs)),
                rhs: Box::new(expr_model(*rhs)),
            },
            ExprKind::Call { name, args } => ExprKindV::Call {
                name: name@,
                args: args_model(args@),
            },
            ExprKind::CompareGt { lhs, rhs } => ExprKindV::CompareGt {
                lhs: Box::new(expr_model(*lhs)),
                rhs: Box::new(expr_model(*rhs)),
            },
        },
        line: e.line,
    }
}

/// The models of a sequence of expressions.
pub open spec fn args_model(args: Seq<Expr>) -> Seq<ExprV>
    decreases args, 0nat,
{
    if args.len() == 0 {
        Seq::empty()
    } else {
        args_model(args.drop_last()).push(expr_model(args.last()))
    }
}

impl View for Expr {
    type V = ExprV;

    open spec fn view(&self) -> ExprV {
        expr_model(*self)
    }
}

impl Expr {
    pub fn int_literal(value: &str, line: usize) -> (r: Self)
        ensures
            r@ == (ExprV { kind: ExprKindV::IntLiteral(value@), line }),
    {
        Expr { kind: ExprKind::IntLiteral(String::from_str(value)), line }
    }

    pub fn ident(name: &str, line: usize) -> (r: Self)
        ensures
            r@ == (ExprV { kind: ExprKindV::Ident(name@), line }),
    {
        Expr { kind: ExprKind::Ident(String::from_str(name)), line }
    }
}


/// Model of a `LetDecl`.
pub struct LetDeclV {
    pub name: Seq<char>,
    pub expr: ExprV,
    pub line: usize,
}

impl View for LetDecl {
    type V = LetDeclV;

    open spec fn view(&self) -> LetDeclV {
        LetDeclV { name: self.name@, expr: self.expr@, line: self.line }
    }
}

/// Model of a `TheoryItem`.
pub enum TheoryItemV {
    Let(LetDeclV),
    Expr(ExprV),
}

impl View for TheoryItem {
    type V = TheoryItemV;

    open spec fn view(&self) -> TheoryItemV {
        match self {
            TheoryItem::Let(d) => TheoryItemV::Let(d@),
            TheoryItem::Expr(e) => TheoryItemV::Expr(e@),
        }
    }
}

/// Model of a `TheoryDecl`.
pub struct TheoryDeclV {
    pub name: Seq<char>,
    pub items: Seq<TheoryItemV>,
}

impl View for TheoryDecl {
    type V = TheoryDeclV;

    open spec fn view(&self) -> TheoryDeclV {
        TheoryDeclV { name: self.name@, items: self.items@.map_values(|i: TheoryItem| i@) }
    }
}

/// Model of a `ModuleItem`.
pub enum ModuleItemV {
    Theory(TheoryDeclV),
    Bridge(BridgeDeclV),
}

impl View for ModuleItem {
    type V = ModuleItemV;

    open spec fn view(&self) -> ModuleItemV {
        match self {
            ModuleItem::Theory(t) => ModuleItemV::Theory(t@),
            ModuleItem::Bridge(b) => ModuleItemV::Bridge(b@),
        }
    }
}

/// Model of a `Module`: its name, its import paths and its items.
pub struct ModuleV {
    pub name: Seq<char>,
    pub imports: Seq<Seq<char>>,
    pub items: Seq<ModuleItemV>,
}

impl View for Module {
    type V = ModuleV;

    open spec fn view(&self) -> ModuleV {
        ModuleV {
            name: self.name@,
            imports: self.imports@.map_values(|i: ImportDecl| i.path@),
            items: self.items@.map_values(|i: ModuleItem| i@),
        }
    }
}

} // verus!
