//! Diagnostics: what the checker and its passes report.

use vstd::prelude::*;
use vstd::string::*;

use crate::text::{dec_text, usize_text};

verus! {

#[derive(Debug, Clone, Copy, PartialEq, Eq, Structural)]
pub enum Severity {
    Error,
    Warning,
    Info,
}

impl Severity {
    pub open spec fn display_text(self) -> Seq<char> {
        match self {
            Severity::Error => "error"@,
            Severity::Warning => "warning"@,
            Severity::Info => "info"@,
        }
    }

    pub fn display_str(self) -> (r: &'static str)
        ensures
            r@ == self.display_text(),
    {
        match self {
            Severity::Error => "error",
            Severity::Warning => "warning",
            Severity::Info => "info",
        }
    }
}

/// Category of a diagnostic.
#[derive(Debug, Clone, Copy, PartialEq, Eq, Structural, PartialOrd, Ord, Hash)]
pub enum DiagnosticKind {
    ParseError,
    NameError,
    AccessError,
    TheoryBridgeError,
    NoAmbientTheoryError,
    UnsupportedFeature,
    RuntimeStaticMismatch,
    TrustTaintError,
    RuntimeError,
    InfinityModeError,
    EqualityModeError,
    MigrationBridgeError,
    DistributedResourceError,
    UniverseLevelError,
    DefinabilityError,
    BigNumberError,
    ProofKernelError,
    TruthBoundaryError,
    IncompletenessBoundaryError,
    ReflectionBoundaryError,
    MetaLevelError,
    StatementTheoremError,
    ProofObligationError,
    TacticScriptError,
    ProofCertificateError,
    ProofCertificateAuditError,
    EqualityRewriteError,
    RewriteNormalizationError,
    InductionError,
    ModuleImportError,
    ModuleInterfaceError,
    MetatheoryDependencyError,
    MetatheoryClosureError,
    ConservativeExtensionError,
    TheoremDependencyError,
    SoundnessBoundaryError,
    TrustedBaseError,
    MetatheoryFoundationError,
    LogicFormulaError,
    FunctionTermError,
    FunctionContractError,
    PartialityTypeError,
}

impl DiagnosticKind {
    /// Position in declaration order (the order that `Ord` compares by).
    pub open spec fn spec_rank(self) -> u8 {
        match self {
            DiagnosticKind::ParseError => 0,
            DiagnosticKind::NameError => 1,
            DiagnosticKind::AccessError => 2,
            DiagnosticKind::TheoryBridgeError => 3,
            DiagnosticKind::NoAmbientTheoryError => 4,
            DiagnosticKind::UnsupportedFeature => 5,
            DiagnosticKind::RuntimeStaticMismatch => 6,
            DiagnosticKind::TrustTaintError => 7,
            DiagnosticKind::RuntimeError => 8,
            DiagnosticKind::InfinityModeError => 9,
            DiagnosticKind::EqualityModeError => 10,
            DiagnosticKind::MigrationBridgeError => 11,
            DiagnosticKind::DistributedResourceError => 12,
            DiagnosticKind::UniverseLevelError => 13,
            DiagnosticKind::DefinabilityError => 14,
            DiagnosticKind::BigNumberError => 15,
            DiagnosticKind::ProofKernelError => 16,
            DiagnosticKind::TruthBoundaryError => 17,
            DiagnosticKind::IncompletenessBoundaryError => 18,
            DiagnosticKind::ReflectionBoundaryError => 19,
            DiagnosticKind::MetaLevelError => 20,
            DiagnosticKind::StatementTheoremError => 21,
            DiagnosticKind::ProofObligationError => 22,
            DiagnosticKind::TacticScriptError => 23,
            DiagnosticKind::ProofCertificateError => 24,
            DiagnosticKind::ProofCertificateAuditError => 25,
            DiagnosticKind::EqualityRewriteError => 26,
            DiagnosticKind::RewriteNormalizationError => 27,
            DiagnosticKind::InductionError => 28,
            DiagnosticKind::ModuleImportError => 29,
            DiagnosticKind::ModuleInterfaceError => 30,
            DiagnosticKind::MetatheoryDependencyError => 31,
            DiagnosticKind::MetatheoryClosureError => 32,
            DiagnosticKind::ConservativeExtensionError => 33,
            DiagnosticKind::TheoremDependencyError => 34,
            DiagnosticKind::SoundnessBoundaryError => 35,
            DiagnosticKind::TrustedBaseError => 36,
            DiagnosticKind::MetatheoryFoundationError => 37,
            DiagnosticKind::LogicFormulaError => 38,
            DiagnosticKind::FunctionTermError => 39,
            DiagnosticKind::FunctionContractError => 40,
            DiagnosticKind::PartialityTypeError => 41,
        }
    }

    #[verifier::when_used_as_spec(spec_rank)]
    pub fn rank(self) -> (r: u8)
        ensures
            r == self.spec_rank(),
    {
        match self {
            DiagnosticKind::ParseError => 0,
            DiagnosticKind::NameError => 1,
            DiagnosticKind::AccessError => 2,
            DiagnosticKind::TheoryBridgeError => 3,
            DiagnosticKind::NoAmbientTheoryError => 4,
            DiagnosticKind::UnsupportedFeature => 5,
            DiagnosticKind::RuntimeStaticMismatch => 6,
            DiagnosticKind::TrustTaintError => 7,
            DiagnosticKind::RuntimeError => 8,
            DiagnosticKind::InfinityModeError => 9,
            DiagnosticKind::EqualityModeError => 10,
            DiagnosticKind::MigrationBridgeError => 11,
            DiagnosticKind::DistributedResourceError => 12,
            DiagnosticKind::UniverseLevelError => 13,
            DiagnosticKind::DefinabilityError => 14,
            DiagnosticKind::BigNumberError => 15,
            DiagnosticKind::ProofKernelError => 16,
            DiagnosticKind::TruthBoundaryError => 17,
            DiagnosticKind::IncompletenessBoundaryError => 18,
            DiagnosticKind::ReflectionBoundaryError => 19,
            DiagnosticKind::MetaLevelError => 20,
            DiagnosticKind::StatementTheoremError => 21,
            DiagnosticKind::ProofObligationError => 22,
            DiagnosticKind::TacticScriptError => 23,
            DiagnosticKind::ProofCertificateError => 24,
            DiagnosticKind::ProofCertificateAuditError => 25,
            DiagnosticKind::EqualityRewriteError => 26,
            DiagnosticKind::RewriteNormalizationError => 27,
            DiagnosticKind::InductionError => 28,
            DiagnosticKind::ModuleImportError => 29,
            DiagnosticKind::ModuleInterfaceError => 30,
            DiagnosticKind::MetatheoryDependencyError => 31,
            DiagnosticKind::MetatheoryClosureError => 32,
            DiagnosticKind::ConservativeExtensionError => 33,
            DiagnosticKind::TheoremDependencyError => 34,
            DiagnosticKind::SoundnessBoundaryError => 35,
            DiagnosticKind::TrustedBaseError => 36,
            DiagnosticKind::MetatheoryFoundationError => 37,
            DiagnosticKind::LogicFormulaError => 38,
            DiagnosticKind::FunctionTermError => 39,
            DiagnosticKind::FunctionContractError => 40,
            DiagnosticKind::PartialityTypeError => 41,
        }
    }

    /// The later of the two in declaration order (`Ord::max`).
    pub open spec fn spec_higher(self, other: Self) -> Self {
        if other.spec_rank() > self.spec_rank() { other } else { self }
    }

    #[verifier::when_used_as_spec(spec_higher)]
    pub fn higher(self, other: Self) -> (r: Self)
        ensures
            r == self.spec_higher(other),
    {
        if other.rank() > self.rank() { other } else { self }
    }

    /// The `Debug` name of the variant.
    pub open spec fn debug_text(self) -> Seq<char> {
        match self {
            DiagnosticKind::ParseError => "ParseError"@,
            DiagnosticKind::NameError => "NameError"@,
            DiagnosticKind::AccessError => "AccessError"@,
            DiagnosticKind::TheoryBridgeError => "TheoryBridgeError"@,
            DiagnosticKind::NoAmbientTheoryError => "NoAmbientTheoryError"@,
            DiagnosticKind::UnsupportedFeature => "UnsupportedFeature"@,
            DiagnosticKind::RuntimeStaticMismatch => "RuntimeStaticMismatch"@,
            DiagnosticKind::TrustTaintError => "TrustTaintError"@,
            DiagnosticKind::RuntimeError => "RuntimeError"@,
            DiagnosticKind::InfinityModeError => "InfinityModeError"@,
            DiagnosticKind::EqualityModeError => "EqualityModeError"@,
            DiagnosticKind::MigrationBridgeError => "MigrationBridgeError"@,
            DiagnosticKind::DistributedResourceError => "DistributedResourceError"@,
            DiagnosticKind::UniverseLevelError => "UniverseLevelError"@,
            DiagnosticKind::DefinabilityError => "DefinabilityError"@,
            DiagnosticKind::BigNumberError => "BigNumberError"@,
            DiagnosticKind::ProofKernelError => "ProofKernelError"@,
            DiagnosticKind::TruthBoundaryError => "TruthBoundaryError"@,
            DiagnosticKind::IncompletenessBoundaryError => "IncompletenessBoundaryError"@,
            DiagnosticKind::ReflectionBoundaryError => "ReflectionBoundaryError"@,
            DiagnosticKind::MetaLevelError => "MetaLevelError"@,
            DiagnosticKind::StatementTheoremError => "StatementTheoremError"@,
            DiagnosticKind::ProofObligationError => "ProofObligationError"@,
            DiagnosticKind::TacticScriptError => "TacticScriptError"@,
            DiagnosticKind::ProofCertificateError => "ProofCertificateError"@,
            DiagnosticKind::ProofCertificateAuditError => "ProofCertificateAuditError"@,
            DiagnosticKind::EqualityRewriteError => "EqualityRewriteError"@,
            DiagnosticKind::RewriteNormalizationError => "RewriteNormalizationError"@,
            DiagnosticKind::InductionError => "InductionError"@,
            DiagnosticKind::ModuleImportError => "ModuleImportError"@,
            DiagnosticKind::ModuleInterfaceError => "ModuleInterfaceError"@,
            DiagnosticKind::MetatheoryDependencyError => "MetatheoryDependencyError"@,
            DiagnosticKind::MetatheoryClosureError => "MetatheoryClosureError"@,
            DiagnosticKind::ConservativeExtensionError => "ConservativeExtensionError"@,
            DiagnosticKind::TheoremDependencyError => "TheoremDependencyError"@,
            DiagnosticKind::SoundnessBoundaryError => "SoundnessBoundaryError"@,
            DiagnosticKind::TrustedBaseError => "TrustedBaseError"@,
            DiagnosticKind::MetatheoryFoundationError => "MetatheoryFoundationError"@,
            DiagnosticKind::LogicFormulaError => "LogicFormulaError"@,
            DiagnosticKind::FunctionTermError => "FunctionTermError"@,
            DiagnosticKind::FunctionContractError => "FunctionContractError"@,
            DiagnosticKind::PartialityTypeError => "PartialityTypeError"@,
        }
    }

    pub fn debug_str(self) -> (r: &'static str)
        ensures
            r@ == self.debug_text(),
    {
        match self {
            DiagnosticKind::ParseError => "ParseError",
            DiagnosticKind::NameError => "NameError",
            DiagnosticKind::AccessError => "AccessError",
            DiagnosticKind::TheoryBridgeError => "TheoryBridgeError",
            DiagnosticKind::NoAmbientTheoryError => "NoAmbientTheoryError",
            DiagnosticKind::UnsupportedFeature => "UnsupportedFeature",
            DiagnosticKind::RuntimeStaticMismatch => "RuntimeStaticMismatch",
            DiagnosticKind::TrustTaintError => "TrustTaintError",
            DiagnosticKind::RuntimeError => "RuntimeError",
            DiagnosticKind::InfinityModeError => "InfinityModeError",
            DiagnosticKind::EqualityModeError => "EqualityModeError",
            DiagnosticKind::MigrationBridgeError => "MigrationBridgeError",
            DiagnosticKind::DistributedResourceError => "DistributedResourceError",
            DiagnosticKind::UniverseLevelError => "UniverseLevelError",
            DiagnosticKind::DefinabilityError => "DefinabilityError",
            DiagnosticKind::BigNumberError => "BigNumberError",
            DiagnosticKind::ProofKernelError => "ProofKernelError",
            DiagnosticKind::TruthBoundaryError => "TruthBoundaryError",
            DiagnosticKind::IncompletenessBoundaryError => "IncompletenessBoundaryError",
            DiagnosticKind::ReflectionBoundaryError => "ReflectionBoundaryError",
            DiagnosticKind::MetaLevelError => "MetaLevelError",
            DiagnosticKind::StatementTheoremError => "StatementTheoremError",
            DiagnosticKind::ProofObligationError => "ProofObligationError",
            DiagnosticKind::TacticScriptError => "TacticScriptError",
            DiagnosticKind::ProofCertificateError => "ProofCertificateError",
            DiagnosticKind::ProofCertificateAuditError => "ProofCertificateAuditError",
            DiagnosticKind::EqualityRewriteError => "EqualityRewriteError",
            DiagnosticKind::RewriteNormalizationError => "RewriteNormalizationError",
            DiagnosticKind::InductionError => "InductionError",
            DiagnosticKind::ModuleImportError => "ModuleImportError",
            DiagnosticKind::ModuleInterfaceError => "ModuleInterfaceError",
            DiagnosticKind::MetatheoryDependencyError => "MetatheoryDependencyError",
            DiagnosticKind::MetatheoryClosureError => "MetatheoryClosureError",
            DiagnosticKind::ConservativeExtensionError => "ConservativeExtensionError",
            DiagnosticKind::TheoremDependencyError => "TheoremDependencyError",
            DiagnosticKind::SoundnessBoundaryError => "SoundnessBoundaryError",
            DiagnosticKind::TrustedBaseError => "TrustedBaseError",
            DiagnosticKind::MetatheoryFoundationError => "MetatheoryFoundationError",
            DiagnosticKind::LogicFormulaError => "LogicFormulaError",
            DiagnosticKind::FunctionTermError => "FunctionTermError",
            DiagnosticKind::FunctionContractError => "FunctionContractError",
            DiagnosticKind::PartialityTypeError => "PartialityTypeError",
        }
    }
}

impl DiagnosticKind {
    /// The code shown when a diagnostic is displayed, such as `E0001 ParseError`.
    pub open spec fn code_text(self) -> Seq<char> {
        match self {
            DiagnosticKind::ParseError => "E0001 ParseError"@,
            DiagnosticKind::NameError => "E0002 NameError"@,
            DiagnosticKind::AccessError => "E0101 AccessError"@,
            DiagnosticKind::TheoryBridgeError => "E0201 TheoryBridgeError"@,
            DiagnosticKind::NoAmbientTheoryError => "E0202 NoAmbientTheoryError"@,
            DiagnosticKind::UnsupportedFeature => "E0900 UnsupportedFeature"@,
            DiagnosticKind::RuntimeStaticMismatch => "E0301 RuntimeStaticMismatch"@,
            DiagnosticKind::TrustTaintError => "E0401 TrustTaintError"@,
            DiagnosticKind::RuntimeError => "E1001 RuntimeError"@,
            DiagnosticKind::InfinityModeError => "E0501 InfinityModeError"@,
            DiagnosticKind::EqualityModeError => "E0601 EqualityModeError"@,
            DiagnosticKind::MigrationBridgeError => "E0701 MigrationBridgeError"@,
            DiagnosticKind::DistributedResourceError => "E0801 DistributedResourceError"@,
            DiagnosticKind::UniverseLevelError => "E0901 UniverseLevelError"@,
            DiagnosticKind::DefinabilityError => "E0902 DefinabilityError"@,
            DiagnosticKind::BigNumberError => "E0903 BigNumberError"@,
            DiagnosticKind::ProofKernelError => "E0904 ProofKernelError"@,
            DiagnosticKind::TruthBoundaryError => "E0905 TruthBoundaryError"@,
            DiagnosticKind::IncompletenessBoundaryError => "E0906 IncompletenessBoundaryError"@,
            DiagnosticKind::ReflectionBoundaryError => "E0907 ReflectionBoundaryError"@,
            DiagnosticKind::MetaLevelError => "E0908 MetaLevelError"@,
            DiagnosticKind::StatementTheoremError => "E0909 StatementTheoremError"@,
            DiagnosticKind::ProofObligationError => "E0910 ProofObligationError"@,
            DiagnosticKind::TacticScriptError => "E0911 TacticScriptError"@,
            DiagnosticKind::ProofCertificateError => "E0912 ProofCertificateError"@,
            DiagnosticKind::ProofCertificateAuditError => "E0913 ProofCertificateAuditError"@,
            DiagnosticKind::EqualityRewriteError => "E0914 EqualityRewriteError"@,
            DiagnosticKind::RewriteNormalizationError => "E0915 RewriteNormalizationError"@,
            DiagnosticKind::InductionError => "E0916 InductionError"@,
            DiagnosticKind::ModuleImportError => "E0917 ModuleImportError"@,
            DiagnosticKind::ModuleInterfaceError => "E0918 ModuleInterfaceError"@,
            DiagnosticKind::MetatheoryDependencyError => "E0919 MetatheoryDependencyError"@,
            DiagnosticKind::MetatheoryClosureError => "E0920 MetatheoryClosureError"@,
            DiagnosticKind::ConservativeExtensionError => "E0921 ConservativeExtensionError"@,
            DiagnosticKind::TheoremDependencyError => "E0922 TheoremDependencyError"@,
            DiagnosticKind::SoundnessBoundaryError => "E0923 SoundnessBoundaryError"@,
            DiagnosticKind::TrustedBaseError => "E0924 TrustedBaseError"@,
            DiagnosticKind::MetatheoryFoundationError => "E0925 MetatheoryFoundationError"@,
            DiagnosticKind::LogicFormulaError => "E0926 LogicFormulaError"@,
            DiagnosticKind::FunctionTermError => "E0927 FunctionTermError"@,
            DiagnosticKind::FunctionContractError => "E0928 FunctionContractError"@,
            DiagnosticKind::PartialityTypeError => "E0929 PartialityTypeError"@,
        }
    }

    pub fn code_str(self) -> (r: &'static str)
        ensures
            r@ == self.code_text(),
    {
        match self {
            DiagnosticKind::ParseError => "E0001 ParseError",
            DiagnosticKind::NameError => "E0002 NameError",
            DiagnosticKind::AccessError => "E0101 AccessError",
            DiagnosticKind::TheoryBridgeError => "E0201 TheoryBridgeError",
            DiagnosticKind::NoAmbientTheoryError => "E0202 NoAmbientTheoryError",
            DiagnosticKind::UnsupportedFeature => "E0900 UnsupportedFeature",
            DiagnosticKind::RuntimeStaticMismatch => "E0301 RuntimeStaticMismatch",
            DiagnosticKind::TrustTaintError => "E0401 TrustTaintError",
            DiagnosticKind::RuntimeError => "E1001 RuntimeError",
            DiagnosticKind::InfinityModeError => "E0501 InfinityModeError",
            DiagnosticKind::EqualityModeError => "E0601 EqualityModeError",
            DiagnosticKind::MigrationBridgeError => "E0701 MigrationBridgeError",
            DiagnosticKind::DistributedResourceError => "E0801 DistributedResourceError",
            DiagnosticKind::UniverseLevelError => "E0901 UniverseLevelError",
            DiagnosticKind::DefinabilityError => "E0902 DefinabilityError",
            DiagnosticKind::BigNumberError => "E0903 BigNumberError",
            DiagnosticKind::ProofKernelError => "E0904 ProofKernelError",
            DiagnosticKind::TruthBoundaryError => "E0905 TruthBoundaryError",
            DiagnosticKind::IncompletenessBoundaryError => "E0906 IncompletenessBoundaryError",
            DiagnosticKind::ReflectionBoundaryError => "E0907 ReflectionBoundaryError",
            DiagnosticKind::MetaLevelError => "E0908 MetaLevelError",
            DiagnosticKind::StatementTheoremError => "E0909 StatementTheoremError",
            DiagnosticKind::ProofObligationError => "E0910 ProofObligationError",
            DiagnosticKind::TacticScriptError => "E0911 TacticScriptError",
            DiagnosticKind::ProofCertificateError => "E0912 ProofCertificateError",
            DiagnosticKind::ProofCertificateAuditError => "E0913 ProofCertificateAuditError",
            DiagnosticKind::EqualityRewriteError => "E0914 EqualityRewriteError",
            DiagnosticKind::RewriteNormalizationError => "E0915 RewriteNormalizationError",
            DiagnosticKind::InductionError => "E0916 InductionError",
            DiagnosticKind::ModuleImportError => "E0917 ModuleImportError",
            DiagnosticKind::ModuleInterfaceError => "E0918 ModuleInterfaceError",
            DiagnosticKind::MetatheoryDependencyError => "E0919 MetatheoryDependencyError",
            DiagnosticKind::MetatheoryClosureError => "E0920 MetatheoryClosureError",
            DiagnosticKind::ConservativeExtensionError => "E0921 ConservativeExtensionError",
            DiagnosticKind::TheoremDependencyError => "E0922 TheoremDependencyError",
            DiagnosticKind::SoundnessBoundaryError => "E0923 SoundnessBoundaryError",
            DiagnosticKind::TrustedBaseError => "E0924 TrustedBaseError",
            DiagnosticKind::MetatheoryFoundationError => "E0925 MetatheoryFoundationError",
            DiagnosticKind::LogicFormulaError => "E0926 LogicFormulaError",
            DiagnosticKind::FunctionTermError => "E0927 FunctionTermError",
            DiagnosticKind::FunctionContractError => "E0928 FunctionContractError",
            DiagnosticKind::PartialityTypeError => "E0929 PartialityTypeError",
        }
    }
}
/// A source region, by line and column; columns are 0 when only the line is known.
#[derive(Debug, Clone, Copy, PartialEq, Eq, Structural)]
pub struct SourceSpan {
    pub start_line: usize,
    pub start_col: usize,
    pub end_line: usize,
    pub end_col: usize,
}

pub open spec fn max_usize(a: usize, b: usize) -> usize {
    if a >= b { a } else { b }
}

/// The span of a whole line.
pub open spec fn line_span(line: usize) -> SourceSpan {
    SourceSpan { start_line: line, start_col: 0, end_line: line, end_col: 0 }
}

/// The span a diagnostic made by `Diagnostic::error` carries.
pub open spec fn span_of_line(line: Option<usize>) -> Option<SourceSpan> {
    match line {
        Some(l) => Some(line_span(l)),
        None => None,
    }
}

/// Display text of a span.
pub open spec fn span_text(s: SourceSpan) -> Seq<char> {
    if s.start_col == 0 && s.end_col == 0 {
        "line "@ + dec_text(s.start_line as nat)
    } else if s.start_line == s.end_line {
        "line "@ + dec_text(s.start_line as nat) + ", column "@ + dec_text(s.start_col as nat)
    } else {
        "line "@ + dec_text(s.start_line as nat) + ", column "@ + dec_text(s.start_col as nat)
            + " to line "@ + dec_text(s.end_line as nat) + ", column "@ + dec_text(
            s.end_col as nat,
        )
    }
}

impl SourceSpan {
    pub fn line(line: usize) -> (r: Self)
        ensures
            r == line_span(line),
    {
        SourceSpan { start_line: line, start_col: 0, end_line: line, end_col: 0 }
    }

    /// A span of `len` columns (at least one) from column `col` (at least 1).
    pub fn line_col(line: usize, col: usize, len: usize) -> (r: Self)
        requires
            max_usize(col, 1) + max_usize(len, 1) <= usize::MAX,
        ensures
            r == (SourceSpan {
                start_line: line,
                start_col: max_usize(col, 1),
                end_line: line,
                end_col: (max_usize(col, 1) + max_usize(len, 1)) as usize,
            }),
    {
        let width = if len >= 1 { len } else { 1 };
        let start = if col >= 1 { col } else { 1 };
        SourceSpan { start_line: line, start_col: start, end_line: line, end_col: start + width }
    }

    pub fn new(start_line: usize, start_col: usize, end_line: usize, end_col: usize) -> (r: Self)
        ensures
            r == (SourceSpan { start_line, start_col, end_line, end_col }),
    {
        SourceSpan { start_line, start_col, end_line, end_col }
    }

    pub fn line_only(&self) -> (r: bool)
        ensures
            r == (self.start_col == 0 && self.end_col == 0),
    {
        self.start_col == 0 && self.end_col == 0
    }

    pub fn single_line(&self) -> (r: bool)
        ensures
            r == (self.start_line == self.end_line),
    {
        self.start_line == self.end_line
    }

    pub fn primary_line(&self) -> (r: usize)
        ensures
            r == self.start_line,
    {
        self.start_line
    }

    /// Display text of the span.
    pub fn to_text(&self) -> (r: String)
        ensures
            r@ == span_text(*self),
    {
        let mut s = String::from_str("line ");
        s.append(usize_text(self.start_line).as_str());
        if self.line_only() {
            return s;
        }
        s.append(", column ");
        s.append(usize_text(self.start_col).as_str());
        if self.single_line() {
            return s;
        }
        s.append(" to line ");
        s.append(usize_text(self.end_line).as_str());
        s.append(", column ");
        s.append(usize_text(self.end_col).as_str());
        s
    }
}

/// A message from the checker or one of its passes.
#[derive(Debug)]
pub struct Diagnostic {
    pub severity: Severity,
    pub kind: DiagnosticKind,
    pub line: Option<usize>,
    pub span: Option<SourceSpan>,
    pub message: String,
    pub help: Option<String>,
}

/// Model of a `Diagnostic`.
pub struct DiagnosticV {
    pub severity: Severity,
    pub kind: DiagnosticKind,
    pub line: Option<usize>,
    pub span: Option<SourceSpan>,
    pub message: Seq<char>,
    pub help: Option<Seq<char>>,
}

impl View for Diagnostic {
    type V = DiagnosticV;

    open spec fn view(&self) -> DiagnosticV {
        DiagnosticV {
            severity: self.severity,
            kind: self.kind,
            line: self.line,
            span: self.span,
            message: self.message@,
            help: match self.help {
                Some(h) => Some(h@),
                None => None,
            },
        }
    }
}

/// The model of an error made by `Diagnostic::error`.
pub open spec fn error_model(kind: DiagnosticKind, line: Option<usize>, message: Seq<char>) -> DiagnosticV {
    DiagnosticV {
        severity: Severity::Error,
        kind,
        line,
        span: span_of_line(line),
        message,
        help: None,
    }
}

/// The model of an error at `line` with a help text.
pub open spec fn error_with_help(kind: DiagnosticKind, line: usize, message: Seq<char>, help: Seq<char>) -> DiagnosticV {
    DiagnosticV { help: Some(help), ..error_model(kind, Some(line), message) }
}

/// Display text of a diagnostic.
pub open spec fn diagnostic_text(d: DiagnosticV) -> Seq<char> {
    let head = d.severity.display_text() + "["@ + d.kind.code_text() + "]"@;
    let first = match (d.span, d.line) {
        (Some(span), _) => head + " at "@ + span_text(span) + ": "@ + d.message + "\n"@,
        (None, Some(line)) => head + " at line "@ + dec_text(line as nat) + ": "@ + d.message + "\n"@,
        (None, None) => head + ": "@ + d.message + "\n"@,
    };
    match d.help {
        Some(h) => first + "  help: "@ + h + "\n"@,
        None => first,
    }
}

impl Clone for Diagnostic {
    fn clone(&self) -> (r: Self)
        ensures
            r@ == self@,
    {
        self.duplicate()
    }
}

impl Diagnostic {
    pub fn error(kind: DiagnosticKind, line: Option<usize>, message: &str) -> (r: Self)
        ensures
            r@ == error_model(kind, line, message@),
    {
        let span = match line {
            Some(l) => Some(SourceSpan::line(l)),
            None => None,
        };
        Diagnostic {
            severity: Severity::Error,
            kind,
            line,
            span,
            message: String::from_str(message),
            help: None,
        }
    }

    pub fn error_at(kind: DiagnosticKind, span: SourceSpan, message: &str) -> (r: Self)
        ensures
            r@ == (DiagnosticV {
                severity: Severity::Error,
                kind,
                line: Some(span.start_line),
                span: Some(span),
                message: message@,
                help: None,
            }),
    {
        Diagnostic {
            severity: Severity::Error,
            kind,
            line: Some(span.primary_line()),
            span: Some(span),
            message: String::from_str(message),
            help: None,
        }
    }

    pub fn with_span(self, span: SourceSpan) -> (r: Self)
        ensures
            r@ == (DiagnosticV { line: Some(span.start_line), span: Some(span), ..self@ }),
    {
        let mut d = self;
        d.line = Some(span.primary_line());
        d.span = Some(span);
        d
    }

    pub fn with_help(self, help: &str) -> (r: Self)
        ensures
            r@ == (DiagnosticV { help: Some(help@), ..self@ }),
    {
        let mut d = self;
        d.help = Some(String::from_str(help));
        d
    }

    /// A copy with the same model.
    pub fn duplicate(&self) -> (r: Self)
        ensures
            r@ == self@,
    {
        Diagnostic {
            severity: self.severity,
            kind: self.kind,
            line: self.line,
            span: self.span,
            message: self.message.clone(),
            help: match &self.help {
                Some(h) => Some(h.clone()),
                None => None,
            },
        }
    }

    /// Display text of the diagnostic.
    pub fn to_text(&self) -> (r: String)
        ensures
            r@ == diagnostic_text(self@),
    {
        let mut s = String::from_str(self.severity.display_str());
        s.append("[");
        s.append(self.kind.code_str());
        s.append("]");
        match (self.span, self.line) {
            (Some(span), _) => {
                s.append(" at ");
                s.append(span.to_text().as_str());
            },
            (None, Some(line)) => {
                s.append(" at line ");
                s.append(usize_text(line).as_str());
            },
            (None, None) => {},
        }
        s.append(": ");
        s.append(self.message.as_str());
        s.append("\n");
        match &self.help {
            Some(h) => {
                s.append("  help: ");
                s.append(h.as_str());
                s.append("\n");
            },
            None => {},
        }
        s
    }
}

/// An error at `line` with a help text: `Diagnostic::error(..).with_help(..)`.
pub fn error_help(kind: DiagnosticKind, line: usize, message: &str, help: &str) -> (r: Diagnostic)
    ensures
        r@ == error_with_help(kind, line, message@, help@),
{
    Diagnostic::error(kind, Some(line), message).with_help(help)
}

} // verus!
