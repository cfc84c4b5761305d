//! Reports of the front-end passes: which pass ran, whether it passed, and
//! the diagnostics it produced, collected in pipeline order.

use vstd::prelude::*;
use vstd::string::*;

use crate::axiom_registry::diagnostics_view;
use crate::diagnostics::{Diagnostic, DiagnosticV};

verus! {

/// The front-end passes.
#[derive(Debug, Clone, Copy, PartialEq, Eq, Structural, PartialOrd, Ord, Hash)]
pub enum PassId {
    RawAstAccepted,
    NameResolution,
    LegacyChecker,
}

impl PassId {
    pub open spec fn name_text(self) -> Seq<char> {
        match self {
            PassId::RawAstAccepted => "raw_ast_accepted"@,
            PassId::NameResolution => "name_resolution"@,
            PassId::LegacyChecker => "legacy_checker"@,
        }
    }

    pub fn as_str(self) -> (r: &'static str)
        ensures
            r@ == self.name_text(),
    {
        match self {
            PassId::RawAstAccepted => "raw_ast_accepted",
            PassId::NameResolution => "name_resolution",
            PassId::LegacyChecker => "legacy_checker",
        }
    }
}

/// How a pass ended.
#[derive(Debug, Clone, Copy, PartialEq, Eq, Structural)]
pub enum PassStatus {
    Passed,
    Failed,
    Skipped,
}

/// The outcome of one pass.
#[derive(Debug)]
pub struct PassReport {
    pub id: PassId,
    pub status: PassStatus,
    pub diagnostics: Vec<Diagnostic>,
    pub note: Option<String>,
}

pub struct PassReportV {
    pub id: PassId,
    pub status: PassStatus,
    pub diagnostics: Seq<DiagnosticV>,
    pub note: Option<Seq<char>>,
}

impl View for PassReport {
    type V = PassReportV;

    open spec fn view(&self) -> PassReportV {
        PassReportV {
            id: self.id,
            status: self.status,
            diagnostics: diagnostics_view(self.diagnostics@),
            note: match self.note {
                Some(n) => Some(n@),
                None => None,
            },
        }
    }
}

/// A pass counts as passed when its status says so and it left no diagnostic.
pub open spec fn pass_ok(p: PassReportV) -> bool {
    p.status == PassStatus::Passed && p.diagnostics.len() == 0
}

impl PassReport {
    pub fn passed(id: PassId, note: &str) -> (r: Self)
        ensures
            r@ == (PassReportV { id, status: PassStatus::Passed, diagnostics: Seq::empty(), note: Some(note@) }),
    {
        let r = PassReport { id, status: PassStatus::Passed, diagnostics: Vec::new(), note: Some(String::from_str(note)) };
        assert(r@.diagnostics =~= Seq::<DiagnosticV>::empty());
        r
    }

    pub fn failed(id: PassId, diagnostics: Vec<Diagnostic>, note: &str) -> (r: Self)
        ensures
            r@ == (PassReportV { id, status: PassStatus::Failed, diagnostics: diagnostics_view(diagnostics@), note: Some(note@) }),
    {
        PassReport { id, status: PassStatus::Failed, diagnostics, note: Some(String::from_str(note)) }
    }

    pub fn skipped(id: PassId, note: &str) -> (r: Self)
        ensures
            r@ == (PassReportV { id, status: PassStatus::Skipped, diagnostics: Seq::empty(), note: Some(note@) }),
    {
        let r = PassReport { id, status: PassStatus::Skipped, diagnostics: Vec::new(), note: Some(String::from_str(note)) };
        assert(r@.diagnostics =~= Seq::<DiagnosticV>::empty());
        r
    }

    pub fn ok(&self) -> (r: bool)
        ensures
            r == pass_ok(self@),
    {
        self.status == PassStatus::Passed && self.diagnostics.len() == 0
    }
}

/// The passes of a pipeline, in the order they ran.
#[derive(Debug)]
pub struct PassPipelineReport {
    pub passes: Vec<PassReport>,
}

/// The models of a sequence of pass reports.
pub open spec fn passes_view(s: Seq<PassReport>) -> Seq<PassReportV> {
    s.map_values(|p: PassReport| p@)
}

/// The diagnostics of the passes, in pipeline order.
pub open spec fn all_diagnostics(ps: Seq<PassReportV>) -> Seq<DiagnosticV>
    decreases ps.len(),
{
    if ps.len() == 0 {
        Seq::empty()
    } else {
        all_diagnostics(ps.drop_last()) + ps.last().diagnostics
    }
}

/// The index of the first pass with id `id`, from `k`.
pub open spec fn find_pass(ps: Seq<PassReportV>, id: PassId, k: int) -> Option<int>
    decreases ps.len() - k,
{
    if k < 0 || k >= ps.len() {
        None
    } else if ps[k].id == id {
        Some(k)
    } else {
        find_pass(ps, id, k + 1)
    }
}

impl Default for PassPipelineReport {
    fn default() -> (r: Self)
        ensures
            r.passes@.len() == 0,
    {
        PassPipelineReport { passes: Vec::new() }
    }
}

impl PassPipelineReport {
    pub fn new() -> (r: Self)
        ensures
            r.passes@.len() == 0,
    {
        PassPipelineReport { passes: Vec::new() }
    }

    pub fn push(&mut self, pass: PassReport)
        ensures
            passes_view(final(self).passes@) == passes_view(old(self).passes@).push(pass@),
    {
        self.passes.push(pass);
        assert(passes_view(self.passes@) =~= passes_view(old(self).passes@).push(pass@));
    }

    pub fn ok(&self) -> (r: bool)
        ensures
            r == forall|k: int| 0 <= k < self.passes@.len() ==> pass_ok(#[trigger] passes_view(self.passes@)[k]),
    {
        let ghost ps = passes_view(self.passes@);
        let mut k: usize = 0;
        while k < self.passes.len()
            invariant
                ps == passes_view(self.passes@),
                k <= self.passes.len(),
                forall|m: int| 0 <= m < k ==> pass_ok(#[trigger] ps[m]),
            decreases self.passes.len() - k,
        {
            assert(ps[k as int] == self.passes@[k as int]@);
            if !self.passes[k].ok() {
                return false;
            }
            k = k + 1;
        }
        true
    }

    pub fn len(&self) -> (r: usize)
        ensures
            r == self.passes@.len(),
    {
        self.passes.len()
    }

    pub fn is_empty(&self) -> (r: bool)
        ensures
            r == (self.passes@.len() == 0),
    {
        self.passes.len() == 0
    }

    pub fn find(&self, id: PassId) -> (r: Option<&PassReport>)
        ensures
            match find_pass(passes_view(self.passes@), id, 0) {
                Some(i) => r matches Some(p) && p@ == passes_view(self.passes@)[i],
                None => r is None,
            },
    {
        let ghost ps = passes_view(self.passes@);
        let mut k: usize = 0;
        while k < self.passes.len()
            invariant
                ps == passes_view(self.passes@),
                k <= self.passes.len(),
                find_pass(ps, id, 0) == find_pass(ps, id, k as int),
            decreases self.passes.len() - k,
        {
            assert(ps[k as int] == self.passes@[k as int]@);
            if self.passes[k].id == id {
                return Some(&self.passes[k]);
            }
            k = k + 1;
        }
        None
    }

    /// The diagnostics of all passes, in pipeline order.
    pub fn diagnostics(&self) -> (r: Vec<&Diagnostic>)
        ensures
            r@.map_values(|d: &Diagnostic| d@) == all_diagnostics(passes_view(self.passes@)),
    {
        let ghost ps = passes_view(self.passes@);
        let mut out: Vec<&Diagnostic> = Vec::new();
        let mut k: usize = 0;
        while k < self.passes.len()
            invariant
                ps == passes_view(self.passes@),
                k <= self.passes.len(),
                out@.map_values(|d: &Diagnostic| d@) =~= all_diagnostics(ps.take(k as int)),
            decreases self.passes.len() - k,
        {
            assert(ps.take(k + 1).drop_last() =~= ps.take(k as int));
            assert(ps[k as int] == self.passes@[k as int]@);
            let p = &self.passes[k];
            let ghost before = out@.map_values(|d: &Diagnostic| d@);
            let mut j: usize = 0;
            while j < p.diagnostics.len()
                invariant
                    k < self.passes.len(),
                    p == &self.passes@[k as int],
                    j <= p.diagnostics.len(),
                    out@.map_values(|d: &Diagnostic| d@) =~= before + diagnostics_view(p.diagnostics@).take(j as int),
                decreases p.diagnostics.len() - j,
            {
                let ghost inner = out@.map_values(|d: &Diagnostic| d@);
                out.push(&p.diagnostics[j]);
                assert(out@.map_values(|d: &Diagnostic| d@) =~= inner.push(p.diagnostics@[j as int]@));
                assert(diagnostics_view(p.diagnostics@).take(j + 1) =~= diagnostics_view(p.diagnostics@).take(j as int).push(
                    p.diagnostics@[j as int]@,
                ));
                j = j + 1;
            }
            assert(diagnostics_view(p.diagnostics@).take(j as int) =~= diagnostics_view(p.diagnostics@));
            k = k + 1;
        }
        assert(ps.take(k as int) =~= ps);
        out
    }
}

} // verus!
