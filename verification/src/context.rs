//! The state of one run: the diagnostics so far and the files already
//! handled. A run starts from an empty context, so nothing of an earlier run
//! is known to a later one.

use vstd::prelude::*;
use crate::diagnostic::{Diagnostic, DiagnosticView, diagnostics_view, file_failure};

verus! {

/// The views of a sequence of strings, in order.
pub open spec fn strings_view(items: Seq<String>) -> Seq<Seq<char>> {
    items.map_values(|s: String| s@)
}

/// The diagnostics and the handled files of the run in progress.
#[derive(Debug)]
pub struct RunContext {
    pub diagnostics: Vec<Diagnostic>,
    pub processed: Vec<String>,
}

/// What a run reports when it is over.
#[derive(Debug)]
pub struct RunReport {
    pub diagnostics: Vec<Diagnostic>,
}

impl RunReport {
    /// Whether the run went through without a diagnostic.
    pub fn success(&self) -> (ok: bool)
        ensures
            ok == (self.diagnostics@.len() == 0),
    {
        self.diagnostics.len() == 0
    }
}

impl RunContext {
    /// The diagnostics recorded so far, in order.
    pub open spec fn recorded(&self) -> Seq<DiagnosticView> {
        diagnostics_view(self.diagnostics@)
    }

    /// The paths of the files handled so far.
    pub open spec fn processed_set(&self) -> Set<Seq<char>> {
        strings_view(self.processed@).to_set()
    }

    /// The context at the start of a run: no diagnostic, no file handled.
    pub fn new() -> (ctx: RunContext)
        ensures
            ctx.recorded() == Seq::<DiagnosticView>::empty(),
            ctx.processed_set() == Set::<Seq<char>>::empty(),
    {
        let ctx = RunContext { diagnostics: Vec::new(), processed: Vec::new() };
        proof {
            assert(ctx.recorded() =~= Seq::<DiagnosticView>::empty());
            assert(ctx.processed_set() =~= Set::<Seq<char>>::empty());
        }
        ctx
    }

    /// Whether the file at `path` was handled in this run.
    pub fn is_processed(&self, path: &str) -> (known: bool)
        ensures
            known == self.processed_set().contains(path@),
    {
        let wanted = path.to_owned();
        let ghost paths = strings_view(self.processed@);
        let mut k: usize = 0;
        while k < self.processed.len()
            invariant
                k <= self.processed.len(),
                wanted@ == path@,
                paths == strings_view(self.processed@),
                forall|j: int| 0 <= j < k ==> paths[j] != path@,
            decreases self.processed.len() - k,
        {
            if self.processed[k] == wanted {
                assert(paths[k as int] == path@);
                return true;
            }
            k += 1;
        }
        false
    }

    /// Notes that the file at `path` was handled.
    pub fn mark_processed(&mut self, path: &str)
        ensures
            final(self).processed_set() == old(self).processed_set().insert(path@),
            final(self).diagnostics == old(self).diagnostics,
    {
        if !self.is_processed(path) {
            let ghost before = strings_view(self.processed@);
            self.processed.push(path.to_owned());
            proof {
                assert(strings_view(self.processed@) =~= before.push(path@));
                before.lemma_push_to_set_commute(path@);
            }
        } else {
            assert(self.processed_set() =~= self.processed_set().insert(path@));
        }
    }

    /// Records `diagnostic` after those already there.
    pub fn record(&mut self, diagnostic: Diagnostic)
        ensures
            final(self).recorded() == old(self).recorded().push(diagnostic@),
            final(self).processed == old(self).processed,
    {
        self.diagnostics.push(diagnostic);
        assert(self.recorded() =~= old(self).recorded().push(diagnostic@));
    }

    /// Records that handling the file at `path` failed with `message`. The
    /// run goes on.
    pub fn record_failure(&mut self, path: &str, message: &str)
        ensures
            final(self).recorded() == old(self).recorded().push(file_failure(path@, message@)),
            final(self).processed == old(self).processed,
    {
        self.record(Diagnostic::failure(path, message));
    }

    /// Ends the run and hands out its diagnostics, in the order in which
    /// they were recorded.
    pub fn finish(self) -> (report: RunReport)
        ensures
            report.diagnostics == self.diagnostics,
    {
        RunReport { diagnostics: self.diagnostics }
    }
}

} // verus!
