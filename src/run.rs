//! Fail-fast execution of a list of steps. The caller performs each step that
//! the run hands out and reports whether it succeeded; the run stops at the
//! first failure, leaving earlier writes in effect.
use vstd::prelude::*;

use crate::steps::{Step, StepView};

verus! {

/// Why an application failed, with the file concerned.
#[derive(Debug, PartialEq, Eq)]
pub enum ApplyError {
    /// The scope directory could not be created.
    ScopeCreation,
    /// Writing `file` of the scope failed.
    InterfaceWrite { file: String },
    /// The process `pid` could not be moved into the scope.
    Membership { pid: String },
}

pub enum ApplyErrorView {
    ScopeCreation,
    InterfaceWrite(Seq<char>),
    Membership(Seq<char>),
}

impl View for ApplyError {
    type V = ApplyErrorView;

    open spec fn view(&self) -> ApplyErrorView {
        match self {
            ApplyError::ScopeCreation => ApplyErrorView::ScopeCreation,
            ApplyError::InterfaceWrite { file } => ApplyErrorView::InterfaceWrite(file@),
            ApplyError::Membership { pid } => ApplyErrorView::Membership(pid@),
        }
    }
}

/// The error reported when step `s` fails.
pub open spec fn error_of(s: StepView) -> ApplyErrorView {
    match s {
        StepView::CreateScope => ApplyErrorView::ScopeCreation,
        StepView::SetLimit(file, _) => ApplyErrorView::InterfaceWrite(file),
        StepView::Attach(pid) => ApplyErrorView::Membership(pid),
    }
}

impl ApplyError {
    /// The error for a failure of `step`.
    pub fn of_step(step: &Step) -> (r: ApplyError)
        ensures
            r@ == error_of(step@),
    {
        match step {
            Step::CreateScope => ApplyError::ScopeCreation,
            Step::SetLimit { file, value: _ } => ApplyError::InterfaceWrite { file: file.clone() },
            Step::Attach { value } => ApplyError::Membership { pid: value.clone() },
        }
    }
}

/// A run of steps in progress: `done` steps have succeeded, and `failed` says
/// whether the step after them failed.
pub struct ApplyRun {
    steps: Vec<Step>,
    done: usize,
    failed: bool,
}

impl ApplyRun {
    pub closed spec fn steps(&self) -> Seq<StepView> {
        self.steps@.map_values(|s: Step| s@)
    }

    /// Number of steps that succeeded.
    pub closed spec fn done(&self) -> nat {
        self.done as nat
    }

    /// Whether step `done()` failed.
    pub closed spec fn failed(&self) -> bool {
        self.failed
    }

    pub open spec fn wf(&self) -> bool {
        &&& self.done() <= self.steps().len()
        &&& self.failed() ==> self.done() < self.steps().len()
    }

    /// No step is left to perform: one failed, or all succeeded.
    pub open spec fn finished(&self) -> bool {
        self.failed() || self.done() == self.steps().len()
    }

    /// A run that has performed nothing yet.
    pub fn new(steps: Vec<Step>) -> (r: ApplyRun)
        ensures
            r.wf(),
            r.steps() == steps@.map_values(|s: Step| s@),
            r.done() == 0,
            !r.failed(),
    {
        ApplyRun { steps, done: 0, failed: false }
    }

    /// The step to perform next; none once the run is finished.
    pub fn next_step(&self) -> (r: Option<&Step>)
        requires
            self.wf(),
        ensures
            self.finished() ==> r is None,
            !self.finished() ==> r is Some && r->0@ == self.steps()[self.done() as int],
    {
        if self.failed || self.done == self.steps.len() {
            None
        } else {
            Some(&self.steps[self.done])
        }
    }

    /// Records the outcome of the step that `next_step` handed out. After a
    /// failure no further step is handed out.
    pub fn record(&mut self, ok: bool)
        requires
            old(self).wf(),
            !old(self).finished(),
        ensures
            final(self).wf(),
            final(self).steps() == old(self).steps(),
            ok ==> final(self).done() == old(self).done() + 1 && !final(self).failed(),
            !ok ==> final(self).done() == old(self).done() && final(self).failed(),
            !ok ==> final(self).finished(),
    {
        if ok {
            let n: usize = self.steps.len();
            assert(self.steps@.map_values(|s: Step| s@).len() == n);
            self.done = self.done + 1;
        } else {
            self.failed = true;
        }
    }

    /// The result of the run: none while steps remain, the error of the
    /// failed step after a failure, success once every step succeeded.
    pub fn outcome(&self) -> (r: Option<Result<(), ApplyError>>)
        requires
            self.wf(),
        ensures
            !self.finished() ==> r is None,
            self.failed() ==> (r matches Some(Err(e)) && e@ == error_of(
                self.steps()[self.done() as int],
            )),
            self.finished() && !self.failed() ==> r == Some(Ok::<(), ApplyError>(())),
    {
        if self.failed {
            Some(Err(ApplyError::of_step(&self.steps[self.done])))
        } else if self.done == self.steps.len() {
            Some(Ok(()))
        } else {
            None
        }
    }
}

} // verus!
