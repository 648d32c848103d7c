//! The steps of an application against one control scope, and their effect on
//! the scope's files.
use vstd::prelude::*;

verus! {

/// Membership file: writing a process id to it moves the process into the scope.
pub const PROCS_FILE: &'static str = "cgroup.procs";

/// One operation against a control scope.
#[derive(Debug, PartialEq, Eq)]
pub enum Step {
    /// Create the scope directory, with its parents; nothing if it exists.
    CreateScope,
    /// Write `value` into the interface file `file` of the scope.
    SetLimit { file: String, value: String },
    /// Write the process id `value` into the membership file.
    Attach { value: String },
}

pub enum StepView {
    CreateScope,
    SetLimit(Seq<char>, Seq<char>),
    Attach(Seq<char>),
}

impl View for Step {
    type V = StepView;

    open spec fn view(&self) -> StepView {
        match self {
            Step::CreateScope => StepView::CreateScope,
            Step::SetLimit { file, value } => StepView::SetLimit(file@, value@),
            Step::Attach { value } => StepView::Attach(value@),
        }
    }
}

/// The files of a scope after the writes of `steps`, starting from `files`.
/// Each write replaces the whole content of its file; creating the scope
/// leaves existing files as they are.
pub open spec fn write_effect(files: Map<Seq<char>, Seq<char>>, steps: Seq<StepView>) -> Map<
    Seq<char>,
    Seq<char>,
>
    decreases steps.len(),
{
    if steps.len() == 0 {
        files
    } else {
        let before = write_effect(files, steps.drop_last());
        match steps.last() {
            StepView::CreateScope => before,
            StepView::SetLimit(file, value) => before.insert(file, value),
            StepView::Attach(pid) => before.insert(PROCS_FILE@, pid),
        }
    }
}

/// Performing `a` and then `b` has the effect of performing `a + b`.
pub proof fn lemma_write_effect_append(
    files: Map<Seq<char>, Seq<char>>,
    a: Seq<StepView>,
    b: Seq<StepView>,
)
    ensures
        write_effect(files, a + b) == write_effect(write_effect(files, a), b),
    decreases b.len(),
{
    if b.len() == 0 {
        assert(a + b =~= a);
    } else {
        assert((a + b).drop_last() =~= a + b.drop_last());
        lemma_write_effect_append(files, a, b.drop_last());
    }
}

/// The effect of `steps` is the content they write laid over the files that
/// were there.
pub proof fn lemma_write_effect_overlay(files: Map<Seq<char>, Seq<char>>, steps: Seq<StepView>)
    ensures
        write_effect(files, steps) == files.union_prefer_right(write_effect(Map::empty(), steps)),
    decreases steps.len(),
{
    if steps.len() == 0 {
        assert(files.union_prefer_right(Map::empty()) =~= files);
    } else {
        lemma_write_effect_overlay(files, steps.drop_last());
        let w = write_effect(Map::empty(), steps.drop_last());
        match steps.last() {
            StepView::CreateScope => {},
            StepView::SetLimit(file, value) => {
                assert(files.union_prefer_right(w).insert(file, value) =~= files.union_prefer_right(
                    w.insert(file, value),
                ));
            },
            StepView::Attach(pid) => {
                assert(files.union_prefer_right(w).insert(PROCS_FILE@, pid)
                    =~= files.union_prefer_right(w.insert(PROCS_FILE@, pid)));
            },
        }
    }
}

/// Performing the same steps twice leaves the files as performing them once.
pub proof fn lemma_write_effect_idempotent(files: Map<Seq<char>, Seq<char>>, steps: Seq<StepView>)
    ensures
        write_effect(write_effect(files, steps), steps) == write_effect(files, steps),
{
    let w = write_effect(Map::empty(), steps);
    lemma_write_effect_overlay(files, steps);
    lemma_write_effect_overlay(write_effect(files, steps), steps);
    assert(files.union_prefer_right(w).union_prefer_right(w) =~= files.union_prefer_right(w));
}

} // verus!
