//! The filesystem isolator's decisions. The syscalls themselves (a
//! directory creation, a root change, a PID-namespace unshare) are the
//! binary's work; this module decides which of them to make, from what
//! the binary observed on disk, and in which order the pipeline may
//! make them.

use vstd::prelude::*;

verus! {

/// What the binary observed of `rootDir/dev` before preparation.
#[derive(Clone, Copy, PartialEq, Eq, Structural, Debug)]
pub struct DevState {
    /// `rootDir/dev` exists as a directory.
    pub dev_dir: bool,
    /// `rootDir/dev/null` exists.
    pub dev_null: bool,
}

impl DevState {
    /// The root carries everything confinement requires.
    pub open spec fn ready(self) -> bool {
        self.dev_dir && self.dev_null
    }
}

/// One creation the preparation step may have to perform.
#[derive(Clone, Copy, PartialEq, Eq, Structural, Debug)]
pub enum PrepareStep {
    /// Create `rootDir/dev` as a directory.
    CreateDevDir,
    /// Create `rootDir/dev/null` as an empty regular file.
    CreateDevNull,
}

/// The creations preparation performs on a root observed in state
/// `s`: exactly what is missing, in path order, and nothing that is
/// already present.
pub open spec fn spec_prepare_steps(s: DevState) -> Seq<PrepareStep> {
    (if !s.dev_dir {
        seq![PrepareStep::CreateDevDir]
    } else {
        Seq::<PrepareStep>::empty()
    }) + (if !s.dev_null {
        seq![PrepareStep::CreateDevNull]
    } else {
        Seq::<PrepareStep>::empty()
    })
}

/// The state preparation leaves the root in: both stubs present.
pub open spec fn spec_after_prepare(s: DevState) -> DevState {
    DevState { dev_dir: true, dev_null: true }
}

/// Plan the preparation of a root observed in state `s`.
pub fn prepare_steps(s: DevState) -> (steps: Vec<PrepareStep>)
    ensures
        steps@ == spec_prepare_steps(s),
        spec_after_prepare(s).ready(),
{
    let mut steps: Vec<PrepareStep> = Vec::new();
    if !s.dev_dir {
        steps.push(PrepareStep::CreateDevDir);
    }
    if !s.dev_null {
        steps.push(PrepareStep::CreateDevNull);
    }
    proof {
        assert(steps@ =~= spec_prepare_steps(s));
    }
    steps
}

/// Preparation is idempotent: on a root that one preparation already
/// left ready, a second preparation has no step to perform.
pub proof fn lemma_prepare_idempotent(s: DevState)
    ensures
        spec_prepare_steps(spec_after_prepare(s)) == Seq::<PrepareStep>::empty(),
        spec_after_prepare(spec_after_prepare(s)) == spec_after_prepare(s),
{
    assert(spec_prepare_steps(spec_after_prepare(s)) =~= Seq::<PrepareStep>::empty());
}

} // verus!
