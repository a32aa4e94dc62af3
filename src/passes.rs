//! The pass controller: which step comes next, and on which path.
//!
//! A run of `n` passes is `n` cycles of overwrite, timestamp scrub and
//! rename, then one disposal. Each rename hands back a new path, which every
//! later step acts on. The caller performs each step and reports it done;
//! a failed step ends the run.
use vstd::prelude::*;
use std::path::PathBuf;

verus! {

/// A step of the pipeline, or the end of the run.
#[derive(Clone, Copy, Debug, PartialEq, Eq, Structural)]
pub enum Step {
    /// Overwrite the file's bytes with random data and flush them.
    Overwrite,
    /// Reset the access and modification times to the epoch.
    ScrubTimes,
    /// Rename the file to a random name of the same length.
    Rename,
    /// Remove the directory entry.
    Dispose,
    /// Nothing is left to do.
    Done,
}

/// The steps of one pass, in order.
pub open spec fn pass_steps() -> Seq<Step> {
    seq![Step::Overwrite, Step::ScrubTimes, Step::Rename]
}

/// Every step of a run of `n` passes, in order.
pub open spec fn schedule(n: nat) -> Seq<Step>
    decreases n,
{
    if n == 0 {
        seq![Step::Dispose]
    } else {
        pass_steps() + schedule((n - 1) as nat)
    }
}

/// The step at position `pos` of a run of `n` passes.
pub open spec fn step_at(n: nat, pos: nat) -> Step {
    if pos < 3 * n {
        if pos % 3 == 0 {
            Step::Overwrite
        } else if pos % 3 == 1 {
            Step::ScrubTimes
        } else {
            Step::Rename
        }
    } else if pos == 3 * n {
        Step::Dispose
    } else {
        Step::Done
    }
}

/// A run of `n` passes has `3n + 1` steps, the step at each position being
/// [`step_at`]: pass `i` is an overwrite, a scrub and a rename at positions
/// `3i`, `3i + 1`, `3i + 2`, so there are exactly `n` renames; and its last
/// step, and only that one, is the disposal.
pub proof fn lemma_schedule(n: nat)
    ensures
        schedule(n).len() == 3 * n + 1,
        forall|j: nat| j < 3 * n + 1 ==> #[trigger] schedule(n)[j as int] == step_at(n, j),
    decreases n,
{
    if n > 0 {
        let m = (n - 1) as nat;
        lemma_schedule(m);
        assert forall|j: nat| j < 3 * n + 1 implies #[trigger] schedule(n)[j as int] == step_at(n, j) by {
            if j >= 3 {
                assert(schedule(n)[j as int] == schedule(m)[j - 3]);
                assert(step_at(m, (j - 3) as nat) == step_at(n, j));
            }
        }
    }
}

/// Where a controller stands within one pass.
pub open spec fn stage_offset(s: Step) -> nat {
    match s {
        Step::ScrubTimes => 1,
        Step::Rename => 2,
        _ => 0,
    }
}

/// Hands out the steps of a run in order and carries the current path
/// from each rename to every later step.
pub struct PassController<P> {
    total: u32,
    done: u32,
    stage: Step,
    current: P,
    origin: Ghost<P>,
    renames: Ghost<Seq<P>>,
}

impl<P> PassController<P> {
    /// The number of passes of the run.
    pub closed spec fn total(&self) -> nat {
        self.total as nat
    }

    /// How many steps have been completed.
    pub closed spec fn position(&self) -> nat {
        if self.stage == Step::Done {
            (3 * self.total + 1) as nat
        } else {
            (3 * self.done + stage_offset(self.stage)) as nat
        }
    }

    /// The path that the next step acts on.
    pub closed spec fn current(&self) -> P {
        self.current
    }

    /// The path the run started from.
    pub closed spec fn origin(&self) -> P {
        self.origin@
    }

    /// The paths that the renames so far produced, in order.
    pub closed spec fn renames(&self) -> Seq<P> {
        self.renames@
    }

    /// The step that comes next.
    pub open spec fn next(&self) -> Step {
        step_at(self.total(), self.position())
    }

    /// The controller's internal consistency.
    pub closed spec fn wf(&self) -> bool {
        &&& self.done <= self.total
        &&& self.done < self.total ==> (self.stage == Step::Overwrite || self.stage
            == Step::ScrubTimes || self.stage == Step::Rename)
        &&& self.done == self.total ==> (self.stage == Step::Dispose || self.stage == Step::Done)
        &&& self.renames@.len() == self.done
        &&& self.current == if self.done == 0 {
            self.origin@
        } else {
            self.renames@.last()
        }
    }

    /// A run of `passes` passes on the file at `path`.
    pub fn new(path: P, passes: u32) -> (r: PassController<P>)
        ensures
            r.wf(),
            r.total() == passes,
            r.position() == 0,
            r.current() == path,
            r.origin() == path,
            r.renames() == Seq::<P>::empty(),
    {
        let ghost g = path;
        PassController {
            total: passes,
            done: 0,
            stage: if passes == 0 { Step::Dispose } else { Step::Overwrite },
            current: path,
            origin: Ghost(g),
            renames: Ghost(Seq::empty()),
        }
    }

    /// The stored stage is the step that the position calls for.
    proof fn lemma_next(&self)
        requires
            self.wf(),
        ensures
            self.next() == self.stage,
    {
        let t = self.total as nat;
        let d = self.done as nat;
        if self.stage != Step::Done {
            let j = 3 * d + stage_offset(self.stage);
            assert(j % 3 == stage_offset(self.stage)) by (nonlinear_arith)
                requires
                    j == 3 * d + stage_offset(self.stage),
                    stage_offset(self.stage) < 3,
            ;
            if d < t {
                assert(j < 3 * t) by (nonlinear_arith)
                    requires
                        j == 3 * d + stage_offset(self.stage),
                        stage_offset(self.stage) < 3,
                        d < t,
                ;
            }
        }
    }

    /// The step that comes next.
    pub fn next_step(&self) -> (r: Step)
        requires
            self.wf(),
        ensures
            r == self.next(),
    {
        proof {
            self.lemma_next();
        }
        self.stage
    }

    /// The path that the next step acts on.
    pub fn current_path(&self) -> (r: &P)
        ensures
            *r == self.current(),
    {
        &self.current
    }

    /// Records that the next step, an overwrite, a scrub or the disposal,
    /// has succeeded. The path stays as it was.
    pub fn complete_step(&mut self)
        requires
            old(self).wf(),
            old(self).next() == Step::Overwrite || old(self).next() == Step::ScrubTimes
                || old(self).next() == Step::Dispose,
        ensures
            final(self).wf(),
            final(self).total() == old(self).total(),
            final(self).position() == old(self).position() + 1,
            final(self).current() == old(self).current(),
            final(self).origin() == old(self).origin(),
            final(self).renames() == old(self).renames(),
    {
        proof {
            self.lemma_next();
        }
        self.stage = match self.stage {
            Step::Overwrite => Step::ScrubTimes,
            Step::ScrubTimes => Step::Rename,
            _ => Step::Done,
        };
    }

    /// Records that the next step, a rename, has succeeded and moved the
    /// file to `new_path`, which every later step acts on.
    pub fn complete_rename(&mut self, new_path: P)
        requires
            old(self).wf(),
            old(self).next() == Step::Rename,
        ensures
            final(self).wf(),
            final(self).total() == old(self).total(),
            final(self).position() == old(self).position() + 1,
            final(self).current() == new_path,
            final(self).origin() == old(self).origin(),
            final(self).renames() == old(self).renames().push(new_path),
    {
        proof {
            self.lemma_next();
        }
        let ghost g = new_path;
        self.renames = Ghost(self.renames@.push(g));
        self.current = new_path;
        self.done = self.done + 1;
        self.stage = if self.done == self.total { Step::Dispose } else { Step::Overwrite };
    }

    /// When the disposal comes, every pass has renamed the file once, and
    /// the disposal acts on the path of the last rename, or on the original
    /// path when the run has no pass.
    pub proof fn lemma_dispose_on_final_path(&self)
        requires
            self.wf(),
            self.next() == Step::Dispose,
        ensures
            self.renames().len() == self.total(),
            self.position() == 3 * self.total(),
            self.current() == if self.total() == 0 {
                self.origin()
            } else {
                self.renames().last()
            },
    {
        self.lemma_next();
    }
}

#[verifier::external_type_specification]
#[verifier::external_body]
pub struct ExPathBuf(PathBuf);

/// What a run is asked to do: the file to destroy and how many passes.
pub struct Arguments {
    /// The file to shred.
    pub file_path: PathBuf,
    /// The number of overwrite, scrub and rename cycles.
    pub passes: u32,
}

impl Arguments {
    /// The controller of the run these arguments ask for.
    pub fn controller(self) -> (r: PassController<PathBuf>)
        ensures
            r.wf(),
            r.total() == self.passes,
            r.position() == 0,
            r.current() == self.file_path,
            r.origin() == self.file_path,
            r.renames() == Seq::<PathBuf>::empty(),
    {
        PassController::new(self.file_path, self.passes)
    }
}

} // verus!
