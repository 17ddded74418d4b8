//! The pipeline controller: the single source of truth for which
//! generation is current.
//!
//! Each start allocates a fresh generation with a clear cancellation flag
//! and signals the one it supersedes; stop signals the current one. A
//! flag, once set, is never reset: a worker that observed its stop signal
//! can rely on the signal standing.

use vstd::prelude::*;

verus! {

/// The lifecycle record: one stop flag per generation ever started,
/// oldest first. The current generation is the newest.
pub struct Controller {
    flags: Vec<bool>,
}

impl Controller {
    /// The stop flag of every generation ever started, oldest first.
    pub closed spec fn generations(&self) -> Seq<bool> {
        self.flags@
    }

    /// Whether some generation has been started.
    pub open spec fn active(&self) -> bool {
        self.generations().len() > 0
    }

    /// Well-formedness: every superseded generation has been signalled to
    /// stop — only the newest generation's flag may still be clear.
    pub open spec fn wf(&self) -> bool {
        forall|i: int| 0 <= i < self.generations().len() - 1 ==> self.generations()[i]
    }

    /// A controller with no generation yet.
    pub fn new() -> (c: Controller)
        ensures
            c.generations() == Seq::<bool>::empty(),
            c.wf(),
    {
        Controller { flags: Vec::new() }
    }

    /// Start a new generation: signal the current one to stop, then
    /// install a fresh, clear flag. Returns the new generation's number.
    /// Spawning the workers wired to it is the caller's part; returning
    /// means the spawn was ordered, not that the pipeline is healthy.
    pub fn start(&mut self) -> (gen: usize)
        requires
            old(self).wf(),
        ensures
            final(self).wf(),
            gen == old(self).generations().len(),
            final(self).generations().len() == old(self).generations().len() + 1,
            // every generation that existed before is now signalled
            forall|i: int|
                0 <= i < old(self).generations().len() ==> final(self).generations()[i],
            // a flag, once set, stays set
            forall|i: int|
                0 <= i < old(self).generations().len() && old(self).generations()[i] ==> final(self).generations()[i],
            // the new generation starts with a clear flag
            !final(self).generations()[gen as int],
    {
        let gen = self.flags.len();
        if self.flags.len() > 0 {
            let _ = self.flags.pop();
            self.flags.push(true);
        }
        self.flags.push(false);
        proof {
            assert forall|i: int|
                0 <= i < self.generations().len() - 1 implies self.generations()[i] by {
                if i < old(self).generations().len() - 1 {
                    assert(old(self).generations()[i]);
                }
            }
        }
        gen
    }

    /// Signal the current generation to stop. Idempotent; says whether
    /// some generation was there to signal.
    pub fn stop(&mut self) -> (signalled: bool)
        requires
            old(self).wf(),
        ensures
            final(self).wf(),
            signalled == old(self).active(),
            final(self).generations().len() == old(self).generations().len(),
            forall|i: int|
                0 <= i < old(self).generations().len() - 1 ==> final(self).generations()[i] == old(self).generations()[i],
            old(self).active() ==> final(self).generations().last(),
            // a flag, once set, stays set
            forall|i: int|
                0 <= i < old(self).generations().len() && old(self).generations()[i] ==> final(self).generations()[i],
    {
        if self.flags.len() == 0 {
            return false;
        }
        let _ = self.flags.pop();
        self.flags.push(true);
        true
    }

    /// Read generation `g`'s flag, as a worker of that generation polls it.
    pub fn is_signalled(&self, g: usize) -> (r: bool)
        requires
            g < self.generations().len(),
        ensures
            r == self.generations()[g as int],
    {
        self.flags[g]
    }
}

/// Law: in a well-formed controller, every generation but the current one
/// has been signalled to stop. A worker of a superseded generation
/// therefore observes the stop signal at its next poll, and its step
/// function stops it without forwarding or emitting anything further.
pub proof fn lemma_superseded_generation_signalled(c: &Controller, g: int)
    requires
        c.wf(),
        0 <= g < c.generations().len() - 1,
    ensures
        c.generations()[g],
{
}

} // verus!
