//! The speech-synthesis worker's decisions.
//!
//! The worker around this module consumes utterance text from the message
//! relay in arrival order, hands each text to the synthesis engine, and
//! polls the shared cancellation flag before and after each synthesis
//! call. What it then does with one iteration's observations — concatenate
//! the fragments, emit the buffer, or stop — stands here, verified.

use vstd::prelude::*;

verus! {

/// One utterance's audio: mono samples at the pipeline's fixed rate, each
/// carried opaquely as its 32-bit sample word. Only the device side gives
/// a word meaning; this library moves and orders them.
pub struct SampleBuffer {
    pub samples: Vec<u32>,
}

impl View for SampleBuffer {
    type V = Seq<u32>;

    open spec fn view(&self) -> Seq<u32> {
        self.samples@
    }
}

/// The sample sequences a fragment list stands for, in production order.
pub open spec fn fragments_model(frags: Vec<Vec<u32>>) -> Seq<Seq<u32>> {
    frags@.map_values(|f: Vec<u32>| f@)
}

/// Concatenate synthesized fragments, in production order, into the one
/// buffer for this utterance.
pub fn concat_fragments(frags: &Vec<Vec<u32>>) -> (b: SampleBuffer)
    ensures
        b@ == fragments_model(*frags).flatten(),
{
    let mut samples: Vec<u32> = Vec::new();
    let mut i: usize = 0;
    proof {
        assert(fragments_model(*frags).subrange(0, 0).flatten() =~= Seq::<u32>::empty());
    }
    while i < frags.len()
        invariant
            0 <= i <= frags@.len(),
            samples@ == fragments_model(*frags).subrange(0, i as int).flatten(),
        decreases frags@.len() - i,
    {
        samples.extend_from_slice(frags[i].as_slice());
        proof {
            let fm = fragments_model(*frags);
            assert(fm.subrange(0, i as int).push(fm[i as int]) =~= fm.subrange(0, i + 1));
            fm.subrange(0, i as int).lemma_flatten_push(fm[i as int]);
        }
        i = i + 1;
    }
    proof {
        assert(fragments_model(*frags).subrange(0, frags@.len() as int) =~= fragments_model(
            *frags,
        ));
    }
    SampleBuffer { samples }
}

/// What one iteration gave the synthesis worker.
pub enum SynthEvent {
    /// the flag was observed set before taking up the next utterance
    CancelledBefore,
    /// the message relay closed: no more text will come
    RelayClosed,
    /// the engine failed; a broken engine is not recoverable within a
    /// generation
    EngineFailed,
    /// fragments synthesized for one utterance, and the flag as observed
    /// right after the synthesis call
    Synthesized(Vec<Vec<u32>>, bool),
}

/// What the synthesis worker does with one iteration's observations.
pub enum SynthAction {
    /// stop cooperatively; whatever was synthesized is discarded
    StopCancelled,
    /// exit cleanly: the upstream relay closed
    StopClosed,
    /// stop and report the engine error
    StopEngineFailed,
    /// hand this buffer to the audio relay
    Emit(SampleBuffer),
}

/// Decide one iteration of the synthesis loop.
pub fn synth_step(ev: SynthEvent) -> (a: SynthAction)
    ensures
        ev is CancelledBefore ==> a is StopCancelled,
        ev is RelayClosed ==> a is StopClosed,
        ev is EngineFailed ==> a is StopEngineFailed,
        // a cancellation observed after synthesis keeps that call's output
        // from ever reaching the audio relay
        ev is Synthesized && ev->Synthesized_1 ==> a is StopCancelled,
        ev is Synthesized && !ev->Synthesized_1 ==> a is Emit && a->Emit_0@ == fragments_model(
            ev->Synthesized_0,
        ).flatten(),
{
    match ev {
        SynthEvent::CancelledBefore => SynthAction::StopCancelled,
        SynthEvent::RelayClosed => SynthAction::StopClosed,
        SynthEvent::EngineFailed => SynthAction::StopEngineFailed,
        SynthEvent::Synthesized(frags, cancelled_after) => {
            let b = concat_fragments(&frags);
            if cancelled_after {
                SynthAction::StopCancelled
            } else {
                SynthAction::Emit(b)
            }
        },
    }
}

} // verus!
