//! The pipeline, end to end: a sequential model of one generation.
//!
//! The three workers run concurrently, but every stage is depth one and
//! the two relays are ordered, so the observable outcome — which buffers
//! reach the device, and in what order — is that of this sequential run.
//! The synthesized fragments for each utterance are given as arguments:
//! what the engine returns for a text is outside this library, and the
//! guarantees here hold whatever it returned.

use vstd::prelude::*;
use crate::playback::PlaybackAction;
use crate::playback::PlaybackEvent;
use crate::playback::playback_step;
use crate::relay::Relay;
use crate::synth::SampleBuffer;
use crate::synth::SynthAction;
use crate::synth::SynthEvent;
use crate::synth::fragments_model;
use crate::synth::synth_step;

verus! {

/// The first utterance at or after `i` whose post-synthesis poll saw the
/// flag set, or the number of utterances when none did.
pub open spec fn cutoff_from(cancels: Seq<bool>, i: int) -> int
    decreases cancels.len() - i,
{
    if i >= cancels.len() {
        cancels.len() as int
    } else if i >= 0 && cancels[i] {
        i
    } else {
        cutoff_from(cancels, i + 1)
    }
}

/// When no poll saw the flag set, the cutoff is the number of utterances.
pub proof fn lemma_cutoff_all_clear(cancels: Seq<bool>, i: int)
    requires
        0 <= i <= cancels.len(),
        forall|j: int| i <= j < cancels.len() ==> !cancels[j],
    ensures
        cutoff_from(cancels, i) == cancels.len(),
    decreases cancels.len() - i,
{
    if i < cancels.len() {
        lemma_cutoff_all_clear(cancels, i + 1);
    }
}

/// Law: one generation, run to quiescence over `n` well-formed input
/// texts. `fragments[j]` is what the engine produced for `texts[j]`, and
/// `cancels[j]` is the flag as polled right after that synthesis call.
/// The device receives exactly one buffer per utterance synthesized
/// before the first positive poll, in submission order, each the
/// concatenation of its own fragments — and nothing at or after the
/// cutoff ever reaches it.
pub fn run_generation(texts: Vec<String>, fragments: Vec<Vec<Vec<u32>>>, cancels: Vec<bool>) -> (
    played: Vec<SampleBuffer>)
    requires
        texts@.len() == fragments@.len(),
        texts@.len() == cancels@.len(),
    ensures
        played@.len() == cutoff_from(cancels@, 0),
        forall|j: int|
            0 <= j < played@.len() ==> played@[j]@ == fragments_model(fragments@[j]).flatten(),
        (forall|j: int| 0 <= j < cancels@.len() ==> !cancels@[j]) ==> played@.len()
            == texts@.len(),
{
    let ghost texts0 = texts@;
    let ghost frags0 = fragments@;
    let ghost cans0 = cancels@;
    let n = texts.len();
    let mut texts = texts;
    let mut fragments = fragments;
    let mut cancels = cancels;

    // Ingest hands the accepted texts to the message relay, in order.
    let mut msg_relay: Relay<String> = Relay::new();
    while texts.len() > 0
        invariant
            msg_relay.pending() + texts@ == texts0,
            !msg_relay.is_closed(),
        decreases texts@.len(),
    {
        let t = texts.remove(0);
        let _ = msg_relay.send(t);
        proof {
            assert(msg_relay.pending() + texts@ =~= texts0);
        }
    }
    assert(msg_relay.pending() =~= texts0);

    // The synthesis worker drains the message relay in arrival order,
    // one utterance at a time, and stops at the first positive poll.
    let mut audio_relay: Relay<SampleBuffer> = Relay::new();
    let mut i: usize = 0;
    let mut stopped = false;
    while i < n && !stopped
        invariant
            0 <= i <= n,
            n == texts0.len(),
            frags0.len() == n as int,
            cans0.len() == n as int,
            fragments@ == frags0.subrange(i as int, n as int),
            cancels@ == cans0.subrange(i as int, n as int),
            msg_relay.pending() == texts0.subrange(i as int, n as int),
            !msg_relay.is_closed(),
            !audio_relay.is_closed(),
            !stopped ==> cutoff_from(cans0, 0) == cutoff_from(cans0, i as int),
            stopped ==> i >= 1 && cutoff_from(cans0, 0) == i - 1,
            audio_relay.pending().len() == (if stopped {
                i - 1
            } else {
                i as int
            }),
            forall|j: int|
                0 <= j < audio_relay.pending().len() ==> audio_relay.pending()[j]@
                    == fragments_model(frags0[j]).flatten(),
        decreases n - i,
    {
        let _text = msg_relay.recv();
        proof {
            assert(texts0.subrange(i as int, n as int).drop_first() =~= texts0.subrange(
                i + 1,
                n as int,
            ));
            assert(frags0.subrange(i as int, n as int).drop_first() =~= frags0.subrange(
                i + 1,
                n as int,
            ));
            assert(cans0.subrange(i as int, n as int).drop_first() =~= cans0.subrange(
                i + 1,
                n as int,
            ));
        }
        let f = fragments.remove(0);
        let c = cancels.remove(0);
        let a = synth_step(SynthEvent::Synthesized(f, c));
        match a {
            SynthAction::Emit(b) => {
                let _ = audio_relay.send(b);
                proof {
                    assert(cutoff_from(cans0, i as int) == cutoff_from(cans0, i + 1));
                }
            },
            _ => {
                stopped = true;
                assert(cans0[i as int]);
                assert(cutoff_from(cans0, i as int) == i as int);
            },
        }
        i = i + 1;
    }
    assert(audio_relay.pending().len() == cutoff_from(cans0, 0)) by {
        if !stopped {
            assert(cutoff_from(cans0, n as int) == n as int);
        }
    }

    // The playback worker drains the audio relay, rendering each buffer
    // before taking the next; a closed relay ends it cleanly.
    let ghost audio0 = audio_relay.pending();
    let mut played: Vec<SampleBuffer> = Vec::new();
    while audio_relay.len() > 0
        invariant
            played@ + audio_relay.pending() == audio0,
        decreases audio_relay.pending().len(),
    {
        let ev = match audio_relay.recv() {
            Some(b) => PlaybackEvent::Received(b),
            None => PlaybackEvent::RelayClosed,
        };
        match playback_step(ev) {
            PlaybackAction::Play(b) => {
                played.push(b);
            },
            _ => {
                // a non-empty relay always hands out a buffer, and the
                // step answers a received buffer with a play
                assert(false);
            },
        }
        proof {
            assert(played@ + audio_relay.pending() =~= audio0);
        }
    }
    assert(played@ =~= audio0);
    proof {
        if forall|j: int| 0 <= j < cans0.len() ==> !cans0[j] {
            lemma_cutoff_all_clear(cans0, 0);
        }
    }
    played
}

} // verus!
