//! The playback worker's decisions.
//!
//! The worker around this module consumes sample buffers from the audio
//! relay strictly in arrival order, renders each to completion on the
//! output device before taking the next, and — while a buffer renders —
//! polls the shared cancellation flag on a short fixed interval, so
//! cancellation latency is bounded by that interval and not by the
//! remaining audio.

use vstd::prelude::*;
use crate::synth::SampleBuffer;

verus! {

/// What one iteration gave the playback worker.
pub enum PlaybackEvent {
    /// the flag was observed set before waiting for the next buffer
    CancelledBefore,
    /// the audio relay closed: no more audio will come
    RelayClosed,
    /// the next buffer arrived
    Received(SampleBuffer),
}

/// What the playback worker does with one iteration's observations.
pub enum PlaybackAction {
    /// stop cooperatively
    StopCancelled,
    /// exit cleanly: the upstream relay closed
    StopClosed,
    /// render exactly this buffer before taking the next one
    Play(SampleBuffer),
}

/// Decide one iteration of the playback loop.
pub fn playback_step(ev: PlaybackEvent) -> (a: PlaybackAction)
    ensures
        ev is CancelledBefore ==> a is StopCancelled,
        ev is RelayClosed ==> a is StopClosed,
        ev is Received ==> a is Play && a->Play_0 == ev->Received_0,
{
    match ev {
        PlaybackEvent::CancelledBefore => PlaybackAction::StopCancelled,
        PlaybackEvent::RelayClosed => PlaybackAction::StopClosed,
        PlaybackEvent::Received(b) => PlaybackAction::Play(b),
    }
}

/// What one poll decides while a buffer renders.
pub enum WaitDecision {
    /// this buffer finished rendering: take the next one
    FinishedUtterance,
    /// cancellation: silence the device at once, truncating the utterance
    StopCancelled,
    /// keep waiting, and poll again after the short fixed interval
    KeepWaiting,
}

/// Decide one poll while a buffer renders: `still_playing` is what the
/// device reported, `cancelled` the shared flag.
pub fn playback_wait_step(still_playing: bool, cancelled: bool) -> (d: WaitDecision)
    ensures
        !still_playing ==> d is FinishedUtterance,
        still_playing && cancelled ==> d is StopCancelled,
        still_playing && !cancelled ==> d is KeepWaiting,
{
    if !still_playing {
        WaitDecision::FinishedUtterance
    } else if cancelled {
        WaitDecision::StopCancelled
    } else {
        WaitDecision::KeepWaiting
    }
}

} // verus!
