//! A chat-to-speech streaming pipeline.
//!
//! Raw protocol lines from a chat feed are parsed into chat messages,
//! message text is synthesized into sample buffers, and the buffers are
//! rendered in arrival order. A controller owns the lifecycle: exactly one
//! pipeline generation is current at a time, and cancellation is
//! cooperative, through a flag each worker polls.
//!
//! The decision logic of every stage lives here, verified: parsing, the
//! per-iteration worker steps, the relays, and the controller. The
//! surrounding I/O (the network connection, the synthesis engine, the
//! audio device) stays outside and hands this library plain values.

pub mod controller;
pub mod ingest;
pub mod parse;
pub mod pipeline;
pub mod playback;
pub mod relay;
pub mod speakers;
pub mod synth;

pub use parse::ChatMessage;
pub use parse::parse_message;
