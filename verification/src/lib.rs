//! Speech-capture-and-transcription core.
//!
//! The library records audio through a guarded session state machine, decides
//! at call time whether to transcribe through a remote streaming backend or a
//! local offline engine, and returns normalized text. All decision logic, the
//! streaming wire protocol, and the failure/fallback policy live here and are
//! verified; network and file transport are driven by the embedding
//! application, which hands plain values (probe results, received frames,
//! response bodies) back into the verified core.

pub mod errors;
pub mod recording;
pub mod modes;
pub mod wire;
pub mod stream;
pub mod rest;
pub mod speech;
