//! Voice-command recognition: the capture-lifecycle controller, the intent
//! matcher and the pure parts of the audio pipeline.

pub mod api;
pub mod controller;
pub mod intent;
pub mod speech;
pub mod text_match;
pub mod trace;
pub mod wav;
