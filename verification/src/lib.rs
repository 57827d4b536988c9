//! A playback scheduler for a voice-session music bot.
//!
//! The library is the bot's coordination core: a queue of pending tracks, a
//! finite status, and an optional current track, driven by concurrent command
//! handlers (enqueue, skip, pause, resume, disconnect), a single playback
//! loop, and the audio engine's completion event. Every transition is an
//! operation on [`scheduler::Scheduler`] with a contract; the surrounding
//! process (chat platform, audio engine, network) performs the returned
//! effects.

pub mod laws;
pub mod links;
pub mod scheduler;
pub mod status;
pub mod tarkov;
pub mod track;
