//! Playback glue for a small media player: mapping decoded pixel layouts onto
//! the layouts a presentation surface can show, laying out planes in a
//! surface's pixel buffer, interleaving and draining audio samples, pacing
//! frames against a wall clock, and the decisions of the presentation loop.

pub mod format;
pub mod audio;
pub mod clock;
pub mod events;
pub mod playback;
pub mod cli;
