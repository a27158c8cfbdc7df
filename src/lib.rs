//! Sprite-sheet animation playback: tags, directions, repeat policies, queued
//! follow-ups and relative frame holds, driven one tick at a time.
pub mod animation;
pub mod loader;
pub mod error;
pub mod playback;
pub mod lemmas;
pub mod sheet;
pub mod processed;
