//! Per-tenant media playback queue engine.
//!
//! The library coordinates, for each guild (tenant), a FIFO queue of
//! resolved playable items together with a per-tenant playing flag, and
//! drives the "consume one item, try to play it, skip past failures"
//! advance loop that must survive playback errors without stalling.
//!
//! Network, subprocess and voice-transport plumbing live outside the
//! library; the one outside call made here is URL parsing, used to
//! classify play requests.

pub mod advance;
pub mod command;
pub mod item;
pub mod pot;
pub mod resolve;
pub mod text;
pub mod yt;
