//! Routes PCM audio from named sources to named sinks. Each sink is fed by at
//! most one source at a time, chosen at run time, with its own mute and
//! volume.
pub mod backend;
pub mod config;
pub mod gain;
pub mod proto;
pub mod ring;
pub mod sink;
pub mod source;
pub mod switcher;
