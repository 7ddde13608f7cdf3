//! Watches one public web page for meaningful changes and decides what to
//! tell its subscribers.

pub mod config;
pub mod detect;
pub mod failure;
pub mod fingerprint;
pub mod normalize;
pub mod notify;
pub mod run;
pub mod text;
