//! An interval ("every minute on the minute") countdown engine: a
//! tenth-of-second countdown value, a round tracker, a self-correcting
//! tick scheduler, and a blink-cue derivation, with verified contracts.

pub mod countdown_timer;
pub mod emomtimer;
pub mod engine;
