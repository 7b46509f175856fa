//! Verified core of an audio-to-network spectrum streamer.
//!
//! Live audio arrives in chunks of arbitrary length, is regrouped into
//! fixed-length frames, transformed into a magnitude spectrum, split into
//! bands and sent to a network target, one message per band. This crate
//! holds the parts of that pipeline that decide and arrange:
//!
//! - [`frame`]: regrouping chunks into frames without losing, duplicating
//!   or reordering a sample;
//! - [`spectrum`]: the spectrum of a frame and where its bins lie;
//! - [`band`]: splitting a spectrum into bands and addressing them;
//! - [`text`]: decimal numerals, as addresses need them;
//! - [`config`] and [`device`]: what a run is started with;
//! - [`session`]: the life cycle of a capture session, as a state machine
//!   that tells its driver what to acquire and release, and in what order;
//! - [`session_laws`]: what holds of every session, whatever its driver
//!   reports.
//!
//! Samples and magnitudes are type parameters throughout: the crate moves
//! and groups them and never computes with them. Capturing, transforming
//! and sending are left to the program that drives the crate.

pub mod band;
pub mod config;
pub mod device;
pub mod frame;
pub mod session;
pub mod session_laws;
pub mod spectrum;
pub mod text;
