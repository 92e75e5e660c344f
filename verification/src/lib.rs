//! Kinematic core of a rolling-circle (hypocycloid) tracer.
//!
//! A circle rolls without slipping inside a larger one, and a point fixed to
//! it leaves a path behind. This crate keeps the frames of that apparatus,
//! decides at every tick what is turned about which point and in which order,
//! records the path, pairs it with the directions that companion curves are
//! offset along, and turns the host's time into ticks.
//!
//! Every real number here is carried as the 32-bit encoding of an IEEE 754
//! single-precision value, so that classification and ordering are integer
//! facts. The arithmetic on those values (rotating a frame, renormalising an
//! orientation, offsetting a point) is handed in by the caller as functions;
//! this crate fixes what they are called with and what is done with what they
//! return.
//!
//! - [`scalar`], [`frame`]: values, positions, orientations, frames.
//! - [`gearing`]: the no-slip constraint between revolution and spin.
//! - [`motion`]: the steps of a tick, as values.
//! - [`tracker`]: the tracker itself.
//! - [`offset`]: companion curves.
//! - [`clock`]: the fixed-step clock.
//! - [`style`]: colours and switches for a renderer.
//! - [`error`]: what can go wrong.

pub mod clock;
pub mod error;
pub mod frame;
pub mod gearing;
pub mod motion;
pub mod offset;
pub mod scalar;
pub mod style;
pub mod tracker;
