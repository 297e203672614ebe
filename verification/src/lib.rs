//! A guarded single-shot input-to-action control loop.
//!
//! A [`control::SpaceInvader`] owns an opaque identity and a fixed
//! configuration. Its one operation asserts a configuration invariant (no
//! override configuration present), classifies the configured input signal,
//! forwards an accepted signal to an [`actuator::Actuator`], and reports a
//! terminal success or failure.

pub mod actuator;
pub mod control;
