//! Reconciliation of raw game-controller samples into a stable logical state.
//!
//! The library turns per-frame raw samples (buttons, sticks, triggers,
//! attributes) from a multi-style controller backend into one uniform state
//! object with edge-triggered press/release sets and a configurable
//! autorepeat tracker.  The backend itself (style queries and the sampling
//! calls) is an unverified collaborator: callers fetch a raw sample and hand
//! it to the reconciler here as plain data.

pub mod any;
pub mod autorepeat;
pub mod buttons;
pub mod controller;
pub mod sample;
pub mod style;

pub use autorepeat::AutorepeatInfo;
pub use buttons::Attributes;
pub use buttons::Buttons;
pub use controller::Controller;
pub use sample::CommonSample;
pub use sample::GcSample;
pub use sample::StickState;
pub use sample::StyleSample;
pub use style::ControllerStyle;
