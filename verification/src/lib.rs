//! Coordination core of a four-slot weather display appliance.
//!
//! The library owns the business logic: postal-code validation, the
//! settings-resource text codecs, the connectivity retry state machine,
//! the steady-state request dispatch, the per-slot forecast pipeline,
//! and the presentation actor's state. Platform work (network, storage,
//! widgets) stays outside; time formatting is delegated to chrono behind
//! trusted wrappers.

pub mod channel;
pub mod connectivity;
pub mod forecast;
pub mod messages;
pub mod model;
pub mod numfmt;
pub mod presentation;
pub mod settings;
pub mod textcodec;
pub mod timefmt;
pub mod validation;
