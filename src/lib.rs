//! Orchestration core of a trip planner: a per-trip actor that holds the
//! trip's definition, an append-only conversation log, and the two flows
//! (trip creation and chat turn) that coordinate them with a text
//! generation service.
pub mod trip;
pub mod validate;
pub mod text;
pub mod log;
pub mod creation;
pub mod chat;
pub mod route;

pub use trip::{SessionReply, SessionRequest, TripData, TripDefinition, TripSession};
