//! A user's email change, worked through progressively more testable
//! designs: first with data access wired into the domain object, then
//! as a pure function of its inputs, then as a domain model over a
//! company object, then guarded by an explicit can-execute check, then
//! with persisted users and collected events, and finally with domain
//! events routed through a dispatcher.

pub mod coupled;
pub mod dispatch;
pub mod domain;
pub mod events;
pub mod functional;
pub mod guarded;
