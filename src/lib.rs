//! A status client core for a compositor's window-manager status protocol:
//! capability binding, event aggregation, the publication gate and the
//! snapshot projection.
pub mod tags;
pub mod binder;
pub mod aggregate;
pub mod session;
