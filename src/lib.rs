//! An identity service core: user records, password sign-in and an optional
//! time-based one-time-password second factor, driven as a state machine over a
//! user store and a per-client session record.

pub mod auth;
pub mod error;
pub mod laws;
pub mod otp;
pub mod params;
pub mod session;
pub mod store;
pub mod user;
