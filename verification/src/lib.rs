//! The state-transition core of an admin registry with shared donations.
//!
//! A registry is an ordered list of validated addresses. Its members may add
//! further members, any member may leave, and a donation in the configured
//! denomination is split evenly among the members. Every handler is a function
//! of the stored state and one call; storage, address validation and the
//! transfer of funds belong to the host.

pub mod contract;
pub mod error;
pub mod laws;
pub mod msg;
pub mod response;
pub mod state;
