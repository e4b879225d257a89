//! Decision logic of the Ballista terminal dashboard: which input events reach
//! the application, in what order, how the main loop reacts to them, and how
//! freshly loaded scheduler data replaces what the dashboard shows.

pub mod event;
pub mod key_queue;
pub mod dashboard;
pub mod session;
