//! An in-memory store of teams and their members.
//!
//! A [`Team`] is an ordered list of [`Member`]s, filed in a [`TeamStore`] under
//! an id that an [`IdCounter`] hands out. The four operations on the store are
//! [`create_team`], [`fetch_team`], [`add_member`] and [`remove_member`]; each
//! takes the outcome of acquiring the lock that guards the store and reports
//! how it ended. What holds between the operations is proved in [`laws`] and
//! [`history`].

pub mod counter;
pub mod history;
pub mod laws;
pub mod member;
pub mod service;
pub mod status;
pub mod store;
pub mod team;

pub use counter::IdCounter;
pub use member::{Member, MemberView};
pub use service::{add_member, create_team, fetch_team, remove_member};
pub use status::Status;
pub use store::TeamStore;
pub use team::Team;
