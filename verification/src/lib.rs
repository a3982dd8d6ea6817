//! Issuance of attendance badges for a time-limited event.
//!
//! A component is set up once with a registry of badges and a deadline seven
//! days after setup. Until the deadline anyone may claim one badge per call by
//! naming a team; the registry lets only the component itself mint.

pub mod access;
pub mod address;
pub mod error;
pub mod hacker;
pub mod hello;
pub mod resource;
pub mod time;

pub use access::{AccessRule, Actor, OwnerRole};
pub use address::{ComponentAddress, ResourceAddress};
pub use error::BadgeError;
pub use hacker::Hacker;
pub use hello::Hello;
pub use resource::{Bucket, MintError, NonFungibleLocalId, ResourceManager};
pub use time::{Instant, TimeComparisonOperator};
