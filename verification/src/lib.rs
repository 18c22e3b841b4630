//! A content-addressed object store with per-identity version chains.
//!
//! Values that can report an identity and serialize themselves to bytes are
//! kept in a content-addressed store; each logical identity carries an ordered
//! history of content addresses on a branch, whose last element is the
//! identity's current head.

pub mod address;
pub mod branch;
pub mod codec;
pub mod datastore;
pub mod storable;

pub use address::Address;
pub use branch::{Agent, Branch};
pub use datastore::{Datastore, Delta, RegisterError};
pub use storable::{Identity, Record, Storable};
