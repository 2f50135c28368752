//! A minimal username registry: each alias record binds a human-chosen
//! username to the identity that owns it, together with the time it was
//! claimed. The registry offers exactly two operations, `register` and
//! `update`, both pure functions from the current record state, the
//! authenticated caller and the operation's inputs to a new record or an
//! error. Persistent storage, caller authentication and the clock are host
//! concerns: the host hands their values in and persists what comes back.

pub mod identity;
pub mod laws;
pub mod registry;

pub use identity::Identity;
pub use registry::{Alias, DixError, Register, Update, register, update};
