//! Connection bookkeeping for a Bluetooth tray utility.
//!
//! The crate holds the decisions of the utility: which devices appear in the
//! menu, what a menu selection means, in which order the platform is asked to
//! open a connection, and which devices count as connected. Talking to the
//! platform itself is left to the caller, who hands the outcomes in as plain
//! values.

pub mod control;
pub mod directory;
pub mod dispatcher;
pub mod error;
pub mod ids;
pub mod registry;
pub mod sequence;
