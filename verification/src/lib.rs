//! The batch download engine of the launcher, and the rules of the services
//! around it.
//!
//! The engine fetches a list of [`Downloadable`]s under a concurrency limit,
//! skips destinations that are fresh already, verifies size and checksum,
//! and keeps the progress counters. It is written as a state machine: the
//! caller does the network and filesystem work and reports each event to a
//! [`batch::Batch`], whose transitions are specified in [`model`] and whose
//! invariants are proved in [`lemmas`].
//!
//! [`account`], [`manager`], [`consent`], [`import`] and [`reaper`] hold the
//! decisions of the account manager, the consent service, the instance
//! importer and the process reaper.

pub mod account;
pub mod batch;
pub mod checksum;
pub mod consent;
pub mod descriptor;
pub mod error;
pub mod freshness;
pub mod gate;
pub mod import;
pub mod lemmas;
pub mod manager;
pub mod model;
pub mod progress;
pub mod reaper;
pub mod transfer;

pub use checksum::Checksum;
pub use descriptor::{Downloadable, IntoDownloadable, IntoVecDownloadable};
pub use error::DownloadError;
pub use progress::Progress;
