//! Advisory lock files that are created atomically on any filesystem.
//!
//! A lock is a file at a well-known path. It is taken by linking a freshly
//! created temporary file to that path and then comparing the identity of
//! whatever the path holds with the identity of the temporary file: the outcome
//! of the link call itself is never relied upon.
//!
//! This crate holds the decisions of that protocol and proves them. It touches
//! no file: a driver performs each [`Action`] that an [`Acquisition`] asks for
//! and reports back what happened as an [`Event`].
use vstd::prelude::*;

pub mod acquire;
pub mod error;
pub mod exclusion;
pub mod identity;
pub mod lock;
pub mod options;
pub mod run;
pub mod span;

pub use acquire::Acquisition;
pub use acquire::AcquisitionView;
pub use acquire::Action;
pub use acquire::Event;
pub use acquire::Phase;
pub use acquire::Progress;
pub use acquire::ProgressView;
pub use acquire::Verdict;
pub use error::LockError;
pub use identity::FileIdentity;
pub use lock::Dotlock;
pub use lock::DotlockView;
pub use options::DotlockOptions;
pub use options::OptionsView;
pub use span::Span;
