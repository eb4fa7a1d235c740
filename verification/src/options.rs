//! How a lock file is to be taken.
use vstd::prelude::*;
use crate::acquire::Acquisition;
use crate::acquire::AcquisitionView;
use crate::acquire::Phase;
use crate::span::Span;
use std::path::PathBuf;

verus! {

/// The number of seconds between two attempts unless `pause` says otherwise.
pub const DEFAULT_PAUSE_SECS: u64 = 5;

/// The number of attempts unless `tries` says otherwise.
pub const DEFAULT_TRIES: usize = 10;

/// Options which configure how a lock file is created.
///
/// Start from [`DotlockOptions::new`], chain the methods that set what should
/// differ from the defaults, and call [`DotlockOptions::create`] with the
/// path of the lock file.
#[derive(Debug)]
pub struct DotlockOptions {
    pub(crate) pause: Span,
    pub(crate) tries: usize,
    pub(crate) permissions: Option<u32>,
    pub(crate) stale_age: Option<Span>,
}

/// What a set of options says.
pub struct OptionsView {
    /// The time to wait between two attempts.
    pub pause: Span,
    /// The number of attempts that may be used up.
    pub tries: nat,
    /// The permission bits to give the lock file, if any.
    pub permissions: Option<u32>,
    /// The age beyond which an existing lock file counts as abandoned, if any.
    pub stale_age: Option<Span>,
}

impl OptionsView {
    /// At least one attempt is always made.
    pub open spec fn wf(self) -> bool {
        self.tries >= 1
    }

    /// A pause of five seconds, ten tries, the permissions that the process's
    /// umask gives, and no lock file ever taken for stale.
    pub open spec fn defaults() -> OptionsView {
        OptionsView {
            pause: Span { nanos: 5_000_000_000 },
            tries: 10,
            permissions: None,
            stale_age: None,
        }
    }
}

impl View for DotlockOptions {
    type V = OptionsView;

    open(crate) spec fn view(&self) -> OptionsView {
        OptionsView {
            pause: self.pause,
            tries: self.tries as nat,
            permissions: self.permissions,
            stale_age: self.stale_age,
        }
    }
}

impl DotlockOptions {
    #[verifier::type_invariant]
    pub(crate) open spec fn inv(self) -> bool {
        self.tries >= 1
    }

    /// Create a new set of options, with the defaults.
    pub fn new() -> (options: Self)
        ensures
            options@ == OptionsView::defaults(),
            options@.wf(),
    {
        Self {
            pause: Span::from_secs(DEFAULT_PAUSE_SECS),
            tries: DEFAULT_TRIES,
            permissions: None,
            stale_age: None,
        }
    }

    /// Set the time to pause between attempts to create the lock file. A
    /// pause of zero is legal: the attempts then follow each other at once.
    pub fn pause(self, pause: Span) -> (options: Self)
        ensures
            options@ == (OptionsView { pause, ..self@ }),
            options@.wf(),
    {
        proof {
            use_type_invariant(&self);
        }
        Self { pause, ..self }
    }

    /// Set the number of times to try to create the lock file. Fewer than one
    /// counts as one.
    pub fn tries(self, tries: usize) -> (options: Self)
        ensures
            options@ == (OptionsView { tries: if tries >= 1 { tries as nat } else { 1 }, ..self@ }),
            options@.wf(),
    {
        Self { tries: if tries >= 1 { tries } else { 1 }, ..self }
    }

    /// Set the permission bits of the newly created lock file. If not set,
    /// they are those that the process's umask gives.
    pub fn permissions(self, mode: u32) -> (options: Self)
        ensures
            options@ == (OptionsView { permissions: Some(mode), ..self@ }),
            options@.wf(),
    {
        proof {
            use_type_invariant(&self);
        }
        Self { permissions: Some(mode), ..self }
    }

    /// Set the age beyond which an existing lock file is taken for abandoned
    /// and removed. If not set, no lock file is ever removed for its age. An
    /// age of zero makes every existing lock file stale.
    pub fn stale_age(self, age: Span) -> (options: Self)
        ensures
            options@ == (OptionsView { stale_age: Some(age), ..self@ }),
            options@.wf(),
    {
        proof {
            use_type_invariant(&self);
        }
        Self { stale_age: Some(age), ..self }
    }

    /// Begin to create the lock file at `path` with these options. Nothing has
    /// been tried yet: the acquisition that is returned asks for the first
    /// temporary file.
    pub fn create(self, path: PathBuf) -> (acquisition: Acquisition)
        ensures
            acquisition@ == AcquisitionView::fresh(self@, path),
            acquisition@.wf(),
    {
        proof {
            use_type_invariant(&self);
        }
        Acquisition { options: self, path, phase: Phase::CreatingTemp, failures: 0 }
    }
}

} // verus!
