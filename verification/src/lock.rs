//! The handle of a lock that is held.
use vstd::prelude::*;
use crate::acquire::Acquisition;
use crate::acquire::AcquisitionView;
use crate::identity::FileIdentity;
use crate::options::DotlockOptions;
use crate::options::OptionsView;
use std::path::PathBuf;

verus! {

/// `std::path::PathBuf`, the path of the lock file. It is carried through as
/// the caller gave it, unread.
#[verifier::external_type_specification]
#[verifier::external_body]
pub struct ExPathBuf(std::path::PathBuf);

/// A created ".lock" file.
///
/// A handle comes only from an acquisition that won. It is locked from then
/// on until it is unlocked, and never locked again.
#[derive(Debug)]
pub struct Dotlock {
    pub(crate) path: Option<PathBuf>,
    pub(crate) id: FileIdentity,
}

/// What a handle stands for.
pub struct DotlockView {
    /// The path that the handle claims: that of its lock file while it is
    /// locked, none once it is unlocked.
    pub path: Option<PathBuf>,
    /// The identity of the lock file, as it was when the lock was taken.
    pub id: FileIdentity,
}

impl DotlockView {
    /// Does the handle still claim its path?
    pub open spec fn locked(self) -> bool {
        self.path is Some
    }

    /// The handle once it has been unlocked.
    pub open spec fn released(self) -> DotlockView {
        DotlockView { path: None, id: self.id }
    }
}

impl View for Dotlock {
    type V = DotlockView;

    open(crate) spec fn view(&self) -> DotlockView {
        DotlockView { path: self.path, id: self.id }
    }
}

impl Dotlock {
    /// Begin to create the named lock file using the default options.
    pub fn create(path: PathBuf) -> (acquisition: Acquisition)
        ensures
            acquisition@ == AcquisitionView::fresh(OptionsView::defaults(), path),
            acquisition@.wf(),
    {
        DotlockOptions::new().create(path)
    }

    /// Unlocks the lock. The first call returns the path of the lock file,
    /// which the caller is to remove; the handle is unlocked from then on,
    /// whether or not that removal succeeds. Every later call returns `None`
    /// and changes nothing, so that no file is removed twice.
    pub fn unlock(&mut self) -> (remove: Option<PathBuf>)
        ensures
            remove == old(self)@.path,
            final(self)@ == old(self)@.released(),
    {
        let mut remove: Option<PathBuf> = None;
        std::mem::swap(&mut self.path, &mut remove);
        remove
    }

    /// Does the handle still claim its path?
    pub fn is_locked(&self) -> (locked: bool)
        ensures
            locked == self@.locked(),
    {
        self.path.is_some()
    }

    /// The identity of the lock file, as it was when the lock was taken.
    pub fn identity(&self) -> (id: FileIdentity)
        ensures
            id == self@.id,
    {
        self.id
    }
}

/// Release is idempotent. Once a handle is unlocked it claims no path, so
/// that a second `unlock` hands out nothing to remove, and it changes nothing
/// more: unlocking twice is unlocking once.
pub proof fn lemma_release_is_idempotent(lock: DotlockView)
    ensures
        !lock.released().locked(),
        lock.released().path is None,
        lock.released().released() == lock.released(),
{
}

} // verus!
