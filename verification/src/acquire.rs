//! Taking a lock: the protocol, one step at a time.
//!
//! One attempt creates a uniquely named temporary file beside the lock file,
//! links it to the lock file's path, deletes the temporary name and then looks
//! at what the path holds. The attempt has won exactly if that is the temporary
//! file itself. What the link call reported plays no part: under contention,
//! and on network filesystems, it says nothing reliable about who won.
use vstd::prelude::*;
use crate::error::LockError;
use crate::identity::FileIdentity;
use crate::lock::Dotlock;
use crate::lock::DotlockView;
use crate::options::DotlockOptions;
use crate::options::OptionsView;
use crate::span::Span;
use std::path::PathBuf;

verus! {

/// What the driver is to do next.
#[derive(Clone, Copy, Debug, PartialEq, Eq, Structural)]
pub enum Action {
    /// Create a uniquely named temporary file in the directory of the lock
    /// file, keep it open, and read its identity.
    CreateTemp,
    /// Hard-link the temporary file to the lock file's path.
    Link,
    /// Delete the temporary file's own name, keeping the file open.
    DiscardTemp,
    /// Read the identity and the time of last modification of whatever the
    /// lock file's path holds, and the current time.
    Examine,
    /// Set the permission bits of the file that is held open.
    SetPermissions(u32),
    /// Remove the lock file's path, which holds a stale lock.
    RemoveStale,
    /// Wait for the given time.
    Sleep(Span),
}

/// What came of the action that was asked for.
#[derive(Debug)]
pub enum Event {
    /// The temporary file exists and has this identity.
    TempCreated(FileIdentity),
    /// The temporary file could not be created, or its identity not read.
    TempFailed(std::io::Error),
    /// The link call returned; `true` if it reported success.
    LinkAttempted(bool),
    /// The temporary file's own name is gone.
    TempDiscarded,
    /// The lock file's path holds a file.
    Found {
        /// The identity of that file.
        id: FileIdentity,
        /// When it was last modified, if that can be told.
        modified: Option<Span>,
        /// The current time.
        now: Span,
    },
    /// The lock file's path could not be examined; most likely it holds
    /// nothing.
    NotFound,
    /// The permission bits are set.
    PermissionsSet,
    /// The permission bits could not be set.
    PermissionsFailed(std::io::Error),
    /// The call that removes the stale lock file returned; `true` if it
    /// reported success.
    RemoveAttempted(bool),
    /// The wait is over.
    Slept,
}

/// What one look at the lock file's path means to the attempt that made it.
#[derive(Clone, Copy, Debug, PartialEq, Eq, Structural)]
pub enum Verdict {
    /// The path holds the attempt's own temporary file: the lock is taken.
    Won,
    /// The path holds another file, which is older than the options allow.
    Stale,
    /// The path holds another file, which is to be respected.
    Lost,
}

/// Where within an attempt an acquisition stands.
#[derive(Clone, Copy, Debug, PartialEq, Eq, Structural)]
pub enum Phase {
    /// A temporary file is to be created.
    CreatingTemp,
    /// The temporary file with this identity is to be linked.
    Linking(FileIdentity),
    /// The temporary file's name is to be deleted.
    DiscardingTemp(FileIdentity),
    /// The lock file's path is to be examined.
    Examining(FileIdentity),
    /// The lock is won; the permission bits are to be set.
    SettingPermissions(FileIdentity, u32),
    /// A stale lock file is to be removed.
    RemovingStale,
    /// The pause before the next attempt is to be made.
    Sleeping,
}

/// An acquisition under way.
#[derive(Debug)]
pub struct Acquisition {
    pub(crate) options: DotlockOptions,
    pub(crate) path: PathBuf,
    pub(crate) phase: Phase,
    /// The attempts that are used up: those that ended without the lock and
    /// without the removal of a stale lock file.
    pub(crate) failures: usize,
}

/// An acquisition after one more event.
#[derive(Debug)]
pub enum Progress {
    /// There is more to do.
    Pending(Acquisition),
    /// The lock is taken.
    Acquired(Dotlock),
    /// The lock was not taken.
    Failed(LockError),
}

/// Is a file that was last modified at `modified` stale at the time `now`, if
/// `limit` is the age beyond which a lock file counts as abandoned? Without a
/// limit nothing is stale; with a limit of zero everything is; otherwise a file
/// is stale if it is older than the limit, and not if its age cannot be told.
pub open spec fn stale_at(limit: Option<Span>, modified: Option<Span>, now: Span) -> bool {
    match limit {
        None => false,
        Some(limit) => limit.nanos == 0 || match modified {
            None => false,
            Some(modified) => modified.nanos + limit.nanos < now.nanos,
        },
    }
}

/// What it means to an attempt with the temporary file `temp` that the lock
/// file's path holds the file `dest`.
pub open spec fn verdict_of(
    temp: FileIdentity,
    limit: Option<Span>,
    dest: FileIdentity,
    modified: Option<Span>,
    now: Span,
) -> Verdict {
    if dest == temp {
        Verdict::Won
    } else if stale_at(limit, modified, now) {
        Verdict::Stale
    } else {
        Verdict::Lost
    }
}

/// Decides whether a lock file is stale.
pub fn is_stale(limit: Option<Span>, modified: Option<Span>, now: Span) -> (stale: bool)
    ensures
        stale == stale_at(limit, modified, now),
{
    match limit {
        None => false,
        Some(limit) => limit.nanos == 0 || match modified {
            None => false,
            Some(modified) => now.nanos > modified.nanos && now.nanos - modified.nanos
                > limit.nanos,
        },
    }
}

/// Decides what one look at the lock file's path means: the comparison of
/// identities comes first, and only another's file can be stale.
pub fn judge(
    temp: FileIdentity,
    limit: Option<Span>,
    dest: FileIdentity,
    modified: Option<Span>,
    now: Span,
) -> (verdict: Verdict)
    ensures
        verdict == verdict_of(temp, limit, dest, modified, now),
{
    if dest.same_file(&temp) {
        Verdict::Won
    } else if is_stale(limit, modified, now) {
        Verdict::Stale
    } else {
        Verdict::Lost
    }
}

/// What an acquisition under way stands for.
pub struct AcquisitionView {
    /// The options that it was begun with.
    pub options: OptionsView,
    /// The path of the lock file.
    pub path: PathBuf,
    /// Where within an attempt it stands.
    pub phase: Phase,
    /// The attempts that are used up: those that ended without the lock and
    /// without the removal of a stale lock file.
    pub failures: nat,
}

/// What an acquisition after one more event stands for.
pub enum ProgressView {
    /// There is more to do.
    Pending(AcquisitionView),
    /// The lock is taken.
    Acquired(DotlockView),
    /// The lock was not taken.
    Failed(LockError),
}

impl AcquisitionView {
    /// At least one attempt is allowed, and not all of them are used up.
    pub open spec fn wf(self) -> bool {
        self.options.wf() && self.failures < self.options.tries
    }

    /// The acquisition that has tried nothing yet.
    pub open spec fn fresh(options: OptionsView, path: PathBuf) -> AcquisitionView {
        AcquisitionView { options, path, phase: Phase::CreatingTemp, failures: 0 }
    }

    /// The same acquisition in another phase.
    pub open spec fn at(self, phase: Phase) -> AcquisitionView {
        AcquisitionView { phase, ..self }
    }

    /// The action that the acquisition is waiting for.
    pub open spec fn pending(self) -> Action {
        match self.phase {
            Phase::CreatingTemp => Action::CreateTemp,
            Phase::Linking(_) => Action::Link,
            Phase::DiscardingTemp(_) => Action::DiscardTemp,
            Phase::Examining(_) => Action::Examine,
            Phase::SettingPermissions(_, mode) => Action::SetPermissions(mode),
            Phase::RemovingStale => Action::RemoveStale,
            Phase::Sleeping => Action::Sleep(self.options.pause),
        }
    }

    /// The handle that the acquisition yields if it wins with the file `id`.
    pub open spec fn handle(self, id: FileIdentity) -> DotlockView {
        DotlockView { path: Some(self.path), id }
    }

    /// After an attempt that won with the file `id`: the permission bits are
    /// set if the options name any, else the lock is taken.
    pub open spec fn won(self, id: FileIdentity) -> ProgressView {
        match self.options.permissions {
            Some(mode) => ProgressView::Pending(self.at(Phase::SettingPermissions(id, mode))),
            None => ProgressView::Acquired(self.handle(id)),
        }
    }

    /// After an attempt that is used up: a pause if another attempt is
    /// allowed, else the acquisition has timed out.
    pub open spec fn lost(self) -> ProgressView {
        if self.failures + 1 < self.options.tries {
            ProgressView::Pending(
                AcquisitionView { phase: Phase::Sleeping, failures: self.failures + 1, ..self },
            )
        } else {
            ProgressView::Failed(LockError::TimedOut)
        }
    }

    /// The acquisition after `event`. An event that does not answer the
    /// pending action changes nothing.
    pub open spec fn next(self, event: Event) -> ProgressView {
        match (self.phase, event) {
            (Phase::CreatingTemp, Event::TempCreated(id)) => ProgressView::Pending(
                self.at(Phase::Linking(id)),
            ),
            (Phase::CreatingTemp, Event::TempFailed(error)) => ProgressView::Failed(
                LockError::Io(error),
            ),
            (Phase::Linking(id), Event::LinkAttempted(_)) => ProgressView::Pending(
                self.at(Phase::DiscardingTemp(id)),
            ),
            (Phase::DiscardingTemp(id), Event::TempDiscarded) => ProgressView::Pending(
                self.at(Phase::Examining(id)),
            ),
            (Phase::Examining(_), Event::NotFound) => self.lost(),
            (Phase::Examining(temp), Event::Found { id, modified, now }) => match verdict_of(
                temp,
                self.options.stale_age,
                id,
                modified,
                now,
            ) {
                Verdict::Won => self.won(temp),
                Verdict::Stale => ProgressView::Pending(self.at(Phase::RemovingStale)),
                Verdict::Lost => self.lost(),
            },
            (Phase::SettingPermissions(id, _), Event::PermissionsSet) => ProgressView::Acquired(
                self.handle(id),
            ),
            (
                Phase::SettingPermissions(_, _),
                Event::PermissionsFailed(error),
            ) => ProgressView::Failed(LockError::Io(error)),
            (Phase::RemovingStale, Event::RemoveAttempted(_)) => ProgressView::Pending(
                self.at(Phase::CreatingTemp),
            ),
            (Phase::Sleeping, Event::Slept) => ProgressView::Pending(self.at(Phase::CreatingTemp)),
            _ => ProgressView::Pending(self),
        }
    }
}

impl View for Acquisition {
    type V = AcquisitionView;

    open(crate) spec fn view(&self) -> AcquisitionView {
        AcquisitionView {
            options: self.options@,
            path: self.path,
            phase: self.phase,
            failures: self.failures as nat,
        }
    }
}

impl View for Progress {
    type V = ProgressView;

    open spec fn view(&self) -> ProgressView {
        match *self {
            Progress::Pending(acquisition) => ProgressView::Pending(acquisition@),
            Progress::Acquired(lock) => ProgressView::Acquired(lock@),
            Progress::Failed(error) => ProgressView::Failed(error),
        }
    }
}

impl Acquisition {
    #[verifier::type_invariant]
    pub(crate) open spec fn inv(self) -> bool {
        self.options.tries >= 1 && self.failures < self.options.tries
    }

    /// The path of the lock file.
    pub fn path(&self) -> (path: &PathBuf)
        ensures
            *path == self@.path,
    {
        &self.path
    }

    /// The action that the driver is to perform now.
    pub fn action(&self) -> (action: Action)
        ensures
            action == self@.pending(),
    {
        match self.phase {
            Phase::CreatingTemp => Action::CreateTemp,
            Phase::Linking(_) => Action::Link,
            Phase::DiscardingTemp(_) => Action::DiscardTemp,
            Phase::Examining(_) => Action::Examine,
            Phase::SettingPermissions(_, mode) => Action::SetPermissions(mode),
            Phase::RemovingStale => Action::RemoveStale,
            Phase::Sleeping => Action::Sleep(self.options.pause),
        }
    }

    /// Takes in what came of the pending action and decides how to go on.
    ///
    /// A temporary file that cannot be created ends the acquisition at once,
    /// for trying again would not help. What the link call and the removal of
    /// a stale lock file report is ignored. A path that cannot be examined
    /// uses up the attempt like a path that another holds. After a stale lock
    /// file is removed the next attempt follows at once, and the attempt that
    /// found it is not counted: against a stale lock file that cannot be
    /// removed, an acquisition therefore goes on for as long as the file
    /// stays.
    pub fn step(self, event: Event) -> (progress: Progress)
        ensures
            progress@ == self@.next(event),
            progress matches Progress::Pending(acquisition) ==> acquisition@.wf(),
    {
        proof {
            use_type_invariant(&self);
        }
        let Acquisition { options, path, phase, failures } = self;
        match (phase, event) {
            (Phase::CreatingTemp, Event::TempCreated(id)) => Progress::Pending(
                Acquisition { options, path, phase: Phase::Linking(id), failures },
            ),
            (Phase::CreatingTemp, Event::TempFailed(error)) => Progress::Failed(
                LockError::Io(error),
            ),
            (Phase::Linking(id), Event::LinkAttempted(_)) => Progress::Pending(
                Acquisition { options, path, phase: Phase::DiscardingTemp(id), failures },
            ),
            (Phase::DiscardingTemp(id), Event::TempDiscarded) => Progress::Pending(
                Acquisition { options, path, phase: Phase::Examining(id), failures },
            ),
            (Phase::Examining(_), Event::NotFound) => Self::spend(options, path, failures),
            (Phase::Examining(temp), Event::Found { id, modified, now }) => {
                match judge(temp, options.stale_age, id, modified, now) {
                    Verdict::Won => match options.permissions {
                        Some(mode) => Progress::Pending(
                            Acquisition {
                                options,
                                path,
                                phase: Phase::SettingPermissions(temp, mode),
                                failures,
                            },
                        ),
                        None => Progress::Acquired(Dotlock { path: Some(path), id: temp }),
                    },
                    Verdict::Stale => Progress::Pending(
                        Acquisition { options, path, phase: Phase::RemovingStale, failures },
                    ),
                    Verdict::Lost => Self::spend(options, path, failures),
                }
            },
            (Phase::SettingPermissions(id, _), Event::PermissionsSet) => Progress::Acquired(
                Dotlock { path: Some(path), id },
            ),
            (Phase::SettingPermissions(_, _), Event::PermissionsFailed(error)) => Progress::Failed(
                LockError::Io(error),
            ),
            (Phase::RemovingStale, Event::RemoveAttempted(_)) => Progress::Pending(
                Acquisition { options, path, phase: Phase::CreatingTemp, failures },
            ),
            (Phase::Sleeping, Event::Slept) => Progress::Pending(
                Acquisition { options, path, phase: Phase::CreatingTemp, failures },
            ),
            (phase, _) => Progress::Pending(Acquisition { options, path, phase, failures }),
        }
    }

    /// Uses up one attempt.
    fn spend(options: DotlockOptions, path: PathBuf, failures: usize) -> (progress: Progress)
        requires
            options@.wf(),
            failures < options@.tries,
        ensures
            progress@ == (AcquisitionView {
                options: options@,
                path,
                phase: Phase::Sleeping,
                failures: failures as nat,
            }).lost(),
            progress matches Progress::Pending(acquisition) ==> acquisition@.wf(),
    {
        if failures + 1 < options.tries {
            Progress::Pending(
                Acquisition { options, path, phase: Phase::Sleeping, failures: failures + 1 },
            )
        } else {
            Progress::Failed(LockError::TimedOut)
        }
    }
}

} // verus!
