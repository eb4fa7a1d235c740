//! Mutual exclusion: many contenders, one lock file.
//!
//! The directory is reduced to what the lock file's path holds. Each contender
//! follows the protocol at its own pace, and every action works on the path in
//! one piece: a link lands only on a path that holds nothing, and a removal
//! leaves it holding nothing. Identities tell files apart: a file that is
//! newly created differs from every file that is open or has a name.
use vstd::prelude::*;
use crate::acquire::AcquisitionView;
use crate::acquire::Event;
use crate::acquire::Phase;
use crate::acquire::ProgressView;
use crate::identity::FileIdentity;
use crate::lock::DotlockView;
use std::path::PathBuf;

verus! {

/// One party that wants the lock.
pub enum Contender {
    /// It is trying to take the lock.
    Trying(AcquisitionView),
    /// It was handed the lock, and may have unlocked it since.
    Holding(DotlockView),
    /// Its acquisition failed.
    Gone,
}

impl Contender {
    /// What becomes of a contender whose acquisition has come to `progress`.
    pub open spec fn after(progress: ProgressView) -> Contender {
        match progress {
            ProgressView::Pending(acquisition) => Contender::Trying(acquisition),
            ProgressView::Acquired(lock) => Contender::Holding(lock),
            ProgressView::Failed(_) => Contender::Gone,
        }
    }

    /// The identity of the file that the contender keeps open and goes by,
    /// if there is one.
    pub open spec fn file(self) -> Option<FileIdentity> {
        match self {
            Contender::Trying(acquisition) => match acquisition.phase {
                Phase::Linking(id) => Some(id),
                Phase::DiscardingTemp(id) => Some(id),
                Phase::Examining(id) => Some(id),
                Phase::SettingPermissions(id, _) => Some(id),
                _ => None,
            },
            Contender::Holding(lock) => if lock.locked() {
                Some(lock.id)
            } else {
                None
            },
            Contender::Gone => None,
        }
    }

    /// Has the contender won the lock and not unlocked it? This begins with
    /// the look at the path that found the contender's own file there.
    pub open spec fn has_lock(self) -> bool {
        match self {
            Contender::Trying(acquisition) => acquisition.phase is SettingPermissions,
            Contender::Holding(lock) => lock.locked(),
            Contender::Gone => false,
        }
    }

    /// Is the contender about to make an attempt, with no file open?
    pub open spec fn starting(self) -> bool {
        self matches Contender::Trying(acquisition) && acquisition.phase == Phase::CreatingTemp
    }

    /// Would the contender ever remove a lock file for its age?
    pub open spec fn removes_stale(self) -> bool {
        match self {
            Contender::Trying(acquisition) => acquisition.options.stale_age is Some
                || acquisition.phase == Phase::RemovingStale,
            _ => false,
        }
    }
}

/// What one contender does in one move.
pub enum Move {
    /// Its driver has performed the pending action, with this outcome.
    Report(Event),
    /// It unlocks the lock that it holds, and removes the lock file.
    Release,
}

/// The lock file's path and all who contend for it.
pub struct World {
    /// The path of the lock file.
    pub path: PathBuf,
    /// The file that the path holds, if it holds one.
    pub entry: Option<FileIdentity>,
    /// The contenders.
    pub contenders: Seq<Contender>,
}

impl World {
    /// No file that is open or has a name has the identity `id`.
    pub open spec fn unused(self, id: FileIdentity) -> bool {
        &&& self.entry != Some(id)
        &&& forall|j: int|
            0 <= j < self.contenders.len() ==> (#[trigger] self.contenders[j]).file() != Some(id)
    }

    /// Can the pending action of `acquisition` have the outcome `event` and
    /// leave the path holding `entry`?
    pub open spec fn allows(
        self,
        acquisition: AcquisitionView,
        event: Event,
        entry: Option<FileIdentity>,
    ) -> bool {
        match (acquisition.phase, event) {
            (Phase::CreatingTemp, Event::TempCreated(id)) => self.unused(id) && entry == self.entry,
            (Phase::CreatingTemp, Event::TempFailed(_)) => entry == self.entry,
            (Phase::Linking(id), Event::LinkAttempted(_)) => entry == self.entry || (self.entry
                is None && entry == Some(id)),
            (Phase::DiscardingTemp(_), Event::TempDiscarded) => entry == self.entry,
            (Phase::Examining(_), Event::Found { id, .. }) => self.entry == Some(id) && entry
                == self.entry,
            (Phase::Examining(_), Event::NotFound) => entry == self.entry,
            (Phase::SettingPermissions(_, _), Event::PermissionsSet) => entry == self.entry,
            (Phase::SettingPermissions(_, _), Event::PermissionsFailed(_)) => entry == self.entry,
            (Phase::RemovingStale, Event::RemoveAttempted(_)) => entry == self.entry || entry
                is None,
            (Phase::Sleeping, Event::Slept) => entry == self.entry,
            _ => false,
        }
    }

    /// Does the move `made` of the contender `who` lead from here to `after`?
    pub open spec fn step(self, who: int, made: Move, after: World) -> bool {
        &&& 0 <= who < self.contenders.len()
        &&& after.path == self.path
        &&& match (self.contenders[who], made) {
            (Contender::Trying(acquisition), Move::Report(event)) => {
                &&& self.allows(acquisition, event, after.entry)
                &&& after.contenders == self.contenders.update(
                    who,
                    Contender::after(acquisition.next(event)),
                )
            },
            (Contender::Holding(lock), Move::Release) => {
                &&& lock.locked()
                &&& after.entry == self.entry || after.entry is None
                &&& after.contenders == self.contenders.update(
                    who,
                    Contender::Holding(lock.released()),
                )
            },
            _ => false,
        }
    }

    /// Does some contender hold the lock?
    pub open spec fn held(self) -> bool {
        exists|i: int| 0 <= i < self.contenders.len() && (#[trigger] self.contenders[i]).has_lock()
    }

    /// Does the move take the lock file away from under a contender that
    /// holds the lock? Only the removal of a lock file that was found stale
    /// can do that.
    pub open spec fn robs(self, who: int, made: Move, after: World) -> bool {
        &&& self.step(who, made, after)
        &&& made matches Move::Report(Event::RemoveAttempted(_))
        &&& self.held()
        &&& after.entry != self.entry
    }

    /// Mutual exclusion: no two contenders hold the lock.
    pub open spec fn exclusive(self) -> bool {
        forall|i: int, j: int|
            0 <= i < self.contenders.len() && 0 <= j < self.contenders.len() && i != j ==> !((
            #[trigger] self.contenders[i]).has_lock() && (#[trigger] self.contenders[j]).has_lock())
    }

    /// What holds as long as no contender is robbed: the contenders go by
    /// different files, and the path holds the file of whoever holds the lock.
    pub open spec fn sound(self) -> bool {
        &&& forall|i: int, j: int|
            0 <= i < self.contenders.len() && 0 <= j < self.contenders.len() && i != j && (
            #[trigger] self.contenders[i]).file() is Some ==> self.contenders[i].file() != (
            #[trigger] self.contenders[j]).file()
        &&& forall|i: int|
            0 <= i < self.contenders.len() && (#[trigger] self.contenders[i]).has_lock()
                ==> self.entry == self.contenders[i].file()
    }

    /// Nobody has done anything yet: whatever the path holds, every
    /// contender is about to make its first attempt.
    pub open spec fn initial(self) -> bool {
        forall|i: int| 0 <= i < self.contenders.len() ==> (#[trigger] self.contenders[i]).starting()
    }

    /// No contender will ever remove a lock file for its age.
    pub open spec fn keeps_stale(self) -> bool {
        forall|i: int|
            0 <= i < self.contenders.len() ==> !(#[trigger] self.contenders[i]).removes_stale()
    }
}

/// A world in which nothing has been done yet is sound.
pub proof fn lemma_initial_is_sound(world: World)
    requires
        world.initial(),
    ensures
        world.sound(),
{
}

/// In a sound world no two contenders hold the lock.
pub proof fn lemma_sound_is_exclusive(world: World)
    requires
        world.sound(),
    ensures
        world.exclusive(),
{
}

/// A move that robs nobody leads from a sound world to a sound world.
pub proof fn lemma_step_keeps_sound(world: World, who: int, made: Move, after: World)
    requires
        world.sound(),
        world.step(who, made, after),
        !world.robs(who, made, after),
    ensures
        after.sound(),
{
}

/// A move in a world whose contenders never remove a lock file for its age
/// robs nobody, and leads to such a world.
pub proof fn lemma_step_keeps_stale(world: World, who: int, made: Move, after: World)
    requires
        world.keeps_stale(),
        world.step(who, made, after),
    ensures
        after.keeps_stale(),
        !world.robs(who, made, after),
{
}

/// A course of events: the worlds that were passed through, and between each
/// two of them the move that led from the one to the other.
pub struct History {
    /// The worlds, the first of which is where nothing has been done yet.
    pub worlds: Seq<World>,
    /// Who moved: one contender for each world but the last.
    pub who: Seq<int>,
    /// The moves: one for each world but the last.
    pub moves: Seq<Move>,
}

impl History {
    /// Does move number `k` lead from world number `k` to the next?
    pub open spec fn follows(self, k: int) -> bool {
        self.worlds[k].step(self.who[k], self.moves[k], self.worlds[k + 1])
    }

    /// Does move number `k` rob a contender of the lock that it holds?
    pub open spec fn robs(self, k: int) -> bool {
        self.worlds[k].robs(self.who[k], self.moves[k], self.worlds[k + 1])
    }

    /// The history begins where nothing has been done yet, and every world
    /// but the first comes from the one before it by one move.
    pub open spec fn valid(self) -> bool {
        &&& self.worlds.len() == self.moves.len() + 1
        &&& self.who.len() == self.moves.len()
        &&& self.worlds[0].initial()
        &&& forall|k: int| 0 <= k < self.moves.len() ==> #[trigger] self.follows(k)
    }
}

/// Mutual exclusion. However many contenders there are, whatever the path held
/// at first and in whatever order they move: as long as no lock file is
/// removed as stale while its lock is held, at no time do two contenders hold
/// the lock, and the path holds the file of the one that does.
pub proof fn lemma_mutual_exclusion(history: History, at: int)
    requires
        history.valid(),
        0 <= at < history.worlds.len(),
        forall|k: int| 0 <= k < at ==> !#[trigger] history.robs(k),
    ensures
        history.worlds[at].sound(),
        history.worlds[at].exclusive(),
    decreases at,
{
    if at == 0 {
        lemma_initial_is_sound(history.worlds[0]);
    } else {
        lemma_mutual_exclusion(history, at - 1);
        assert(history.follows(at - 1));
        assert(!history.robs(at - 1));
        lemma_step_keeps_sound(
            history.worlds[at - 1],
            history.who[at - 1],
            history.moves[at - 1],
            history.worlds[at],
        );
    }
    lemma_sound_is_exclusive(history.worlds[at]);
}

/// Where no contender names an age beyond which a lock file is stale, no
/// contender is ever robbed.
pub proof fn lemma_nobody_is_robbed(history: History, at: int)
    requires
        history.valid(),
        history.worlds[0].keeps_stale(),
        0 <= at < history.worlds.len(),
    ensures
        history.worlds[at].keeps_stale(),
        forall|k: int| 0 <= k < at ==> !#[trigger] history.robs(k),
    decreases at,
{
    if at > 0 {
        lemma_nobody_is_robbed(history, at - 1);
        assert(history.follows(at - 1));
        lemma_step_keeps_stale(
            history.worlds[at - 1],
            history.who[at - 1],
            history.moves[at - 1],
            history.worlds[at],
        );
    }
}

/// Mutual exclusion where no contender names an age beyond which a lock file
/// is stale: at no time do two contenders hold the lock.
pub proof fn lemma_mutual_exclusion_without_stale_age(history: History, at: int)
    requires
        history.valid(),
        history.worlds[0].keeps_stale(),
        0 <= at < history.worlds.len(),
    ensures
        history.worlds[at].exclusive(),
{
    lemma_nobody_is_robbed(history, at);
    lemma_mutual_exclusion(history, at);
}

} // verus!
