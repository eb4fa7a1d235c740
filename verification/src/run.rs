//! Whole runs of an acquisition, and what holds of all of them.
use vstd::prelude::*;
use crate::acquire::AcquisitionView;
use crate::acquire::Action;
use crate::acquire::Event;
use crate::acquire::Phase;
use crate::acquire::ProgressView;
use crate::acquire::stale_at;
use crate::acquire::verdict_of;
use crate::error::LockError;
use crate::identity::FileIdentity;
use crate::options::OptionsView;
use crate::span::Span;
use std::path::PathBuf;

verus! {

impl AcquisitionView {
    /// Does `event` close an attempt that is used up: one that neither won
    /// nor found a stale lock file?
    pub open spec fn spends(self, event: Event) -> bool {
        match (self.phase, event) {
            (Phase::Examining(_), Event::NotFound) => true,
            (Phase::Examining(temp), Event::Found { id, modified, now }) => verdict_of(
                temp,
                self.options.stale_age,
                id,
                modified,
                now,
            ) is Lost,
            _ => false,
        }
    }

    /// Is a pause asked for in answer to `event`?
    pub open spec fn asks_pause(self, event: Event) -> bool {
        &&& self.phase != Phase::Sleeping
        &&& self.next(event) matches ProgressView::Pending(after)
        &&& after.phase == Phase::Sleeping
    }

    /// The acquisition after `events`, in their order. Once the lock is taken
    /// or the acquisition has failed, the events that follow are not read.
    pub open spec fn run(self, events: Seq<Event>) -> ProgressView
        decreases events.len(),
    {
        if events.len() == 0 {
            ProgressView::Pending(self)
        } else {
            match self.next(events[0]) {
                ProgressView::Pending(after) => after.run(events.skip(1)),
                end => end,
            }
        }
    }

    /// The number of attempts that are used up in the course of `run`.
    pub open spec fn spent(self, events: Seq<Event>) -> nat
        decreases events.len(),
    {
        if events.len() == 0 {
            0
        } else {
            let here: nat = if self.spends(events[0]) {
                1
            } else {
                0
            };
            match self.next(events[0]) {
                ProgressView::Pending(after) => here + after.spent(events.skip(1)),
                _ => here,
            }
        }
    }

    /// The number of pauses that are asked for in the course of `run`.
    pub open spec fn pauses(self, events: Seq<Event>) -> nat
        decreases events.len(),
    {
        if events.len() == 0 {
            0
        } else {
            let here: nat = if self.asks_pause(events[0]) {
                1
            } else {
                0
            };
            match self.next(events[0]) {
                ProgressView::Pending(after) => here + after.pauses(events.skip(1)),
                _ => here,
            }
        }
    }
}

/// One event keeps the options and the path, counts the attempt if it was
/// used up, and asks for a pause exactly after such an attempt that was not
/// the last.
pub proof fn lemma_step_counts(a: AcquisitionView, event: Event)
    requires
        a.wf(),
    ensures
        match a.next(event) {
            ProgressView::Pending(b) => {
                &&& b.wf()
                &&& b.options == a.options
                &&& b.path == a.path
                &&& b.failures == a.failures + (if a.spends(event) { 1nat } else { 0 })
                &&& a.asks_pause(event) == a.spends(event)
                &&& a.asks_pause(event) ==> b.pending() == Action::Sleep(a.options.pause)
            },
            ProgressView::Failed(LockError::TimedOut) => {
                &&& a.spends(event)
                &&& !a.asks_pause(event)
                &&& a.failures + 1 == a.options.tries
            },
            _ => !a.spends(event) && !a.asks_pause(event),
        },
{
}

/// The one way to the lock: it is taken only on finding the attempt's own
/// temporary file at the path, and handed out then, or once the permission
/// bits that the options name are set. The handle is locked, claims the
/// acquisition's path and goes by that file.
pub proof fn lemma_only_own_file_wins(a: AcquisitionView, event: Event)
    ensures
        a.next(event) matches ProgressView::Acquired(lock) ==> {
            &&& lock.locked()
            &&& lock.path == Some(a.path)
            &&& match a.phase {
                Phase::Examining(temp) => {
                    &&& event matches Event::Found { id, .. }
                    &&& id == temp
                    &&& lock.id == temp
                    &&& a.options.permissions is None
                },
                Phase::SettingPermissions(temp, _) => event is PermissionsSet && lock.id == temp,
                _ => false,
            }
        },
        a.next(event) matches ProgressView::Pending(b) ==> (b.phase
            matches Phase::SettingPermissions(won, mode) ==> {
            ||| a.phase == b.phase
            ||| {
                &&& a.phase == Phase::Examining(won)
                &&& event matches Event::Found { id, .. }
                &&& id == won
                &&& a.options.permissions == Some(mode)
            }
        }),
{
}

/// The retry bound, for every run whatever the driver reports: as long as an
/// acquisition goes on, fewer attempts are used up than the options allow, and
/// each was followed by one pause; it times out exactly when the last allowed
/// attempt is used up, with no pause after that one; and it ends in any other
/// way only before that.
pub proof fn lemma_retry_bound(a: AcquisitionView, events: Seq<Event>)
    requires
        a.wf(),
    ensures
        match a.run(events) {
            ProgressView::Pending(b) => {
                &&& b.wf()
                &&& b.options == a.options
                &&& b.path == a.path
                &&& b.failures == a.failures + a.spent(events)
                &&& a.pauses(events) == a.spent(events)
            },
            ProgressView::Failed(LockError::TimedOut) => {
                &&& a.failures + a.spent(events) == a.options.tries
                &&& a.pauses(events) + 1 == a.spent(events)
            },
            _ => {
                &&& a.failures + a.spent(events) < a.options.tries
                &&& a.pauses(events) == a.spent(events)
            },
        },
    decreases events.len(),
{
    if events.len() > 0 {
        lemma_step_counts(a, events[0]);
        match a.next(events[0]) {
            ProgressView::Pending(b) => {
                lemma_retry_bound(b, events.skip(1));
            },
            _ => {},
        }
    }
}

/// What the driver reports of one whole attempt that got as far as a look at
/// the lock file's path, and found a file there.
pub struct Round {
    /// The identity of the attempt's temporary file.
    pub temp: FileIdentity,
    /// What the link call reported.
    pub linked: bool,
    /// The identity of the file that the path held.
    pub held: FileIdentity,
    /// When that file was last modified, if that could be told.
    pub modified: Option<Span>,
    /// The time of the look.
    pub now: Span,
}

impl Round {
    /// The events of the round, in their order.
    pub open spec fn events(self) -> Seq<Event> {
        seq![
            Event::TempCreated(self.temp),
            Event::LinkAttempted(self.linked),
            Event::TempDiscarded,
            Event::Found { id: self.held, modified: self.modified, now: self.now },
        ]
    }

    /// The path held the attempt's own file.
    pub open spec fn winning(self) -> bool {
        self.held == self.temp
    }

    /// The path held another's file, which was stale under `limit`.
    pub open spec fn stale(self, limit: Option<Span>) -> bool {
        self.held != self.temp && stale_at(limit, self.modified, self.now)
    }

    /// The path held another's file, which was not stale under `limit`.
    pub open spec fn blocked(self, limit: Option<Span>) -> bool {
        self.held != self.temp && !stale_at(limit, self.modified, self.now)
    }
}

/// The events of `rounds`, each round followed by the end of a pause.
pub open spec fn script(rounds: Seq<Round>) -> Seq<Event>
    decreases rounds.len(),
{
    if rounds.len() == 0 {
        Seq::empty()
    } else {
        rounds[0].events() + seq![Event::Slept] + script(rounds.skip(1))
    }
}

/// A run of one event is one step.
pub proof fn lemma_run_one(a: AcquisitionView, event: Event)
    ensures
        a.run(seq![event]) == a.next(event),
        a.spent(seq![event]) == (if a.spends(event) { 1nat } else { 0 }),
        a.pauses(seq![event]) == (if a.asks_pause(event) { 1nat } else { 0 }),
{
    let events = seq![event];
    assert(events.skip(1).len() == 0);
    reveal_with_fuel(AcquisitionView::run, 2);
    reveal_with_fuel(AcquisitionView::spent, 2);
    reveal_with_fuel(AcquisitionView::pauses, 2);
}

/// A run of `first` and then `then` is the run of `then` from where `first`
/// led, unless `first` already ended the acquisition.
pub proof fn lemma_run_concat(a: AcquisitionView, first: Seq<Event>, then: Seq<Event>)
    ensures
        match a.run(first) {
            ProgressView::Pending(b) => {
                &&& a.run(first + then) == b.run(then)
                &&& a.spent(first + then) == a.spent(first) + b.spent(then)
                &&& a.pauses(first + then) == a.pauses(first) + b.pauses(then)
            },
            end => {
                &&& a.run(first + then) == end
                &&& a.spent(first + then) == a.spent(first)
                &&& a.pauses(first + then) == a.pauses(first)
            },
        },
    decreases first.len(),
{
    if first.len() == 0 {
        assert(first + then =~= then);
    } else {
        assert((first + then)[0] == first[0]);
        assert((first + then).skip(1) =~= first.skip(1) + then);
        match a.next(first[0]) {
            ProgressView::Pending(b) => {
                lemma_run_concat(b, first.skip(1), then);
            },
            _ => {},
        }
    }
}

/// A round is read event by event: up to the look at the path nothing is
/// decided, and nothing that the link call reported is remembered.
pub proof fn lemma_round(a: AcquisitionView, round: Round)
    requires
        a.phase == Phase::CreatingTemp,
    ensures
        a.run(round.events()) == a.at(Phase::Examining(round.temp)).next(
            Event::Found { id: round.held, modified: round.modified, now: round.now },
        ),
        a.spent(round.events()) == (if round.blocked(a.options.stale_age) { 1nat } else { 0 }),
        a.pauses(round.events()) == (if round.blocked(a.options.stale_age)
            && a.failures + 1 < a.options.tries { 1nat } else { 0 }),
{
    let e0 = Event::TempCreated(round.temp);
    let e1 = Event::LinkAttempted(round.linked);
    let e2 = Event::TempDiscarded;
    let e3 = Event::Found { id: round.held, modified: round.modified, now: round.now };
    let a1 = a.at(Phase::Linking(round.temp));
    let a2 = a.at(Phase::DiscardingTemp(round.temp));
    let a3 = a.at(Phase::Examining(round.temp));
    assert(round.events() =~= seq![e0] + (seq![e1] + (seq![e2] + seq![e3])));
    lemma_run_one(a, e0);
    lemma_run_one(a1, e1);
    lemma_run_one(a2, e2);
    lemma_run_one(a3, e3);
    lemma_run_concat(a2, seq![e2], seq![e3]);
    lemma_run_concat(a1, seq![e1], seq![e2] + seq![e3]);
    lemma_run_concat(a, seq![e0], seq![e1] + (seq![e2] + seq![e3]));
}

/// The retry bound against a lock that stays held. If every attempt finds
/// another's file at the path, and that file is not stale, then an acquisition
/// that has tried nothing yet is still going on after fewer rounds than the
/// options allow tries, about to make the next attempt; and with the round
/// that makes the tries full it times out, having used up exactly that many
/// attempts, with one pause fewer.
pub proof fn lemma_held_lock_times_out(a: AcquisitionView, rounds: Seq<Round>)
    requires
        a.wf(),
        a.phase == Phase::CreatingTemp,
        forall|k: int| 0 <= k < rounds.len() ==> (#[trigger] rounds[k]).blocked(a.options.stale_age),
    ensures
        a.failures + rounds.len() < a.options.tries ==> {
            &&& a.run(script(rounds)) == ProgressView::Pending(
                AcquisitionView { failures: a.failures + rounds.len(), ..a },
            )
            &&& a.spent(script(rounds)) == rounds.len()
            &&& a.pauses(script(rounds)) == rounds.len()
        },
        a.failures + rounds.len() >= a.options.tries ==> {
            &&& a.run(script(rounds)) == ProgressView::Failed(LockError::TimedOut)
            &&& a.spent(script(rounds)) == a.options.tries - a.failures
            &&& a.pauses(script(rounds)) == a.options.tries - a.failures - 1
        },
    decreases rounds.len(),
{
    if rounds.len() > 0 {
        let round = rounds[0];
        let rest = rounds.skip(1);
        let tail = seq![Event::Slept] + script(rest);
        assert(script(rounds) =~= round.events() + tail);
        lemma_round(a, round);
        lemma_run_concat(a, round.events(), tail);
        if a.failures + 1 < a.options.tries {
            let slept = AcquisitionView {
                phase: Phase::Sleeping,
                failures: a.failures + 1,
                ..a
            };
            let b = slept.at(Phase::CreatingTemp);
            lemma_run_one(slept, Event::Slept);
            lemma_run_concat(slept, seq![Event::Slept], script(rest));
            assert forall|k: int| 0 <= k < rest.len() implies (#[trigger] rest[k]).blocked(
                b.options.stale_age,
            ) by {
                assert(rest[k] == rounds[k + 1]);
            }
            lemma_held_lock_times_out(b, rest);
        }
    }
}

/// The retry bound, from the beginning. With `tries` set to some number, an
/// acquisition against a lock that stays held fails after exactly that many
/// attempts and one pause fewer, each of the length that the options name, and
/// it has not failed after any smaller number of attempts.
pub proof fn lemma_times_out_after_all_tries(
    options: OptionsView,
    path: PathBuf,
    rounds: Seq<Round>,
)
    requires
        options.wf(),
        rounds.len() <= options.tries,
        forall|k: int| 0 <= k < rounds.len() ==> (#[trigger] rounds[k]).blocked(options.stale_age),
    ensures
        ({
            let a = AcquisitionView::fresh(options, path);
            if rounds.len() == options.tries {
                &&& a.run(script(rounds)) == ProgressView::Failed(LockError::TimedOut)
                &&& a.spent(script(rounds)) == options.tries
                &&& a.pauses(script(rounds)) == options.tries - 1
            } else {
                &&& a.run(script(rounds)) matches ProgressView::Pending(b)
                &&& b.pending() == Action::CreateTemp
                &&& a.spent(script(rounds)) == rounds.len()
                &&& a.pauses(script(rounds)) == rounds.len()
            }
        }),
{
    lemma_held_lock_times_out(AcquisitionView::fresh(options, path), rounds);
}

/// Staleness, first half. A lock file that is found stale is removed, and the
/// attempt that follows at once takes the lock if its link lands: no pause is
/// asked for and no attempt is used up, however few tries the options allow
/// and however many are used up already, and whatever the removal reported.
pub proof fn lemma_stale_lock_is_replaced(
    a: AcquisitionView,
    found: Round,
    removed: bool,
    winner: Round,
)
    requires
        a.phase == Phase::CreatingTemp,
        found.stale(a.options.stale_age),
        winner.winning(),
    ensures
        ({
            let events = found.events() + (seq![Event::RemoveAttempted(removed)] + winner.events());
            &&& a.run(found.events()) == ProgressView::Pending(a.at(Phase::RemovingStale))
            &&& a.run(events) == a.won(winner.temp)
            &&& a.spent(events) == 0
            &&& a.pauses(events) == 0
        }),
{
    let gone = Event::RemoveAttempted(removed);
    let b = a.at(Phase::RemovingStale);
    lemma_round(a, found);
    lemma_round(a, winner);
    lemma_run_one(b, gone);
    lemma_run_concat(b, seq![gone], winner.events());
    lemma_run_concat(a, found.events(), seq![gone] + winner.events());
}

/// Staleness, second half. A lock file is removed only as another's file that
/// was found stale under the age that the options name: without such an age
/// never, and a file whose age is within a positive limit, or cannot be told,
/// is left intact.
pub proof fn lemma_only_stale_locks_are_removed(a: AcquisitionView, event: Event)
    requires
        a.phase != Phase::RemovingStale,
        a.next(event) matches ProgressView::Pending(b) && b.phase == Phase::RemovingStale,
    ensures
        ({
            &&& a.phase matches Phase::Examining(temp)
            &&& event matches Event::Found { id, modified, now }
            &&& a.options.stale_age matches Some(limit)
            &&& id != temp
            &&& limit.nanos > 0 ==> modified is Some && modified->0.nanos + limit.nanos < now.nanos
        }),
{
}

/// What the link call and the removal of a stale lock file report decides
/// nothing: whichever they report, the acquisition goes on in the same way.
pub proof fn lemma_reports_are_ignored(a: AcquisitionView, one: bool, other: bool)
    ensures
        a.next(Event::LinkAttempted(one)) == a.next(Event::LinkAttempted(other)),
        a.next(Event::RemoveAttempted(one)) == a.next(Event::RemoveAttempted(other)),
{
}

} // verus!
