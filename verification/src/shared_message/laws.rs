//! What holds of a message however the accesses of its readers and writers
//! interleave.
use crate::primitives::shared_futex::{LockAction, LockOperation, CONTENDED, UNLOCKED};
use crate::shared_message::operation::{
    Action, Channel, Event, ReadOperation, ReadPhase, ReaderChange, ReleaseOperation, ReleasePhase,
    UpdateOperation, UpdatePhase,
};
use crate::shared_message::packed::{
    law_readers_round_trip, law_sequence_after, law_sequence_round_trip, sequence_after,
    ReadersStateCount, SequenceState,
};
use crate::shared_message::region::Region;
use crate::shared_message::write_operation::{
    published, unconsumed, Publish, PublishPhase, StartPhase, StartWrite, StopOperation,
};
use crate::sync::condvar::law_ticket;
use crate::tally::{lemma_tally_none, lemma_tally_positive, lemma_tally_update, tally};
use vstd::prelude::*;

verus! {

/// What one user of a message is doing. A reader holds the message when its
/// read is finished with a sequence; a writer may write the payload when its
/// start is finished with `true`.
pub enum Actor {
    Idle,
    Reading(ReadOperation),
    Releasing(ReleaseOperation),
    Starting(StartWrite),
    Publishing(Publish),
    Updating(UpdateOperation),
    Stopping(StopOperation),
}

impl Actor {
    pub open spec fn next_action(self) -> Option<Action> {
        match self {
            Actor::Idle => None,
            Actor::Reading(op) => op.next_action(),
            Actor::Releasing(op) => op.next_action(),
            Actor::Starting(op) => op.next_action(),
            Actor::Publishing(op) => op.next_action(),
            Actor::Updating(op) => op.phase.next_action(),
            Actor::Stopping(op) => op.next_action(),
        }
    }

    pub open spec fn after(self, event: Event) -> Actor {
        match self {
            Actor::Idle => Actor::Idle,
            Actor::Reading(op) => Actor::Reading(op.after(event)),
            Actor::Releasing(op) => Actor::Releasing(op.after(event)),
            Actor::Starting(op) => Actor::Starting(op.after(event)),
            Actor::Publishing(op) => Actor::Publishing(op.after(event)),
            Actor::Updating(op) => Actor::Updating(op.after(event)),
            Actor::Stopping(op) => Actor::Stopping(op.after(event)),
        }
    }

    /// The sequence of the message that a reader holds.
    pub open spec fn holds(self) -> Option<u64> {
        match self {
            Actor::Reading(op) => match op.phase {
                ReadPhase::Finished(sequence) => sequence,
                _ => None,
            },
            _ => None,
        }
    }

    /// The payload is this writer's to write.
    pub open spec fn may_write(self) -> bool {
        match self {
            Actor::Starting(op) => op.phase == StartPhase::Finished(true),
            _ => false,
        }
    }

    /// From the permission to write on until the message is published or
    /// refused.
    pub open spec fn excludes(self) -> bool {
        match self {
            Actor::Starting(op) => op.phase == StartPhase::Finished(true),
            Actor::Publishing(op) => match op.phase {
                PublishPhase::CheckStopped => true,
                PublishPhase::StoreSize | PublishPhase::Reset(_) | PublishPhase::Sequence => true,
                PublishPhase::Swap { .. } => true,
                _ => false,
            },
            _ => false,
        }
    }

    /// The writer has made its message the current one and notifies the readers
    /// next.
    pub open spec fn announces(self) -> bool {
        self matches Actor::Publishing(op) && op.phase is Notify
    }

    /// The writer is refused to publish what it has written.
    pub open spec fn refused(self) -> bool {
        self matches Actor::Publishing(op) && (op.phase is UnlockRefused || op.phase is Refused)
    }

    /// The writer has marked the message as being written.
    pub open spec fn flags(self) -> bool {
        match self {
            Actor::Starting(op) => match op.phase {
                StartPhase::ActiveTicket | StartPhase::ActiveReaders { .. } => true,
                StartPhase::ActiveStopped { .. } | StartPhase::ActiveSleep { .. } => true,
                StartPhase::Clear => true,
                StartPhase::Finished(granted) => granted,
                _ => false,
            },
            _ => self.excludes(),
        }
    }

    /// The writer has the writer lock.
    pub open spec fn owns(self) -> bool {
        match self {
            Actor::Starting(op) => match op.phase {
                StartPhase::CheckStopped | StartPhase::Locking(_) => false,
                StartPhase::Finished(granted) => granted,
                _ => true,
            },
            Actor::Publishing(op) => !(op.phase is Finished) && !(op.phase is Refused),
            _ => false,
        }
    }

    /// The reader is one of the active readers.
    pub open spec fn counted(self) -> bool {
        match self {
            Actor::Reading(op) => match op.phase {
                ReadPhase::Verify { .. } | ReadPhase::Withdraw { .. } => true,
                ReadPhase::Finished(sequence) => sequence is Some,
                _ => false,
            },
            Actor::Releasing(op) => match op.phase {
                ReleasePhase::Update(_) | ReleasePhase::Fault => true,
                _ => false,
            },
            _ => false,
        }
    }

    /// What an operation remembers is what it computed.
    pub open spec fn wf(self) -> bool {
        match self {
            Actor::Reading(op) => match op.phase {
                ReadPhase::Register { update, .. } => swaps(update, ReaderChange::Register),
                ReadPhase::Withdraw { update } => swaps(update, ReaderChange::Withdraw),
                _ => true,
            },
            Actor::Releasing(op) => match op.phase {
                ReleasePhase::Update(update) => swaps(update, ReaderChange::Release),
                _ => true,
            },
            Actor::Publishing(op) => match op.phase {
                PublishPhase::Reset(update) => swaps(update, ReaderChange::ResetConsumed),
                PublishPhase::Swap { expected, new } => new == published(
                    SequenceState::unpacked(expected),
                ).packed(),
                _ => true,
            },
            Actor::Updating(op) => is_policy(op.change) && (op.phase is Finished || op.phase is Fault
                || swaps(op.phase, op.change)),
            Actor::Starting(op) => match op.phase {
                StartPhase::Locking(lock) => lock != LockOperation::Held,
                _ => true,
            },
            _ => true,
        }
    }
}

/// A change that is under way swaps in what it computed.
pub open spec fn swaps(update: UpdatePhase, change: ReaderChange) -> bool {
    match update {
        UpdatePhase::Load => true,
        UpdatePhase::Swap { expected, new } => match ReadersStateCount::unpacked(expected).changed(
            change,
        ) {
            Some(counts) => new == counts.packed(),
            None => false,
        },
        _ => false,
    }
}

/// A change of the wait policy, as opposed to one that a read or write makes.
pub open spec fn is_policy(change: ReaderChange) -> bool {
    change is SetTarget || change is AddConsumer || change is RemoveConsumer
}

/// A message and its users. `published` are the bytes last published.
pub struct MessageSystem {
    pub region: Region,
    pub actors: Seq<Actor>,
    pub published: Seq<u8>,
}

/// What an access does to the memory and what comes back. A swap may fail
/// though the word is as expected, and a sleeper may wake spontaneously.
pub open spec fn access(before: Region, action: Action, after: Region, event: Event) -> bool {
    ||| before.answer(action) == Some(event) && after == before.after(action)
    ||| action is SwapSequence && after == before && event == (Event::Swapped {
        done: false,
        found: before.sequence_word,
    })
    ||| action is SwapReaders && after == before && event == (Event::Swapped {
        done: false,
        found: before.readers_word,
    })
    ||| action is Sleep && after == before && event == Event::Done
    ||| action == Action::Lock(LockAction::Sleep) && after == before && event == Event::Lock(
        CONTENDED,
    )
}

impl MessageSystem {
    /// Zeroed memory that nobody uses.
    pub open spec fn initial(self) -> bool {
        &&& exists|capacity: nat| self.region == #[trigger] Region::zeroed(capacity)
        &&& forall|i: int| 0 <= i < self.actors.len() ==> self.actors[i] is Idle
        &&& self.published == Seq::<u8>::empty()
    }

    pub open spec fn set(self, region: Region, i: int, actor: Actor) -> MessageSystem {
        MessageSystem { region, actors: self.actors.update(i, actor), ..self }
    }

    /// An idle user starts an operation.
    pub open spec fn begins(self, after: MessageSystem, i: int) -> bool {
        &&& self.actors[i] is Idle
        &&& {
            ||| exists|last_seen: u64, block: bool|
                after == #[trigger] self.set(
                    self.region,
                    i,
                    Actor::Reading(
                        ReadOperation { last_seen, block, phase: ReadPhase::Ticket },
                    ),
                )
            ||| after == self.set(
                self.region,
                i,
                Actor::Starting(StartWrite { phase: StartPhase::CheckStopped }),
            )
            ||| exists|change: ReaderChange|
                is_policy(change) && after == #[trigger] self.set(
                    self.region,
                    i,
                    Actor::Updating(UpdateOperation { change, phase: UpdatePhase::Load }),
                )
            ||| after == self.set(self.region, i, Actor::Stopping(StopOperation::SetStopped))
        }
    }

    /// A user makes the next access of its operation.
    pub open spec fn acts(self, after: MessageSystem, i: int) -> bool {
        exists|event: Event| #[trigger] self.acts_with(after, i, event)
    }

    pub open spec fn acts_with(self, after: MessageSystem, i: int, event: Event) -> bool {
        &&& self.actors[i].next_action() is Some
        &&& access(
            self.region,
            self.actors[i].next_action()->Some_0,
            after.region,
            event,
        )
        &&& after.actors == self.actors.update(i, self.actors[i].after(event))
        &&& after.published == (if self.actors[i].excludes()
            && self.actors[i].after(event).announces() {
            after.region.data()
        } else {
            self.published
        })
    }

    /// A writer writes any bytes into the payload.
    pub open spec fn writes(self, after: MessageSystem, i: int) -> bool {
        &&& self.actors[i].may_write()
        &&& after.region == (Region { payload: after.region.payload, ..self.region })
        &&& after.region.payload.len() == self.region.payload.len()
        &&& after.actors == self.actors
        &&& after.published == self.published
    }

    /// A user goes from one operation to the next: a reader gives the message
    /// back, a writer publishes, and what is finished is over.
    pub open spec fn proceeds(self, after: MessageSystem, i: int) -> bool {
        ||| self.actors[i].holds() is Some && after == self.set(
            self.region,
            i,
            Actor::Releasing(
                ReleaseOperation { phase: ReleasePhase::Update(UpdatePhase::Load) },
            ),
        )
        ||| self.actors[i].may_write() && exists|size: usize|
            size <= self.region.payload.len() && after == #[trigger] self.set(
                self.region,
                i,
                Actor::Publishing(Publish { size, phase: PublishPhase::StoreSize }),
            )
        ||| self.actors[i].may_write() && exists|size: usize|
            size <= self.region.payload.len() && after == #[trigger] self.set(
                self.region,
                i,
                Actor::Publishing(Publish { size, phase: PublishPhase::CheckStopped }),
            )
        ||| self.actors[i].next_action() is None && !self.actors[i].counted()
            && !self.actors[i].may_write() && after == self.set(self.region, i, Actor::Idle)
    }

    /// A writer drops what it has begun to write.
    pub open spec fn abandons(self, after: MessageSystem, i: int) -> bool {
        &&& self.actors[i].may_write()
        &&& after == self.set(self.region.unlocked(), i, Actor::Idle)
    }

    /// A writer gives up what it has begun to write: it drops it, or is refused
    /// to publish it.
    pub open spec fn gives_up(self, after: MessageSystem, i: int) -> bool {
        ||| self.abandons(after, i)
        ||| self.acts(after, i) && after.actors[i].refused()
    }

    /// A user makes the next access of its operation and does not give up a
    /// write by it.
    pub open spec fn goes_on(self, after: MessageSystem, i: int) -> bool {
        self.acts(after, i) && !after.actors[i].refused()
    }

    /// One access, or one step between accesses, of one user, without a writer
    /// giving up.
    pub open spec fn orderly_step(self, after: MessageSystem) -> bool {
        exists|i: int|
            0 <= i < self.actors.len() && (#[trigger] self.begins(after, i) || self.goes_on(after, i)
                || self.writes(after, i) || self.proceeds(after, i))
    }

    /// One step of one user.
    pub open spec fn step(self, after: MessageSystem) -> bool {
        ||| self.orderly_step(after)
        ||| exists|i: int| 0 <= i < self.actors.len() && #[trigger] self.gives_up(after, i)
    }

    pub open spec fn active(self) -> nat {
        tally(counted_flags(self.actors))
    }

    /// What every step keeps.
    pub open spec fn inv(self) -> bool {
        &&& self.region.wf()
        &&& self.active() == self.region.counts().active_readers
        &&& forall|i: int| 0 <= i < self.actors.len() ==> self.actor_inv(i)
        &&& forall|i: int, j: int|
            0 <= i < self.actors.len() && 0 <= j < self.actors.len()
                && #[trigger] self.actors[i].owns() && #[trigger] self.actors[j].owns() ==> i == j
        &&& forall|i: int, j: int|
            0 <= i < self.actors.len() && 0 <= j < self.actors.len()
                && #[trigger] self.actors[i].excludes() ==> #[trigger] self.actors[j].holds() is None
    }

    #[verifier::inline]
    pub open spec fn actor_inv(self, i: int) -> bool {
        let actor = #[trigger] self.actors[i];
        &&& actor.wf()
        &&& actor.owns() ==> self.region.writer_lock != UNLOCKED
        &&& actor.flags() ==> self.region.writing()
        &&& actor.holds() matches Some(sequence) ==> self.region.sequence() == sequence
        &&& actor matches Actor::Publishing(op) ==> op.size <= self.region.payload.len()
    }

    /// What every orderly step keeps: the payload is what was last published,
    /// unless it is being written.
    pub open spec fn data_inv(self) -> bool {
        (forall|i: int| 0 <= i < self.actors.len() ==> !#[trigger] self.actors[i].excludes())
            ==> self.region.data() == self.published
    }
}

pub open spec fn counted_flags(actors: Seq<Actor>) -> Seq<bool> {
    Seq::new(actors.len(), |i: int| actors[i].counted())
}

/// A change of the reader counters goes on as it should whatever its access
/// meets, and changes nothing but the counters.
proof fn lemma_update(
    before: Region,
    after: Region,
    update: UpdatePhase,
    change: ReaderChange,
    event: Event,
)
    requires
        swaps(update, change),
        access(before, update.next_action()->Some_0, after, event),
    ensures
        after == (Region { readers_word: after.readers_word, ..before }),
        match update.after(change, event) {
            UpdatePhase::Finished => before.counts().changed(change) == Some(after.counts()),
            UpdatePhase::Fault => after == before && before.counts().changed(change) is None,
            next => after == before && swaps(next, change),
        },
{
    match before.counts().changed(change) {
        Some(counts) => {
            law_readers_round_trip(counts);
        },
        None => {},
    }
}

/// One user changes from one activity to another while the memory changes.
proof fn lemma_one_user(s: MessageSystem, t: MessageSystem, i: int)
    requires
        s.inv(),
        0 <= i < s.actors.len(),
        t.actors.len() == s.actors.len(),
        t.actors == s.actors.update(i, t.actors[i]),
        t.region.wf(),
        t.region.payload.len() == s.region.payload.len(),
        t.region.counts().active_readers - s.region.counts().active_readers == (
        if t.actors[i].counted() {
            1int
        } else {
            0
        }) - (if s.actors[i].counted() {
            1int
        } else {
            0
        }),
        t.actor_inv(i),
        t.region.writer_lock == UNLOCKED ==> s.region.writer_lock == UNLOCKED
            || s.actors[i].owns(),
        t.actors[i].owns() ==> s.region.writer_lock == UNLOCKED || s.actors[i].owns(),
        !t.region.writing() ==> !s.region.writing() || s.actors[i].flags(),
        t.region.sequence() != s.region.sequence() || t.actors[i].excludes()
            ==> s.actors[i].excludes() || s.region.counts().active_readers == 0,
        t.actors[i].holds() is Some ==> s.actors[i].holds() is Some || !s.region.writing(),
    ensures
        t.inv(),
{
    assert(counted_flags(t.actors) =~= counted_flags(s.actors).update(i, t.actors[i].counted()));
    lemma_tally_update(counted_flags(s.actors), i, t.actors[i].counted());
    assert forall|j: int|
        s.region.counts().active_readers == 0 && 0 <= j < s.actors.len() implies #[trigger]
    s.actors[j].holds() is None by {
        if s.actors[j].holds() is Some {
            lemma_tally_positive(counted_flags(s.actors), j);
        }
    }
    assert forall|j: int| 0 <= j < t.actors.len() implies t.actor_inv(j) by {
        if j != i {
            assert(t.actors[j] == s.actors[j]);
            if s.actors[i].owns() {
                assert(!s.actors[j].owns());
            }
            if s.actors[i].excludes() {
                assert(s.actors[j].holds() is None);
            }
        }
    }
    assert forall|j: int, k: int|
        0 <= j < t.actors.len() && 0 <= k < t.actors.len() && #[trigger] t.actors[j].owns()
            && #[trigger] t.actors[k].owns() implies j == k by {
        if j != i && k != i {
            assert(s.actors[j].owns() && s.actors[k].owns());
        } else if j != i {
            assert(s.actors[j] == t.actors[j] && s.actor_inv(j));
            assert(s.actors[i].owns() && s.actors[j].owns());
        } else if k != i {
            assert(s.actors[k] == t.actors[k] && s.actor_inv(k));
            assert(s.actors[i].owns() && s.actors[k].owns());
        }
    }
    assert forall|j: int, k: int|
        0 <= j < t.actors.len() && 0 <= k < t.actors.len()
            && #[trigger] t.actors[j].excludes() implies #[trigger] t.actors[k].holds() is None by {
        if j != i {
            assert(s.actors[j] == t.actors[j] && s.actors[j].excludes());
            assert(s.actor_inv(j));
            if k != i {
                assert(s.actors[k] == t.actors[k]);
            } else {
                assert(s.actors[i].holds() is None);
            }
        } else if k != i {
            assert(s.actors[k] == t.actors[k]);
            if s.actors[i].excludes() {
                assert(s.actors[k].holds() is None);
            }
        }
    }
}

/// The memory stays what was last published, unless a writer may write it.
proof fn lemma_data(s: MessageSystem, t: MessageSystem, i: int)
    requires
        0 <= i < s.actors.len(),
        t.actors == s.actors.update(i, t.actors[i]),
        s.data_inv(),
        if s.actors[i].excludes() {
            t.actors[i].excludes() || t.region.data() == t.published
        } else {
            t.region.data() == s.region.data() && t.published == s.published
        },
    ensures
        t.data_inv(),
{
    if forall|j: int| 0 <= j < t.actors.len() ==> !#[trigger] t.actors[j].excludes() {
        assert(!t.actors[i].excludes());
        assert forall|j: int|
            0 <= j < s.actors.len() && j != i implies !#[trigger] s.actors[j].excludes() by {
            assert(t.actors[j] == s.actors[j]);
        }
    }
}

proof fn lemma_reading(s: MessageSystem, t: MessageSystem, i: int, event: Event)
    requires
        s.inv(),
        0 <= i < s.actors.len(),
        s.acts_with(t, i, event),
        s.actors[i] is Reading,
    ensures
        t.inv(),
        s.data_inv() ==> t.data_inv(),
{
    let actor = s.actors[i];
    assert(t.actors[i] == actor.after(event));
    assert(s.actor_inv(i));
    let op = actor->Reading_0;
    if actor.counted() {
        lemma_tally_positive(counted_flags(s.actors), i);
    }
    match op.phase {
        ReadPhase::Register { update, .. } => {
            lemma_update(s.region, t.region, update, ReaderChange::Register, event);
        },
        ReadPhase::Withdraw { update } => {
            lemma_update(s.region, t.region, update, ReaderChange::Withdraw, event);
        },
        _ => {},
    }
    lemma_one_user(s, t, i);
    if s.data_inv() {
        lemma_data(s, t, i);
    }
}

proof fn lemma_releasing(s: MessageSystem, t: MessageSystem, i: int, event: Event)
    requires
        s.inv(),
        0 <= i < s.actors.len(),
        s.acts_with(t, i, event),
        s.actors[i] is Releasing,
    ensures
        t.inv(),
        s.data_inv() ==> t.data_inv(),
{
    let actor = s.actors[i];
    assert(t.actors[i] == actor.after(event));
    assert(s.actor_inv(i));
    let op = actor->Releasing_0;
    if actor.counted() {
        lemma_tally_positive(counted_flags(s.actors), i);
    }
    match op.phase {
        ReleasePhase::Update(update) => {
            lemma_update(s.region, t.region, update, ReaderChange::Release, event);
        },
        _ => {},
    }
    lemma_one_user(s, t, i);
    if s.data_inv() {
        lemma_data(s, t, i);
    }
}

proof fn lemma_starting(s: MessageSystem, t: MessageSystem, i: int, event: Event)
    requires
        s.inv(),
        0 <= i < s.actors.len(),
        s.acts_with(t, i, event),
        s.actors[i] is Starting,
    ensures
        t.inv(),
        s.data_inv() ==> t.data_inv(),
{
    let actor = s.actors[i];
    assert(t.actors[i] == actor.after(event));
    assert(s.actor_inv(i));
    law_sequence_round_trip(SequenceState { writing_in_progress: true, ..s.region.state() });
    law_sequence_round_trip(SequenceState { writing_in_progress: false, ..s.region.state() });
    lemma_one_user(s, t, i);
    if s.data_inv() {
        lemma_data(s, t, i);
    }
}

proof fn lemma_publishing(s: MessageSystem, t: MessageSystem, i: int, event: Event)
    requires
        s.inv(),
        0 <= i < s.actors.len(),
        s.acts_with(t, i, event),
        s.actors[i] is Publishing,
    ensures
        t.inv(),
        s.data_inv() && !t.actors[i].refused() ==> t.data_inv(),
{
    let actor = s.actors[i];
    assert(t.actors[i] == actor.after(event));
    assert(s.actor_inv(i));
    let op = actor->Publishing_0;
    match op.phase {
        PublishPhase::Reset(update) => {
            lemma_update(s.region, t.region, update, ReaderChange::ResetConsumed, event);
        },
        PublishPhase::Swap { .. } => {
            law_sequence_after(s.region.sequence());
            law_sequence_round_trip(published(s.region.state()));
        },
        _ => {},
    }
    law_sequence_round_trip(SequenceState { writing_in_progress: false, ..s.region.state() });
    lemma_one_user(s, t, i);
    if s.data_inv() && !t.actors[i].refused() {
        lemma_data(s, t, i);
    }
}

proof fn lemma_updating(s: MessageSystem, t: MessageSystem, i: int, event: Event)
    requires
        s.inv(),
        0 <= i < s.actors.len(),
        s.acts_with(t, i, event),
        s.actors[i] is Updating,
    ensures
        t.inv(),
        s.data_inv() ==> t.data_inv(),
{
    let actor = s.actors[i];
    assert(t.actors[i] == actor.after(event));
    assert(s.actor_inv(i));
    let op = actor->Updating_0;
    lemma_update(s.region, t.region, op.phase, op.change, event);
    lemma_one_user(s, t, i);
    if s.data_inv() {
        lemma_data(s, t, i);
    }
}

proof fn lemma_stopping(s: MessageSystem, t: MessageSystem, i: int, event: Event)
    requires
        s.inv(),
        0 <= i < s.actors.len(),
        s.acts_with(t, i, event),
        s.actors[i] is Stopping,
    ensures
        t.inv(),
        s.data_inv() ==> t.data_inv(),
{
    let actor = s.actors[i];
    assert(t.actors[i] == actor.after(event));
    assert(s.actor_inv(i));
    law_sequence_round_trip(SequenceState { stopped: true, ..s.region.state() });
    lemma_one_user(s, t, i);
    if s.data_inv() {
        lemma_data(s, t, i);
    }
}

proof fn lemma_acts(s: MessageSystem, t: MessageSystem, i: int, event: Event)
    requires
        s.inv(),
        0 <= i < s.actors.len(),
        s.acts_with(t, i, event),
    ensures
        t.inv(),
        s.data_inv() && !t.actors[i].refused() ==> t.data_inv(),
{
    match s.actors[i] {
        Actor::Idle => {},
        Actor::Reading(_) => lemma_reading(s, t, i, event),
        Actor::Releasing(_) => lemma_releasing(s, t, i, event),
        Actor::Starting(_) => lemma_starting(s, t, i, event),
        Actor::Publishing(_) => lemma_publishing(s, t, i, event),
        Actor::Updating(_) => lemma_updating(s, t, i, event),
        Actor::Stopping(_) => lemma_stopping(s, t, i, event),
    }
}

/// On zeroed memory that nobody uses the invariants hold.
pub proof fn law_initial(s: MessageSystem)
    requires
        s.initial(),
    ensures
        s.inv(),
        s.data_inv(),
{
    lemma_tally_none(counted_flags(s.actors));
    assert(s.region.data() =~= s.published);
}

/// Whose step it was.
pub(crate) proof fn lemma_whose_step(s: MessageSystem, t: MessageSystem) -> (i: int)
    requires
        s.step(t),
    ensures
        0 <= i < s.actors.len(),
        ({
            ||| s.begins(t, i)
            ||| s.acts(t, i)
            ||| s.writes(t, i)
            ||| s.proceeds(t, i)
            ||| s.abandons(t, i)
        }),
        !s.orderly_step(t) ==> s.acts(t, i) || s.abandons(t, i),
{
    if s.orderly_step(t) {
        choose|i: int|
            0 <= i < s.actors.len() && (#[trigger] s.begins(t, i) || s.goes_on(t, i) || s.writes(
                t,
                i,
            ) || s.proceeds(t, i))
    } else {
        choose|i: int| 0 <= i < s.actors.len() && #[trigger] s.gives_up(t, i)
    }
}

/// Every step of every user keeps the invariant.
pub proof fn law_step(s: MessageSystem, t: MessageSystem)
    requires
        s.inv(),
        s.step(t),
    ensures
        t.inv(),
{
    if s.orderly_step(t) {
        law_orderly_step(s, t);
    } else {
        let i = lemma_whose_step(s, t);
        assert(s.actor_inv(i));
        if s.acts(t, i) {
            let event = choose|event: Event| #[trigger] s.acts_with(t, i, event);
            lemma_acts(s, t, i, event);
        } else {
            lemma_one_user(s, t, i);
        }
    }
}

/// Every step of every user but giving up a write keeps the payload what was
/// last published, unless it is being written.
pub proof fn law_orderly_step(s: MessageSystem, t: MessageSystem)
    requires
        s.inv(),
        s.orderly_step(t),
    ensures
        t.inv(),
        s.data_inv() ==> t.data_inv(),
{
    let i = choose|i: int|
        0 <= i < s.actors.len() && (#[trigger] s.begins(t, i) || s.goes_on(t, i) || s.writes(t, i)
            || s.proceeds(t, i));
    assert(s.actor_inv(i));
    if s.acts(t, i) {
        let event = choose|event: Event| #[trigger] s.acts_with(t, i, event);
        lemma_acts(s, t, i, event);
    } else if s.writes(t, i) {
        assert(t.actors =~= s.actors.update(i, t.actors[i]));
        lemma_one_user(s, t, i);
        assert(t.actors[i].excludes());
    } else {
        lemma_one_user(s, t, i);
        if s.data_inv() {
            lemma_data(s, t, i);
        }
    }
}

/// No reader holds the message while a writer may write its payload, and no
/// two writers may write it at the same time.
pub proof fn law_exclusion(s: MessageSystem, i: int, j: int)
    requires
        s.inv(),
        0 <= i < s.actors.len(),
        0 <= j < s.actors.len(),
        s.actors[i].may_write(),
    ensures
        s.actors[j].holds() is None,
        s.actors[j].may_write() ==> i == j,
{
    assert(s.actors[i].excludes() && s.actors[i].owns());
    assert(s.actors[j].may_write() ==> s.actors[j].owns());
}

/// A reader that holds a message finds the bytes last published under its
/// sequence, which is the current one.
pub proof fn law_reader_finds_published(s: MessageSystem, i: int)
    requires
        s.inv(),
        s.data_inv(),
        0 <= i < s.actors.len(),
        s.actors[i].holds() is Some,
    ensures
        s.region.sequence() == s.actors[i].holds()->Some_0,
        s.region.data() == s.published,
{
    assert(s.actor_inv(i));
    assert forall|j: int| 0 <= j < s.actors.len() implies !#[trigger] s.actors[j].excludes() by {
        assert(s.actors[i].holds() is Some);
    }
}

/// The message that a reader holds does not change while it is held, not even
/// where another writer gives up a write.
pub proof fn law_held_message_is_stable(s: MessageSystem, t: MessageSystem, i: int)
    requires
        s.inv(),
        s.step(t),
        0 <= i < s.actors.len(),
        s.actors[i].holds() is Some,
        t.actors[i].holds() == s.actors[i].holds(),
    ensures
        t.region.sequence() == s.region.sequence(),
        t.region.data() == s.region.data(),
{
    assert(t.region.data() == s.region.data()) by {
        lemma_data_stays(s, t, i);
    }
    assert(t.region.sequence() == s.region.sequence()) by {
        law_step(s, t);
        assert(s.actor_inv(i) && t.actor_inv(i));
    }
}

proof fn lemma_data_stays(s: MessageSystem, t: MessageSystem, i: int)
    requires
        s.inv(),
        s.step(t),
        0 <= i < s.actors.len(),
        s.actors[i].holds() is Some,
    ensures
        t.region.data() == s.region.data(),
{
    let k = lemma_whose_step(s, t);
    assert(!s.actors[k].excludes()) by {
        assert(s.actors[i].holds() is Some);
    }
    if s.acts(t, k) {
        let event = choose|event: Event| #[trigger] s.acts_with(t, k, event);
        lemma_data_kept(s, t, k, event);
    }
}

/// A step of a user that neither writes nor publishes keeps the data.
proof fn lemma_data_kept(s: MessageSystem, t: MessageSystem, i: int, event: Event)
    requires
        s.inv(),
        0 <= i < s.actors.len(),
        s.acts_with(t, i, event),
        !s.actors[i].excludes(),
    ensures
        t.region.data() == s.region.data(),
{
}

/// The sequence and the published bytes change together, and only so: with
/// each publication the next sequence comes, and with it the bytes that the
/// writer has put there.
pub proof fn law_publication(s: MessageSystem, t: MessageSystem)
    requires
        s.inv(),
        s.step(t),
    ensures
        ({
            ||| t.region.sequence() == s.region.sequence() && t.published == s.published
            ||| t.region.sequence() == sequence_after(s.region.sequence()) && t.published
                == s.region.data() && t.region.data() == s.region.data() && !t.region.writing()
        }),
{
    let i = lemma_whose_step(s, t);
    assert(s.actor_inv(i));
    if s.acts(t, i) {
        let event = choose|event: Event| #[trigger] s.acts_with(t, i, event);
        lemma_sequence_kept(s, t, i, event);
    }
}

proof fn lemma_sequence_kept(s: MessageSystem, t: MessageSystem, i: int, event: Event)
    requires
        s.inv(),
        0 <= i < s.actors.len(),
        s.acts_with(t, i, event),
    ensures
        ({
            ||| t.region.sequence() == s.region.sequence() && t.published == s.published
            ||| t.region.sequence() == sequence_after(s.region.sequence()) && t.published
                == s.region.data() && t.region.data() == s.region.data() && !t.region.writing()
        }),
        s.region.stopped() ==> t.region.stopped(),
{
    assert(s.actor_inv(i));
    law_sequence_after(s.region.sequence());
    law_sequence_round_trip(published(s.region.state()));
    law_sequence_round_trip(SequenceState { writing_in_progress: true, ..s.region.state() });
    law_sequence_round_trip(SequenceState { writing_in_progress: false, ..s.region.state() });
    law_sequence_round_trip(SequenceState { stopped: true, ..s.region.state() });
}

/// A stopped message stays stopped.
pub proof fn law_stop_is_final(s: MessageSystem, t: MessageSystem)
    requires
        s.inv(),
        s.step(t),
        s.region.stopped(),
    ensures
        t.region.stopped(),
{
    let i = lemma_whose_step(s, t);
    if s.acts(t, i) {
        let event = choose|event: Event| #[trigger] s.acts_with(t, i, event);
        lemma_sequence_kept(s, t, i, event);
    }
}

/// A run of a message from zeroed memory on; in an orderly one no writer gives
/// up.
pub open spec fn is_run(trace: Seq<MessageSystem>, orderly: bool) -> bool {
    &&& trace.len() > 0
    &&& trace[0].initial()
    &&& forall|n: int|
        0 <= n < trace.len() - 1 ==> if orderly {
            (#[trigger] trace[n]).orderly_step(trace[n + 1])
        } else {
            trace[n].step(trace[n + 1])
        }
}

/// In every run, whatever its users do and however their accesses interleave,
/// no reader ever holds the message while a writer may write it; and if no
/// writer gives up, a reader that holds it finds what was last published.
pub proof fn law_every_run(trace: Seq<MessageSystem>, orderly: bool, n: int)
    requires
        is_run(trace, orderly),
        0 <= n < trace.len(),
    ensures
        trace[n].inv(),
        orderly ==> trace[n].data_inv(),
        forall|i: int, j: int|
            0 <= i < trace[n].actors.len() && 0 <= j < trace[n].actors.len()
                && #[trigger] trace[n].actors[i].may_write()
                ==> #[trigger] trace[n].actors[j].holds() is None,
        orderly ==> forall|i: int|
            0 <= i < trace[n].actors.len() && (#[trigger] trace[n].actors[i].holds()) is Some
                ==> trace[n].region.data() == trace[n].published && trace[n].actors[i].holds()
                == Some(trace[n].region.sequence()),
    decreases n,
{
    if n == 0 {
        law_initial(trace[0]);
    } else {
        law_every_run(trace, orderly, n - 1);
        let before = trace[n - 1];
        assert(trace[n - 1 + 1] == trace[n]);
        if orderly {
            law_orderly_step(before, trace[n]);
        } else {
            law_step(before, trace[n]);
        }
    }
    let s = trace[n];
    assert forall|i: int, j: int|
        0 <= i < s.actors.len() && 0 <= j < s.actors.len()
            && #[trigger] s.actors[i].may_write() implies #[trigger] s.actors[j].holds() is None by {
        law_exclusion(s, i, j);
    }
    if orderly {
        assert forall|i: int|
            0 <= i < s.actors.len() && (#[trigger] s.actors[i].holds())
                is Some implies s.region.data() == s.published && s.actors[i].holds() == Some(
            s.region.sequence(),
        ) by {
            law_reader_finds_published(s, i);
        }
    }
}

/// What is written is read back: after a write, whoever has not seen it gets
/// its sequence and its bytes, without waiting, and who has seen it gets
/// nothing.
pub proof fn law_read_back(before: Region, data: Seq<u8>)
    requires
        before.wf(),
        data.len() <= before.payload.len(),
        data.len() <= usize::MAX,
    ensures
        ({
            let after = before.started().overwritten(data).published(data.len() as usize);
            &&& after.sequence() == sequence_after(before.sequence())
            &&& after.sequence() != before.sequence()
            &&& after.data() == data
            &&& after.stopped() == before.stopped()
            &&& forall|last_seen: u64, block: bool|
                last_seen != after.sequence() ==> !#[trigger] after.read_sleeps(last_seen, block)
            &&& after.counts() == (ReadersStateCount { data_consumed: 0, ..before.counts() })
        }),
{
    let after = before.started().overwritten(data).published(data.len() as usize);
    law_sequence_after(before.sequence());
    law_sequence_round_trip(SequenceState { writing_in_progress: true, ..before.state() });
    law_sequence_round_trip(published(before.started().state()));
    law_readers_round_trip(ReadersStateCount { data_consumed: 0, ..before.counts() });
    assert(after.data() =~= data);
}

/// Backpressure: a writer goes on to mark the message as being written only
/// where no message was published yet, or where it last saw as many readers
/// done with it as it waits for.
pub proof fn law_backpressure(op: StartWrite, event: Event)
    requires
        op.phase != StartPhase::Mark,
        op.after(event).phase == StartPhase::Mark,
    ensures
        match (op.phase, event) {
            (StartPhase::Readers { sequence }, Event::Word(readers)) => sequence == 0
                || !unconsumed(readers),
            (StartPhase::ConsumedTicket { readers }, _) => !unconsumed(readers),
            (StartPhase::ConsumedReaders { .. }, Event::Word(readers)) => !unconsumed(readers),
            _ => false,
        },
{
}

/// A notification wakes: who sleeps with the present ticket does not sleep any
/// more after it.
pub proof fn law_notification_wakes(region: Region, channel: Channel)
    ensures
        region.answer(Action::Sleep { channel, ticket: region.condvar(channel) }) is None,
        region.notify(channel).answer(Action::Sleep { channel, ticket: region.condvar(channel) })
            == Some(Event::Done),
{
    law_ticket(region.condvar(channel), 1);
}

/// What was written and not published is not read: whoever has not seen the
/// message that was there before waits for the next publication, and the others
/// get nothing. That publication brings its own bytes.
pub proof fn law_abandoned_guard_hides_payload(before: Region, data: Seq<u8>, next: Seq<u8>)
    requires
        before.wf(),
        data.len() <= before.payload.len(),
        next.len() <= before.payload.len(),
        next.len() <= usize::MAX,
    ensures
        ({
            let after = before.started().overwritten(data).unlocked();
            let published = after.started().overwritten(next).published(next.len() as usize);
            &&& after.writing()
            &&& after.sequence() == before.sequence()
            &&& forall|last_seen: u64, block: bool|
                last_seen != after.sequence() ==> #[trigger] after.read_sleeps(last_seen, block)
            &&& published.sequence() == sequence_after(before.sequence())
            &&& published.data() == next
            &&& !published.writing()
        }),
{
    let after = before.started().overwritten(data).unlocked();
    law_sequence_round_trip(SequenceState { writing_in_progress: true, ..before.state() });
    law_sequence_round_trip(SequenceState { writing_in_progress: true, ..after.state() });
    law_read_back(after, next);
    law_sequence_round_trip(published(after.started().state()));
}

/// A stop ends all waiting: a reader that has seen the current message, and a
/// writer that waits for readers, find out at their next look and finish.
pub proof fn law_stop_ends_waiting(region: Region, reader: ReadOperation, writer: StartWrite)
    requires
        region.stopped(),
    ensures
        reader.phase is Observe && reader.last_seen == region.sequence() ==> reader.after(
            region.answer(Action::LoadSequence)->Some_0,
        ).phase == ReadPhase::Finished(None),
        writer.phase is CheckStopped ==> writer.after(
            region.answer(Action::LoadSequence)->Some_0,
        ).phase == StartPhase::Finished(false),
        writer.phase is ConsumedStopped ==> writer.after(
            region.answer(Action::LoadSequence)->Some_0,
        ).phase == StartPhase::Unlock,
        writer.phase is ActiveStopped ==> writer.after(
            region.answer(Action::LoadSequence)->Some_0,
        ).phase == StartPhase::Clear,
{
}

} // verus!
