//! What holds of a double-buffered message however the accesses of its readers
//! and writers interleave.
use crate::primitives::shared_futex::{LockAction, LockOperation, CONTENDED, UNLOCKED};
use crate::shared_message::packed::{law_sequence_after, sequence_after};
use crate::sync::condvar::law_ticket;
use crate::tally::{
    lemma_tally_bound, lemma_tally_none, lemma_tally_positive, lemma_tally_update, tally,
};
use crate::zero_copy::operation::{
    AcquireBuffer, AcquirePhase, Publish, PublishPhase, ReadOperation, ReadPhase, ReleaseOperation,
    ReleasePhase,
};
use crate::zero_copy::region::{
    law_packing, smaller, Action, BufferIndex, Channel, Counter, Event, Region, SequenceState,
};
use vstd::prelude::*;

verus! {

/// What one user of a message is doing.
pub enum Actor {
    Idle,
    Reading(ReadOperation),
    Releasing(ReleaseOperation),
    Acquiring(AcquireBuffer),
    Publishing(Publish),
}

impl Actor {
    pub open spec fn next_action(self) -> Option<Action> {
        match self {
            Actor::Idle => None,
            Actor::Reading(op) => op.next_action(),
            Actor::Releasing(op) => op.next_action(),
            Actor::Acquiring(op) => op.next_action(),
            Actor::Publishing(op) => op.next_action(),
        }
    }

    pub open spec fn after(self, event: Event) -> Actor {
        match self {
            Actor::Idle => Actor::Idle,
            Actor::Reading(op) => Actor::Reading(op.after(event)),
            Actor::Releasing(op) => Actor::Releasing(op.after(event)),
            Actor::Acquiring(op) => Actor::Acquiring(op.after(event)),
            Actor::Publishing(op) => Actor::Publishing(op.after(event)),
        }
    }

    /// A reader holds the buffer.
    pub open spec fn holds(self, idx: BufferIndex) -> bool {
        match self {
            Actor::Reading(op) => match op.phase {
                ReadPhase::Holding { buffer_idx, .. } => buffer_idx == idx,
                _ => false,
            },
            _ => false,
        }
    }

    /// The buffer is this writer's to write.
    pub open spec fn may_write(self, idx: BufferIndex) -> bool {
        match self {
            Actor::Acquiring(op) => op.phase == AcquirePhase::Finished(Some(idx)),
            _ => false,
        }
    }

    /// The publication has not changed the sequence word yet, and may still.
    pub open spec fn unpublished(self, idx: BufferIndex) -> bool {
        match self {
            Actor::Publishing(op) => op.buffer_idx == idx && match op.phase {
                PublishPhase::Notify { .. } | PublishPhase::Unlock(_) => false,
                PublishPhase::Finished(_) => false,
                _ => true,
            },
            _ => false,
        }
    }

    /// From the permission to write a buffer on until it is published.
    pub open spec fn excludes(self, idx: BufferIndex) -> bool {
        self.may_write(idx) || self.unpublished(idx)
    }

    /// The writer has found the buffer not to be the latest.
    pub open spec fn claims(self, idx: BufferIndex) -> bool {
        match self {
            Actor::Acquiring(op) => match op.phase {
                AcquirePhase::Readers { buffer_idx } => buffer_idx == idx,
                AcquirePhase::Stopped { buffer_idx } => buffer_idx == idx,
                AcquirePhase::Doze { buffer_idx } => buffer_idx == idx,
                AcquirePhase::Sleep { buffer_idx, .. } => buffer_idx == idx,
                _ => self.may_write(idx),
            },
            _ => self.unpublished(idx),
        }
    }

    /// The writer has the writer lock.
    pub open spec fn owns(self) -> bool {
        match self {
            Actor::Acquiring(op) => match op.phase {
                AcquirePhase::CheckStopped | AcquirePhase::Locking(_) => false,
                AcquirePhase::Finished(granted) => granted is Some,
                _ => true,
            },
            Actor::Publishing(op) => !(op.phase is Finished),
            _ => false,
        }
    }

    /// The reader is one of the readers of the buffer.
    pub open spec fn counted(self, idx: BufferIndex) -> bool {
        match self {
            Actor::Reading(op) => match op.phase {
                ReadPhase::Verify { buffer_idx, .. } => buffer_idx == idx,
                ReadPhase::Withdraw { buffer_idx, release } => buffer_idx == idx && release
                    is Readers,
                ReadPhase::Holding { buffer_idx, .. } => buffer_idx == idx,
                _ => false,
            },
            Actor::Releasing(op) => op.buffer_idx == idx && op.phase is Readers,
            _ => false,
        }
    }

    /// What an operation remembers is what it computed.
    pub open spec fn wf(self) -> bool {
        match self {
            Actor::Publishing(op) => match op.phase {
                PublishPhase::Swap { expected, new } => op.seen(expected) == op.phase,
                _ => true,
            },
            Actor::Acquiring(op) => match op.phase {
                AcquirePhase::Locking(lock) => lock != LockOperation::Held,
                _ => true,
            },
            _ => true,
        }
    }
}

/// A change of the wait policy, or a stop with its notifications.
pub open spec fn is_policy(action: Action) -> bool {
    match action {
        Action::Store(counter, _) => counter is Target,
        Action::Increase(counter) | Action::Decrease(counter) => counter is Consumers,
        Action::SetStopped | Action::Notify(_) => true,
        _ => false,
    }
}

/// A message and its users. `first_published` and `second_published` are the
/// bytes last published in each buffer, `first_sequence` and `second_sequence`
/// the sequences under which they were.
pub struct MessageSystem {
    pub region: Region,
    pub actors: Seq<Actor>,
    pub first_published: Seq<u8>,
    pub second_published: Seq<u8>,
    pub first_sequence: u64,
    pub second_sequence: u64,
}

pub open spec fn counted_flags(actors: Seq<Actor>, idx: BufferIndex) -> Seq<bool> {
    Seq::new(actors.len(), |i: int| actors[i].counted(idx))
}

/// What an access does to the memory and what comes back. A sleeper may wake
/// spontaneously.
pub open spec fn access(before: Region, action: Action, after: Region, event: Event) -> bool {
    ||| before.answer(action) == Some(event) && after == before.after(action)
    ||| action is Sleep && after == before && event == Event::Done
    ||| action == Action::Lock(LockAction::Sleep) && after == before && event == Event::Lock(
        CONTENDED,
    )
}

impl MessageSystem {
    /// Zeroed memory that nobody uses, with no more users than the counters of
    /// readers have room for.
    pub open spec fn initial(self) -> bool {
        &&& exists|buffer_size: usize, spare: nat|
            self.region == #[trigger] Region::zeroed(buffer_size, spare)
        &&& self.actors.len() <= u16::MAX
        &&& forall|i: int| 0 <= i < self.actors.len() ==> self.actors[i] is Idle
        &&& self.first_published == Seq::<u8>::empty()
        &&& self.second_published == Seq::<u8>::empty()
        &&& self.first_sequence == 0
        &&& self.second_sequence == 0
    }

    pub open spec fn published(self, idx: BufferIndex) -> Seq<u8> {
        if idx {
            self.second_published
        } else {
            self.first_published
        }
    }

    pub open spec fn sequence_of(self, idx: BufferIndex) -> u64 {
        if idx {
            self.second_sequence
        } else {
            self.first_sequence
        }
    }

    pub open spec fn set(self, region: Region, i: int, actor: Actor) -> MessageSystem {
        MessageSystem { region, actors: self.actors.update(i, actor), ..self }
    }

    /// An idle user starts an operation.
    pub open spec fn begins(self, after: MessageSystem, i: int) -> bool {
        &&& self.actors[i] is Idle
        &&& {
            ||| exists|last_seen: u64, block: bool|
                after == #[trigger] self.set(
                    self.region,
                    i,
                    Actor::Reading(
                        ReadOperation { last_seen, block, phase: ReadPhase::Observe },
                    ),
                )
            ||| after == self.set(
                self.region,
                i,
                Actor::Acquiring(AcquireBuffer { phase: AcquirePhase::CheckStopped }),
            )
        }
    }

    /// An idle user changes the wait policy or stops the message.
    pub open spec fn governs(self, after: MessageSystem, i: int) -> bool {
        &&& self.actors[i] is Idle
        &&& exists|action: Action|
            is_policy(action) && after == self.set(
                #[trigger] self.region.after(action),
                i,
                Actor::Idle,
            )
    }

    /// A user makes the next access of its operation.
    pub open spec fn acts(self, after: MessageSystem, i: int) -> bool {
        exists|event: Event| #[trigger] self.acts_with(after, i, event)
    }

    pub open spec fn acts_with(self, after: MessageSystem, i: int, event: Event) -> bool {
        let before = self.actors[i];
        &&& before.next_action() is Some
        &&& access(self.region, before.next_action()->Some_0, after.region, event)
        &&& after.actors == self.actors.update(i, before.after(event))
        &&& forall|idx: BufferIndex| #[trigger]
            after.published(idx) == (if before.unpublished(idx)
                && after.region.sequence_word != self.region.sequence_word {
                after.region.data(idx)
            } else {
                self.published(idx)
            })
        &&& forall|idx: BufferIndex| #[trigger]
            after.sequence_of(idx) == (if before.unpublished(idx)
                && after.region.sequence_word != self.region.sequence_word {
                after.region.sequence()
            } else {
                self.sequence_of(idx)
            })
    }

    /// A reader registers in the latest buffer, but two publications came
    /// between its two looks at the sequence word, and it goes by the sequence
    /// that it saw first.
    pub open spec fn misnumbers(self, i: int) -> bool {
        match self.actors[i] {
            Actor::Reading(op) => match op.phase {
                ReadPhase::Verify { buffer_idx, sequence } => buffer_idx == self.region.latest()
                    && sequence != self.region.sequence(),
                _ => false,
            },
            _ => false,
        }
    }

    /// A writer writes any bytes into its buffer.
    pub open spec fn writes(self, after: MessageSystem, i: int, idx: BufferIndex) -> bool {
        &&& self.actors[i].may_write(idx)
        &&& after.region == (Region { buffers: after.region.buffers, ..self.region })
        &&& after.region.buffers.len() == self.region.buffers.len()
        &&& after.region.buffer(!idx) == self.region.buffer(!idx)
        &&& after.actors == self.actors
        &&& after.first_published == self.first_published
        &&& after.second_published == self.second_published
        &&& after.first_sequence == self.first_sequence
        &&& after.second_sequence == self.second_sequence
    }

    /// A user goes from one operation to the next: a reader gives the buffer
    /// back, a writer publishes or gives up, and what is finished is over.
    pub open spec fn proceeds(self, after: MessageSystem, i: int, idx: BufferIndex) -> bool {
        ||| self.actors[i].holds(idx) && after == self.set(
            self.region,
            i,
            Actor::Releasing(
                ReleaseOperation { buffer_idx: idx, phase: ReleasePhase::Readers },
            ),
        )
        ||| self.actors[i].may_write(idx) && exists|size: usize|
            size <= self.region.buffer_size && after == #[trigger] self.set(
                self.region,
                i,
                Actor::Publishing(Publish { buffer_idx: idx, size, phase: PublishPhase::State }),
            )
        ||| self.actors[i].may_write(idx) && after == self.set(
            self.region.unlocked(),
            i,
            Actor::Idle,
        )
        ||| self.actors[i].next_action() is None && !self.actors[i].owns()
            && !self.actors[i].counted(true) && !self.actors[i].counted(false) && after
            == self.set(self.region, i, Actor::Idle)
    }

    /// One access, or one step between accesses, of one user.
    pub open spec fn step(self, after: MessageSystem) -> bool {
        exists|i: int, idx: BufferIndex| #[trigger] self.step_of(after, i, idx)
    }

    pub open spec fn step_of(self, after: MessageSystem, i: int, idx: BufferIndex) -> bool {
        &&& 0 <= i < self.actors.len()
        &&& {
            ||| self.begins(after, i)
            ||| self.governs(after, i)
            ||| self.acts(after, i)
            ||| self.writes(after, i, idx)
            ||| self.proceeds(after, i, idx)
        }
    }

    /// A step in which no reader goes by an outdated sequence.
    pub open spec fn numbered_step(self, after: MessageSystem) -> bool {
        exists|i: int, idx: BufferIndex| #[trigger]
            self.step_of(after, i, idx) && !(self.acts(after, i) && self.misnumbers(i))
    }

    /// What every numbered step keeps: who holds a buffer knows the sequence
    /// under which it was published, and so does the sequence word of the
    /// latest.
    pub open spec fn numbered(self) -> bool {
        &&& self.region.sequence() == self.sequence_of(self.region.latest())
        &&& forall|i: int| 0 <= i < self.actors.len() ==> self.numbered_actor(i)
    }

    #[verifier::inline]
    pub open spec fn numbered_actor(self, i: int) -> bool {
        match #[trigger] self.actors[i] {
            Actor::Reading(op) => match op.phase {
                ReadPhase::Holding { buffer_idx, sequence } => sequence == self.sequence_of(
                    buffer_idx,
                ),
                _ => true,
            },
            _ => true,
        }
    }

    /// What every step keeps.
    pub open spec fn inv(self) -> bool {
        &&& self.region.wf()
        &&& self.actors.len() <= u16::MAX
        &&& forall|idx: BufferIndex|
            tally(#[trigger] counted_flags(self.actors, idx)) == self.region.of(idx).readers
        &&& forall|i: int| 0 <= i < self.actors.len() ==> self.actor_inv(i)
        &&& forall|i: int, j: int|
            0 <= i < self.actors.len() && 0 <= j < self.actors.len()
                && #[trigger] self.actors[i].owns() && #[trigger] self.actors[j].owns() ==> i == j
        &&& forall|i: int, j: int, idx: BufferIndex|
            0 <= i < self.actors.len() && 0 <= j < self.actors.len()
                && #[trigger] self.actors[i].excludes(idx) ==> !#[trigger] self.actors[j].holds(idx)
        &&& forall|idx: BufferIndex|
            idx == self.region.latest() || self.held(idx) ==> self.region.data(idx)
                == #[trigger] self.published(idx)
    }

    /// Some reader holds the buffer.
    pub open spec fn held(self, idx: BufferIndex) -> bool {
        exists|i: int| 0 <= i < self.actors.len() && #[trigger] self.actors[i].holds(idx)
    }

    #[verifier::inline]
    pub open spec fn actor_inv(self, i: int) -> bool {
        let actor = #[trigger] self.actors[i];
        &&& actor.wf()
        &&& actor.owns() ==> self.region.writer_lock != UNLOCKED
        &&& !actor.claims(self.region.latest())
        &&& actor matches Actor::Publishing(op) ==> op.size <= self.region.buffer_size
    }
}

/// One user changes from one activity to another while the memory changes.
proof fn lemma_one_user(s: MessageSystem, t: MessageSystem, i: int)
    requires
        s.inv(),
        0 <= i < s.actors.len(),
        t.actors.len() == s.actors.len(),
        t.actors == s.actors.update(i, t.actors[i]),
        t.region.wf(),
        t.region.buffer_size == s.region.buffer_size,
        forall|idx: BufferIndex| #[trigger]
            t.region.of(idx).readers - s.region.of(idx).readers == (if t.actors[i].counted(idx) {
                1int
            } else {
                0
            }) - (if s.actors[i].counted(idx) {
                1int
            } else {
                0
            }),
        t.actor_inv(i),
        t.region.writer_lock == UNLOCKED ==> s.region.writer_lock == UNLOCKED
            || s.actors[i].owns(),
        t.actors[i].owns() ==> s.region.writer_lock == UNLOCKED || s.actors[i].owns(),
        t.region.latest() != s.region.latest() ==> s.actors[i].excludes(t.region.latest())
            && t.region.data(t.region.latest()) == t.published(t.region.latest()),
        forall|idx: BufferIndex| #[trigger]
            t.actors[i].excludes(idx) ==> s.actors[i].excludes(idx) || s.region.of(idx).readers
                == 0,
        forall|idx: BufferIndex| #[trigger]
            t.actors[i].holds(idx) ==> s.actors[i].holds(idx) || idx == s.region.latest(),
        forall|idx: BufferIndex|
            {
                ||| t.region.data(idx) == s.region.data(idx) && #[trigger] t.published(idx)
                    == s.published(idx)
                ||| s.actors[i].excludes(idx) && (idx == t.region.latest() ==> t.region.data(idx)
                    == t.published(idx))
            },
    ensures
        t.inv(),
{
    assert forall|idx: BufferIndex|
        tally(#[trigger] counted_flags(t.actors, idx)) == t.region.of(idx).readers by {
        assert(counted_flags(t.actors, idx) =~= counted_flags(s.actors, idx).update(
            i,
            t.actors[i].counted(idx),
        ));
        lemma_tally_update(counted_flags(s.actors, idx), i, t.actors[i].counted(idx));
    }
    assert forall|j: int, idx: BufferIndex|
        s.region.of(idx).readers == 0 && 0 <= j < s.actors.len() implies !#[trigger] s.actors[j].holds(
        idx,
    ) by {
        if s.actors[j].holds(idx) {
            lemma_tally_positive(counted_flags(s.actors, idx), j);
        }
    }
    assert forall|j: int| 0 <= j < t.actors.len() implies t.actor_inv(j) by {
        if j != i {
            assert(t.actors[j] == s.actors[j] && s.actor_inv(j));
            if s.actors[i].owns() {
                assert(!s.actors[j].owns());
            }
        }
    }
    assert forall|j: int, k: int|
        0 <= j < t.actors.len() && 0 <= k < t.actors.len() && #[trigger] t.actors[j].owns()
            && #[trigger] t.actors[k].owns() implies j == k by {
        if j != i && k != i {
            assert(s.actors[j].owns() && s.actors[k].owns());
        } else if j != i {
            assert(s.actors[j] == t.actors[j] && s.actor_inv(j));
            assert(s.actors[i].owns() && s.actors[j].owns());
        } else if k != i {
            assert(s.actors[k] == t.actors[k] && s.actor_inv(k));
            assert(s.actors[i].owns() && s.actors[k].owns());
        }
    }
    assert forall|j: int, k: int, idx: BufferIndex|
        0 <= j < t.actors.len() && 0 <= k < t.actors.len() && #[trigger] t.actors[j].excludes(
            idx,
        ) implies !#[trigger] t.actors[k].holds(idx) by {
        if j != i {
            assert(s.actors[j] == t.actors[j] && s.actors[j].excludes(idx));
            assert(s.actor_inv(j));
            if k != i {
                assert(s.actors[k] == t.actors[k]);
            } else {
                assert(!s.actors[i].holds(idx));
            }
        } else if k != i {
            assert(s.actors[k] == t.actors[k]);
            if s.actors[i].excludes(idx) {
                assert(!s.actors[k].holds(idx));
            }
        }
    }
    assert forall|idx: BufferIndex|
        idx == t.region.latest() || t.held(idx) implies t.region.data(idx) == #[trigger] t.published(
        idx,
    ) by {
        if t.held(idx) {
            let k = choose|k: int| 0 <= k < t.actors.len() && #[trigger] t.actors[k].holds(idx);
            if s.actors[i].excludes(idx) {
                assert(!s.actors[k].holds(idx));
                assert(s.actor_inv(i));
                assert(k == i);
                assert(idx == s.region.latest());
            } else if k != i {
                assert(s.actors[k].holds(idx));
                assert(s.held(idx));
            } else if s.actors[i].holds(idx) {
                assert(s.held(idx));
            }
            assert(s.region.data(idx) == s.published(idx));
        }
    }
}

proof fn lemma_acts(s: MessageSystem, t: MessageSystem, i: int, event: Event)
    requires
        s.inv(),
        0 <= i < s.actors.len(),
        s.acts_with(t, i, event),
    ensures
        t.inv(),
{
    match s.actors[i] {
        Actor::Idle => {},
        Actor::Reading(_) => lemma_reading(s, t, i, event),
        Actor::Releasing(_) => lemma_releasing(s, t, i, event),
        Actor::Acquiring(_) => lemma_acquiring(s, t, i, event),
        Actor::Publishing(_) => lemma_publishing(s, t, i, event),
    }
}

proof fn lemma_reading(s: MessageSystem, t: MessageSystem, i: int, event: Event)
    requires
        s.inv(),
        0 <= i < s.actors.len(),
        s.acts_with(t, i, event),
        s.actors[i] is Reading,
    ensures
        t.inv(),
{
    let actor = s.actors[i];
    assert(t.actors[i] == actor.after(event));
    assert(s.actor_inv(i));
    assert forall|idx: BufferIndex| true implies #[trigger] t.region.of(idx).readers - s.region.of(
        idx,
    ).readers == (if t.actors[i].counted(idx) {
        1int
    } else {
        0
    }) - (if actor.counted(idx) {
        1int
    } else {
        0
    }) by {
        lemma_room(s, i, idx);
    }
    lemma_one_user(s, t, i);
}

proof fn lemma_releasing(s: MessageSystem, t: MessageSystem, i: int, event: Event)
    requires
        s.inv(),
        0 <= i < s.actors.len(),
        s.acts_with(t, i, event),
        s.actors[i] is Releasing,
    ensures
        t.inv(),
{
    let actor = s.actors[i];
    assert(t.actors[i] == actor.after(event));
    assert(s.actor_inv(i));
    assert forall|idx: BufferIndex| true implies #[trigger] t.region.of(idx).readers - s.region.of(
        idx,
    ).readers == (if t.actors[i].counted(idx) {
        1int
    } else {
        0
    }) - (if actor.counted(idx) {
        1int
    } else {
        0
    }) by {
        lemma_room(s, i, idx);
    }
    lemma_one_user(s, t, i);
}

proof fn lemma_acquiring(s: MessageSystem, t: MessageSystem, i: int, event: Event)
    requires
        s.inv(),
        0 <= i < s.actors.len(),
        s.acts_with(t, i, event),
        s.actors[i] is Acquiring,
    ensures
        t.inv(),
{
    assert(t.actors[i] == s.actors[i].after(event));
    assert(s.actor_inv(i));
    lemma_one_user(s, t, i);
}

proof fn lemma_publishing(s: MessageSystem, t: MessageSystem, i: int, event: Event)
    requires
        s.inv(),
        0 <= i < s.actors.len(),
        s.acts_with(t, i, event),
        s.actors[i] is Publishing,
    ensures
        t.inv(),
{
    let op = s.actors[i]->Publishing_0;
    assert(t.actors[i] == s.actors[i].after(event));
    assert(s.actor_inv(i));
    law_sequence_after(s.region.sequence());
    law_packing(s.region.next_state(op.buffer_idx), 0);
    lemma_one_user(s, t, i);
}

/// A counter of readers has room for a user that it does not count yet, and
/// counts at least a user that it counts.
proof fn lemma_room(s: MessageSystem, i: int, idx: BufferIndex)
    requires
        s.inv(),
        0 <= i < s.actors.len(),
    ensures
        s.actors[i].counted(idx) ==> s.region.of(idx).readers > 0,
        !s.actors[i].counted(idx) ==> s.region.of(idx).readers < u16::MAX,
{
    if s.actors[i].counted(idx) {
        lemma_tally_positive(counted_flags(s.actors, idx), i);
    } else {
        lemma_tally_bound(counted_flags(s.actors, idx), i);
    }
}

/// On zeroed memory that nobody uses the invariants hold.
pub proof fn law_initial(s: MessageSystem)
    requires
        s.initial(),
    ensures
        s.inv(),
        s.numbered(),
{
    assert forall|idx: BufferIndex|
        tally(#[trigger] counted_flags(s.actors, idx)) == s.region.of(idx).readers by {
        lemma_tally_none(counted_flags(s.actors, idx));
    }
    assert forall|idx: BufferIndex| s.region.data(idx) == #[trigger] s.published(idx) by {
        assert(s.region.data(idx) =~= Seq::<u8>::empty());
    }
}

/// Every step of every user keeps the invariant.
pub proof fn law_step(s: MessageSystem, t: MessageSystem)
    requires
        s.inv(),
        s.step(t),
    ensures
        t.inv(),
{
    let (i, idx) = choose|i: int, idx: BufferIndex| #[trigger] s.step_of(t, i, idx);
    lemma_step_of(s, t, i, idx);
}

proof fn lemma_step_of(s: MessageSystem, t: MessageSystem, i: int, idx: BufferIndex)
    requires
        s.inv(),
        s.step_of(t, i, idx),
    ensures
        t.inv(),
{
    assert(s.actor_inv(i));
    if s.acts(t, i) {
        let event = choose|event: Event| #[trigger] s.acts_with(t, i, event);
        lemma_acts(s, t, i, event);
    } else if s.governs(t, i) {
        law_packing(SequenceState { stopped: true, ..s.region.state() }, 0);
        lemma_one_user(s, t, i);
    } else if s.writes(t, i, idx) {
        assert(t.actors =~= s.actors.update(i, t.actors[i]));
        lemma_one_user(s, t, i);
    } else {
        lemma_one_user(s, t, i);
    }
}

/// No reader holds the buffer that a writer may write, and no two writers may
/// write at the same time. Nor is it ever the latest buffer.
pub proof fn law_exclusion(s: MessageSystem, i: int, j: int, idx: BufferIndex)
    requires
        s.inv(),
        0 <= i < s.actors.len(),
        0 <= j < s.actors.len(),
        s.actors[i].may_write(idx),
    ensures
        !s.actors[j].holds(idx),
        s.actors[j].may_write(true) || s.actors[j].may_write(false) ==> i == j,
        idx != s.region.latest(),
{
    assert(s.actor_inv(i));
    assert(s.actors[i].excludes(idx) && s.actors[i].owns());
    if s.actors[j].may_write(true) || s.actors[j].may_write(false) {
        assert(s.actors[j].owns());
    }
}

/// A reader that holds a buffer finds the bytes last published in it.
pub proof fn law_reader_finds_published(s: MessageSystem, i: int, idx: BufferIndex)
    requires
        s.inv(),
        0 <= i < s.actors.len(),
        s.actors[i].holds(idx),
    ensures
        s.region.data(idx) == s.published(idx),
{
    assert(s.held(idx));
}

/// The message that a reader holds does not change while it is held, whatever
/// is written and published meanwhile.
pub proof fn law_held_message_is_stable(
    s: MessageSystem,
    t: MessageSystem,
    i: int,
    idx: BufferIndex,
)
    requires
        s.inv(),
        s.step(t),
        0 <= i < s.actors.len(),
        s.actors[i].holds(idx),
    ensures
        t.region.data(idx) == s.region.data(idx),
{
    let (k, buffer) = choose|k: int, buffer: BufferIndex| #[trigger] s.step_of(t, k, buffer);
    assert(!s.actors[k].excludes(idx)) by {
        assert(s.actors[i].holds(idx));
    }
    if s.acts(t, k) {
        let event = choose|event: Event| #[trigger] s.acts_with(t, k, event);
        lemma_data_kept(s, t, k, event, idx);
    }
}

/// A step of a user that has not got the buffer to write keeps its data.
proof fn lemma_data_kept(
    s: MessageSystem,
    t: MessageSystem,
    i: int,
    event: Event,
    idx: BufferIndex,
)
    requires
        s.inv(),
        0 <= i < s.actors.len(),
        s.acts_with(t, i, event),
        !s.actors[i].excludes(idx),
    ensures
        t.region.data(idx) == s.region.data(idx),
{
}

/// The sequence, the latest buffer and what is published there change
/// together, and only so: with each publication the next sequence comes, the
/// other buffer becomes the latest, and its bytes are those that the writer
/// has put there.
pub proof fn law_publication(s: MessageSystem, t: MessageSystem)
    requires
        s.inv(),
        s.step(t),
    ensures
        ({
            ||| t.region.sequence() == s.region.sequence() && t.region.latest() == s.region.latest()
                && t.first_published == s.first_published && t.second_published
                == s.second_published
            ||| t.region.sequence() == sequence_after(s.region.sequence()) && t.region.latest()
                != s.region.latest() && t.published(t.region.latest()) == s.region.data(
                t.region.latest(),
            ) && t.published(s.region.latest()) == s.published(s.region.latest())
        }),
{
    let (i, idx) = choose|i: int, idx: BufferIndex| #[trigger] s.step_of(t, i, idx);
    if s.acts(t, i) {
        let event = choose|event: Event| #[trigger] s.acts_with(t, i, event);
        lemma_sequence_kept(s, t, i, event);
    } else {
        law_packing(SequenceState { stopped: true, ..s.region.state() }, 0);
    }
}

proof fn lemma_sequence_kept(s: MessageSystem, t: MessageSystem, i: int, event: Event)
    requires
        s.inv(),
        0 <= i < s.actors.len(),
        s.acts_with(t, i, event),
    ensures
        ({
            ||| t.region.sequence_word == s.region.sequence_word && t.first_published
                == s.first_published && t.second_published == s.second_published
                && t.first_sequence == s.first_sequence && t.second_sequence == s.second_sequence
            ||| t.region.sequence() == sequence_after(s.region.sequence()) && t.region.latest()
                != s.region.latest() && s.actors[i].unpublished(t.region.latest())
                && !t.region.stopped() && !s.region.stopped() && t.published(t.region.latest())
                == s.region.data(t.region.latest()) && t.published(s.region.latest())
                == s.published(s.region.latest()) && t.sequence_of(t.region.latest())
                == t.region.sequence() && t.sequence_of(s.region.latest()) == s.sequence_of(
                s.region.latest(),
            )
        }),
{
    assert(s.actor_inv(i));
    law_sequence_after(s.region.sequence());
    law_packing(s.region.next_state(true), 0);
    law_packing(s.region.next_state(false), 0);
    assert(t.published(true) == t.second_published && t.published(false) == t.first_published);
    assert(t.sequence_of(true) == t.second_sequence && t.sequence_of(false) == t.first_sequence);
}

/// A stopped message stays stopped.
pub proof fn law_stop_is_final(s: MessageSystem, t: MessageSystem)
    requires
        s.inv(),
        s.step(t),
        s.region.stopped(),
    ensures
        t.region.stopped(),
        t.region.sequence() == s.region.sequence(),
{
    let (i, idx) = choose|i: int, idx: BufferIndex| #[trigger] s.step_of(t, i, idx);
    if s.acts(t, i) {
        let event = choose|event: Event| #[trigger] s.acts_with(t, i, event);
        lemma_sequence_kept(s, t, i, event);
    } else {
        law_packing(SequenceState { stopped: true, ..s.region.state() }, 0);
    }
}

/// Unless two publications come between a reader's two looks at the sequence
/// word, the sequence that a reader has is that under which the buffer it
/// holds was published.
pub proof fn law_numbered_step(s: MessageSystem, t: MessageSystem)
    requires
        s.inv(),
        s.numbered(),
        s.numbered_step(t),
    ensures
        t.inv(),
        t.numbered(),
{
    let (i, idx) = choose|i: int, idx: BufferIndex| #[trigger]
        s.step_of(t, i, idx) && !(s.acts(t, i) && s.misnumbers(i));
    lemma_step_of(s, t, i, idx);
    assert(s.actor_inv(i) && s.numbered_actor(i));
    if s.acts(t, i) {
        let event = choose|event: Event| #[trigger] s.acts_with(t, i, event);
        lemma_sequence_kept(s, t, i, event);
        assert forall|j: int| 0 <= j < t.actors.len() implies t.numbered_actor(j) by {
            if j != i {
                assert(t.actors[j] == s.actors[j] && s.numbered_actor(j));
                if t.region.sequence_word != s.region.sequence_word {
                    assert(s.actors[i].excludes(t.region.latest()));
                    assert(!s.actors[j].holds(t.region.latest()));
                }
            }
        }
    } else {
        law_packing(SequenceState { stopped: true, ..s.region.state() }, 0);
        assert forall|j: int| 0 <= j < t.actors.len() implies t.numbered_actor(j) by {
            if j != i {
                assert(t.actors[j] == s.actors[j] && s.numbered_actor(j));
            }
        }
    }
}

/// A run of a message from zeroed memory on.
pub open spec fn is_run(trace: Seq<MessageSystem>) -> bool {
    &&& trace.len() > 0
    &&& trace[0].initial()
    &&& forall|n: int| 0 <= n < trace.len() - 1 ==> (#[trigger] trace[n]).step(trace[n + 1])
}

/// In every run, however the accesses of its users interleave, no reader ever
/// holds a buffer that a writer may write, and who holds a buffer finds what
/// was last published in it.
pub proof fn law_every_run(trace: Seq<MessageSystem>, n: int)
    requires
        is_run(trace),
        0 <= n < trace.len(),
    ensures
        trace[n].inv(),
        forall|i: int, j: int, idx: BufferIndex|
            0 <= i < trace[n].actors.len() && 0 <= j < trace[n].actors.len()
                && #[trigger] trace[n].actors[i].may_write(idx)
                ==> !#[trigger] trace[n].actors[j].holds(idx),
        forall|i: int, idx: BufferIndex|
            0 <= i < trace[n].actors.len() && #[trigger] trace[n].actors[i].holds(idx)
                ==> trace[n].region.data(idx) == trace[n].published(idx),
    decreases n,
{
    if n == 0 {
        law_initial(trace[0]);
    } else {
        law_every_run(trace, n - 1);
        assert(trace[n - 1 + 1] == trace[n]);
        law_step(trace[n - 1], trace[n]);
    }
    let s = trace[n];
    assert forall|i: int, j: int, idx: BufferIndex|
        0 <= i < s.actors.len() && 0 <= j < s.actors.len() && #[trigger] s.actors[i].may_write(
            idx,
        ) implies !#[trigger] s.actors[j].holds(idx) by {
        law_exclusion(s, i, j, idx);
    }
    assert forall|i: int, idx: BufferIndex|
        0 <= i < s.actors.len() && #[trigger] s.actors[i].holds(idx) implies s.region.data(idx)
        == s.published(idx) by {
        law_reader_finds_published(s, i, idx);
    }
}

/// What is written is read back, and what was there before is still there: a
/// write leaves its bytes in the other buffer under the next sequence, and the
/// buffer that was the latest as it was, for those who hold it.
pub proof fn law_read_back(before: Region, data: Seq<u8>)
    requires
        before.wf(),
        !before.stopped(),
        data.len() <= before.buffer_size,
    ensures
        ({
            let idx = !before.latest();
            let after = before.overwritten(idx, data).published(idx, data.len() as usize);
            &&& after.sequence() == sequence_after(before.sequence())
            &&& after.sequence() != before.sequence()
            &&& after.latest() == idx
            &&& after.data(idx) == data
            &&& after.data(!idx) == before.data(!idx)
            &&& after.of(!idx) == before.of(!idx)
            &&& !after.stopped()
            &&& forall|last_seen: u64, block: bool|
                last_seen != after.sequence() ==> !#[trigger] after.read_sleeps(last_seen, block)
        }),
{
    let idx = !before.latest();
    let after = before.overwritten(idx, data).published(idx, data.len() as usize);
    law_sequence_after(before.sequence());
    law_packing(before.next_state(idx), 0);
    assert(after.data(idx) =~= data);
    assert(after.data(!idx) =~= before.data(!idx));
}

/// A writer does not wait for the readers of the latest buffer to get the other
/// one.
pub proof fn law_double_buffering(region: Region, readers: u16)
    requires
        !region.acquire_sleeps(),
    ensures
        !region.with_counter(Counter::Readers(region.latest()), readers).acquire_sleeps(),
{
}

/// Backpressure: a writer goes on to publish only where no message was
/// published yet, or where it last saw as many readers done with the latest as
/// it waits for.
pub proof fn law_backpressure(op: Publish, event: Event)
    requires
        op.phase != PublishPhase::StoreSize,
        op.after(event).phase == PublishPhase::StoreSize,
    ensures
        match (op.phase, event) {
            (PublishPhase::Consumers { sequence, target, .. }, Event::Count(consumers)) => sequence
                == 0 || smaller(target, consumers) == 0,
            (PublishPhase::Consumed { target, .. }, Event::Count(consumed)) => consumed >= target,
            _ => false,
        },
{
}

/// A notification wakes: who sleeps on the present value does not sleep any
/// more after it.
pub proof fn law_notification_wakes(region: Region, channel: Channel)
    ensures
        region.answer(Action::Sleep { channel, ticket: region.condvar(channel) }) is None,
        region.notify(channel).answer(Action::Sleep { channel, ticket: region.condvar(channel) })
            == Some(Event::Done),
{
    law_ticket(region.condvar(channel), 1);
}

/// A stop ends all waiting: a reader that has seen the latest message, and a
/// writer that waits for readers, find out at their next look and finish.
pub proof fn law_stop_ends_waiting(
    region: Region,
    reader: ReadOperation,
    acquirer: AcquireBuffer,
    publisher: Publish,
)
    requires
        region.stopped(),
    ensures
        reader.phase is Observe && reader.last_seen == region.sequence() ==> reader.after(
            region.answer(Action::LoadSequence)->Some_0,
        ).phase == ReadPhase::Nothing,
        acquirer.phase is CheckStopped ==> acquirer.after(
            region.answer(Action::LoadSequence)->Some_0,
        ).phase == AcquirePhase::Finished(None),
        acquirer.phase is Stopped ==> acquirer.after(
            region.answer(Action::LoadSequence)->Some_0,
        ).phase == AcquirePhase::Unlock,
        publisher.phase is Stopped || publisher.phase is Sequence ==> publisher.after(
            region.answer(Action::LoadSequence)->Some_0,
        ).phase == PublishPhase::Unlock(None),
{
}

} // verus!
