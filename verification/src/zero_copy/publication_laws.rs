//! How the sequence of a double-buffered message counts its publications, and
//! what a writer may rely on while it writes, however the accesses of its
//! readers and writers interleave.
use crate::shared_message::packed::{
    advanced, law_first_messages_are_counted, law_flag_masks, law_sequence_after, sequence_after,
    SEQUENCE_LIMIT,
};
use crate::zero_copy::laws::{
    is_run, law_every_run, law_exclusion, law_step, law_stop_is_final, Actor, MessageSystem,
};
use crate::zero_copy::operation::{AcquirePhase, PublishPhase};
use crate::zero_copy::region::{law_packing, BufferIndex, Event, SequenceState};
use vstd::prelude::*;

verus! {

/// A writer has made its message the current one and notifies the readers next.
pub open spec fn announces(actor: Actor) -> bool {
    match actor {
        Actor::Publishing(op) => op.phase is Notify,
        _ => false,
    }
}

/// In the step from one state to the next a user makes its message the current
/// one.
pub open spec fn publishes_by(before: MessageSystem, after: MessageSystem, i: int) -> bool {
    !announces(before.actors[i]) && announces(after.actors[i])
}

/// In the step from one state to the next some message becomes the current one.
pub open spec fn publishes(before: MessageSystem, after: MessageSystem) -> bool {
    exists|i: int| 0 <= i < before.actors.len() && #[trigger] publishes_by(before, after, i)
}

/// How many of the first `steps` steps of a run make a message the current one.
pub open spec fn publications(trace: Seq<MessageSystem>, steps: int) -> nat
    decreases steps,
{
    if steps <= 0 {
        0
    } else if publishes(trace[steps - 1], trace[steps]) {
        publications(trace, steps - 1) + 1
    } else {
        publications(trace, steps - 1)
    }
}

/// What a step of a user does to the message.
pub open spec fn alters(s: MessageSystem, t: MessageSystem, i: int) -> bool {
    &&& t.region.sequence() == if publishes_by(s, t, i) {
        sequence_after(s.region.sequence())
    } else {
        s.region.sequence()
    }
    &&& !s.actors[i].owns() ==> t.region.buffers == s.region.buffers
    &&& !s.actors[i].owns() || t.actors[i].may_write(true) || t.actors[i].may_write(false)
        ==> undisturbed(s, t)
}

/// The sequence, the latest buffer, the sizes of the messages in both buffers
/// and what was published there are the same.
pub open spec fn undisturbed(s: MessageSystem, t: MessageSystem) -> bool {
    &&& t.region.sequence() == s.region.sequence()
    &&& t.region.latest() == s.region.latest()
    &&& t.region.buffer_size == s.region.buffer_size
    &&& t.region.first.size == s.region.first.size
    &&& t.region.second.size == s.region.second.size
    &&& t.first_published == s.first_published
    &&& t.second_published == s.second_published
    &&& t.first_sequence == s.first_sequence
    &&& t.second_sequence == s.second_sequence
}

/// Whose step it was, and what it does to the message.
proof fn lemma_whose_step(s: MessageSystem, t: MessageSystem) -> (step: (int, BufferIndex))
    requires
        s.inv(),
        s.step(t),
    ensures
        0 <= step.0 < s.actors.len(),
        s.step_of(t, step.0, step.1),
        t.actors == s.actors.update(step.0, t.actors[step.0]),
        alters(s, t, step.0),
{
    let (i, idx) = choose|i: int, idx: BufferIndex| #[trigger] s.step_of(t, i, idx);
    if s.acts(t, i) {
        let event = choose|event: Event| #[trigger] s.acts_with(t, i, event);
        lemma_access(s, t, i, event);
    } else {
        law_packing(SequenceState { stopped: true, ..s.region.state() }, 0);
    }
    assert(t.actors =~= s.actors.update(i, t.actors[i]));
    (i, idx)
}

/// What one access does to the message.
proof fn lemma_access(s: MessageSystem, t: MessageSystem, i: int, event: Event)
    requires
        s.inv(),
        0 <= i < s.actors.len(),
        s.acts_with(t, i, event),
    ensures
        alters(s, t, i),
{
    assert(s.actor_inv(i));
    law_sequence_after(s.region.sequence());
    law_packing(s.region.next_state(true), 0);
    law_packing(s.region.next_state(false), 0);
    assert(t.published(true) == t.second_published && t.published(false) == t.first_published);
    assert(t.sequence_of(true) == t.second_sequence && t.sequence_of(false) == t.first_sequence);
}

/// A step that makes a message the current one gives it the next sequence, and
/// no other step changes the sequence.
pub proof fn law_each_publication_counts(s: MessageSystem, t: MessageSystem)
    requires
        s.inv(),
        s.step(t),
    ensures
        t.region.sequence() == if publishes(s, t) {
            sequence_after(s.region.sequence())
        } else {
            s.region.sequence()
        },
{
    let i = lemma_whose_step(s, t).0;
    assert forall|j: int| 0 <= j < s.actors.len() && #[trigger] publishes_by(s, t, j) implies j
        == i by {
        if j != i {
            assert(t.actors[j] == s.actors[j]);
        }
    }
}

/// In every run, whatever its users do and however their accesses interleave,
/// the sequence counts the publications: none is passed over and none comes
/// twice. Until the numbering starts over, the sequence is their number.
pub proof fn law_sequence_counts_publications(trace: Seq<MessageSystem>, n: int)
    requires
        is_run(trace),
        0 <= n < trace.len(),
    ensures
        trace[n].region.sequence() == advanced(0, publications(trace, n)),
        publications(trace, n) < SEQUENCE_LIMIT ==> trace[n].region.sequence() == publications(
            trace,
            n,
        ),
    decreases n,
{
    if n == 0 {
        law_flag_masks(0);
    } else {
        law_sequence_counts_publications(trace, n - 1);
        law_every_run(trace, n - 1);
        assert(trace[n - 1 + 1] == trace[n]);
        assert(trace[n - 1].step(trace[n]));
        law_each_publication_counts(trace[n - 1], trace[n]);
    }
    if publications(trace, n) < SEQUENCE_LIMIT {
        law_first_messages_are_counted(publications(trace, n));
    }
}

/// While a writer may write a buffer, nobody else gets anything through: the
/// sequence, the latest buffer and the message in it, and what was published in
/// both stay as they are, no other writer gets the writer lock, and no reader
/// the buffer.
pub proof fn law_writer_is_alone(s: MessageSystem, t: MessageSystem, i: int, idx: BufferIndex)
    requires
        s.inv(),
        s.step(t),
        0 <= i < s.actors.len(),
        s.actors[i].may_write(idx),
        t.actors[i].may_write(idx),
    ensures
        undisturbed(s, t),
        idx != t.region.latest(),
        t.region.data(t.region.latest()) == s.region.data(s.region.latest()),
        forall|j: int|
            0 <= j < t.actors.len() && j != i ==> !(#[trigger] t.actors[j]).owns()
                && !t.actors[j].holds(idx),
{
    let (mover, written) = lemma_whose_step(s, t);
    assert(s.actors[i].owns() && s.actor_inv(i));
    assert(undisturbed(s, t));
    assert(t.region.buffer(!idx) == s.region.buffer(!idx));
    law_step(s, t);
    assert(t.actors[i].owns() && t.actor_inv(i));
    assert forall|j: int| 0 <= j < t.actors.len() && j != i implies !(#[trigger]
    t.actors[j]).owns() && !t.actors[j].holds(idx) by {
        law_exclusion(t, i, j, idx);
    }
}

/// From the moment a writer is granted a buffer until it publishes or gives up,
/// the sequence stays the same, and so does the latest message, whatever the
/// others do.
pub proof fn law_granted_buffer_keeps_sequence(
    trace: Seq<MessageSystem>,
    i: int,
    idx: BufferIndex,
    from: int,
    to: int,
)
    requires
        is_run(trace),
        0 <= from <= to < trace.len(),
        0 <= i < trace[from].actors.len(),
        forall|n: int| from <= n <= to ==> (#[trigger] trace[n]).actors[i].may_write(idx),
    ensures
        undisturbed(trace[from], trace[to]),
        trace[to].region.data(trace[to].region.latest()) == trace[from].region.data(
            trace[from].region.latest(),
        ),
        trace[to].actors.len() == trace[from].actors.len(),
    decreases to - from,
{
    if from < to {
        law_granted_buffer_keeps_sequence(trace, i, idx, from, to - 1);
        law_every_run(trace, to - 1);
        assert(trace[to - 1 + 1] == trace[to]);
        assert(trace[to - 1].step(trace[to]));
        let step = lemma_whose_step(trace[to - 1], trace[to]);
        law_writer_is_alone(trace[to - 1], trace[to], i, idx);
    }
}

/// The step in which a writer is granted a buffer changes nothing in the memory,
/// and nobody reads or is about to read that buffer then.
pub proof fn law_grant_changes_nothing(s: MessageSystem, t: MessageSystem, i: int, idx: BufferIndex)
    requires
        s.inv(),
        s.step(t),
        0 <= i < s.actors.len(),
        !s.actors[i].may_write(idx),
        t.actors[i].may_write(idx),
    ensures
        t.region == s.region,
        undisturbed(s, t),
        t.region.of(idx).readers == 0,
        forall|j: int|
            0 <= j < t.actors.len() && j != i ==> !(#[trigger] t.actors[j]).owns()
                && !t.actors[j].holds(idx),
{
    let (mover, written) = lemma_whose_step(s, t);
    law_step(s, t);
    assert(t.actors[i].owns());
    assert forall|j: int| 0 <= j < t.actors.len() && j != i implies !(#[trigger]
    t.actors[j]).owns() && !t.actors[j].holds(idx) by {
        law_exclusion(t, i, j, idx);
    }
}

/// The user gets nothing: a writer that has found the message to be stopped, or
/// a reader that would have waited for data.
pub open spec fn gets_nothing(actor: Actor) -> bool {
    match actor {
        Actor::Acquiring(op) => op.phase is Unlock || op.phase == AcquirePhase::Finished(None),
        Actor::Publishing(op) => op.phase == PublishPhase::Unlock(None) || op.phase
            == PublishPhase::Finished(None),
        Actor::Reading(op) => op.block && op.phase is Nothing,
        _ => false,
    }
}

/// In every run a writer is refused, and a reader that waits gets nothing, only
/// if the message is stopped.
pub proof fn law_refused_only_if_stopped(trace: Seq<MessageSystem>, n: int, i: int)
    requires
        is_run(trace),
        0 <= n < trace.len(),
        0 <= i < trace[n].actors.len(),
        gets_nothing(trace[n].actors[i]),
    ensures
        trace[n].region.stopped(),
    decreases n,
{
    if n > 0 {
        law_every_run(trace, n - 1);
        assert(trace[n - 1 + 1] == trace[n]);
        let s = trace[n - 1];
        let t = trace[n];
        assert(s.step(t));
        let mover = lemma_whose_step(s, t).0;
        if gets_nothing(s.actors[i]) {
            law_refused_only_if_stopped(trace, n - 1, i);
            law_stop_is_final(s, t);
        } else {
            assert(mover == i);
        }
    }
}

} // verus!
