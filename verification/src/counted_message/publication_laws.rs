//! How the sequence of a message counts its publications, and what a
//! writer may rely on while it writes, however the accesses of its readers and
//! writers interleave.
use crate::counted_message::laws::{
    is_run, law_every_run, law_exclusion, law_step, law_stop_is_final, lemma_whose_step, Actor,
    MessageSystem,
};
use crate::counted_message::operation::{ReadPhase, StartPhase};
use crate::counted_message::region::Event;
use crate::shared_message::packed::{
    advanced, law_first_messages_are_counted, law_flag_masks, law_sequence_after,
    law_sequence_round_trip, law_sequence_word_round_trip, sequence_after, SequenceState,
    SEQUENCE_LIMIT,
};
use crate::shared_message::write_operation::published;
use vstd::prelude::*;

verus! {

/// In the step from one state to the next a user makes its message the current
/// one.
pub open spec fn publishes_by(before: MessageSystem, after: MessageSystem, i: int) -> bool {
    !before.actors[i].announces() && after.actors[i].announces()
}

/// In the step from one state to the next some message becomes the current one.
pub open spec fn publishes(before: MessageSystem, after: MessageSystem) -> bool {
    exists|i: int| 0 <= i < before.actors.len() && #[trigger] publishes_by(before, after, i)
}

/// How many of the first `steps` steps of a run make a message the current one.
pub open spec fn publications(trace: Seq<MessageSystem>, steps: int) -> nat
    decreases steps,
{
    if steps <= 0 {
        0
    } else if publishes(trace[steps - 1], trace[steps]) {
        publications(trace, steps - 1) + 1
    } else {
        publications(trace, steps - 1)
    }
}

/// Whose step it was, and what it does to the message.
proof fn lemma_step(s: MessageSystem, t: MessageSystem) -> (i: int)
    requires
        s.inv(),
        s.step(t),
    ensures
        0 <= i < s.actors.len(),
        t.actors == s.actors.update(i, t.actors[i]),
        t.region.payload.len() == s.region.payload.len(),
        t.region.sequence() == if publishes_by(s, t, i) {
            sequence_after(s.region.sequence())
        } else {
            s.region.sequence()
        },
        !s.actors[i].owns() || t.actors[i].may_write() ==> !publishes_by(s, t, i) && t.region.size
            == s.region.size && t.published == s.published,
{
    let i = lemma_whose_step(s, t);
    law_sequence_round_trip(SequenceState { stopped: true, ..s.region.state() });
    if s.acts(t, i) {
        let event = choose|event: Event| #[trigger] s.acts_with(t, i, event);
        lemma_access(s, t, i, event);
    }
    assert(t.actors =~= s.actors.update(i, t.actors[i]));
    i
}

/// What one access does to the message.
proof fn lemma_access(s: MessageSystem, t: MessageSystem, i: int, event: Event)
    requires
        s.inv(),
        0 <= i < s.actors.len(),
        s.acts_with(t, i, event),
    ensures
        t.region.payload.len() == s.region.payload.len(),
        t.region.sequence() == if publishes_by(s, t, i) {
            sequence_after(s.region.sequence())
        } else {
            s.region.sequence()
        },
        !s.actors[i].owns() || t.actors[i].may_write() ==> !publishes_by(s, t, i) && t.region.size
            == s.region.size && t.published == s.published,
{
    assert(s.actor_inv(i));
    law_sequence_after(s.region.sequence());
    law_sequence_round_trip(published(s.region.state()));
    law_sequence_round_trip(SequenceState { writing_in_progress: true, ..s.region.state() });
    law_sequence_round_trip(SequenceState { writing_in_progress: false, ..s.region.state() });
    law_sequence_round_trip(SequenceState { stopped: true, ..s.region.state() });
}

/// A step that makes a message the current one gives it the next sequence, and
/// no other step changes the sequence.
pub proof fn law_each_publication_counts(s: MessageSystem, t: MessageSystem)
    requires
        s.inv(),
        s.step(t),
    ensures
        t.region.sequence() == if publishes(s, t) {
            sequence_after(s.region.sequence())
        } else {
            s.region.sequence()
        },
{
    let i = lemma_step(s, t);
    assert forall|j: int| 0 <= j < s.actors.len() && #[trigger] publishes_by(s, t, j) implies j
        == i by {
        if j != i {
            assert(t.actors[j] == s.actors[j]);
        }
    }
}

/// In every run, whatever its users do and however their accesses interleave,
/// the sequence counts the publications: none is passed over and none comes
/// twice. Until the numbering starts over, the sequence is their number.
pub proof fn law_sequence_counts_publications(trace: Seq<MessageSystem>, orderly: bool, n: int)
    requires
        is_run(trace, orderly),
        0 <= n < trace.len(),
    ensures
        trace[n].region.sequence() == advanced(0, publications(trace, n)),
        publications(trace, n) < SEQUENCE_LIMIT ==> trace[n].region.sequence() == publications(
            trace,
            n,
        ),
    decreases n,
{
    if n == 0 {
        law_sequence_word_round_trip(0);
        law_flag_masks(0);
    } else {
        law_sequence_counts_publications(trace, orderly, n - 1);
        law_every_run(trace, orderly, n - 1);
        assert(trace[n - 1 + 1] == trace[n]);
        assert(trace[n - 1].step(trace[n]));
        law_each_publication_counts(trace[n - 1], trace[n]);
    }
    if publications(trace, n) < SEQUENCE_LIMIT {
        law_first_messages_are_counted(publications(trace, n));
    }
}

/// While a writer may write, nobody else gets anything through: the sequence,
/// the size of the message, the capacity and what was last published stay as
/// they are, no other writer gets the writer lock, and no reader the message.
pub proof fn law_writer_is_alone(s: MessageSystem, t: MessageSystem, i: int)
    requires
        s.inv(),
        s.step(t),
        0 <= i < s.actors.len(),
        s.actors[i].may_write(),
        t.actors[i].may_write(),
    ensures
        t.region.sequence() == s.region.sequence(),
        t.region.size == s.region.size,
        t.region.payload.len() == s.region.payload.len(),
        t.published == s.published,
        forall|j: int|
            0 <= j < t.actors.len() && j != i ==> !(#[trigger] t.actors[j]).owns()
                && t.actors[j].holds() is None,
{
    let mover = lemma_step(s, t);
    assert(mover != i ==> !s.actors[mover].owns()) by {
        assert(s.actors[i].owns());
    }
    law_step(s, t);
    assert forall|j: int| 0 <= j < t.actors.len() && j != i implies !(#[trigger]
    t.actors[j]).owns() && t.actors[j].holds() is None by {
        assert(t.actors[i].owns());
        law_exclusion(t, i, j);
    }
}

/// From the moment a writer is granted a message until it publishes or gives up,
/// the sequence stays the same, whatever the others do.
pub proof fn law_granted_message_keeps_sequence(
    trace: Seq<MessageSystem>,
    orderly: bool,
    i: int,
    from: int,
    to: int,
)
    requires
        is_run(trace, orderly),
        0 <= from <= to < trace.len(),
        0 <= i < trace[from].actors.len(),
        forall|n: int| from <= n <= to ==> (#[trigger] trace[n]).actors[i].may_write(),
    ensures
        trace[to].region.sequence() == trace[from].region.sequence(),
        trace[to].region.size == trace[from].region.size,
        trace[to].region.payload.len() == trace[from].region.payload.len(),
        trace[to].published == trace[from].published,
        trace[to].actors.len() == trace[from].actors.len(),
    decreases to - from,
{
    if from < to {
        law_granted_message_keeps_sequence(trace, orderly, i, from, to - 1);
        law_every_run(trace, orderly, to - 1);
        assert(trace[to - 1 + 1] == trace[to]);
        assert(trace[to - 1].step(trace[to]));
        let mover = lemma_step(trace[to - 1], trace[to]);
        law_writer_is_alone(trace[to - 1], trace[to], i);
    }
}

/// The step in which a writer is granted the payload changes nothing in the
/// memory, and nobody reads or is about to read it then.
pub proof fn law_grant_changes_nothing(s: MessageSystem, t: MessageSystem, i: int)
    requires
        s.inv(),
        s.step(t),
        0 <= i < s.actors.len(),
        !s.actors[i].may_write(),
        t.actors[i].may_write(),
    ensures
        t.region == s.region,
        t.published == s.published,
        t.region.active == 0,
        forall|j: int|
            0 <= j < t.actors.len() && j != i ==> !(#[trigger] t.actors[j]).owns()
                && t.actors[j].holds() is None,
{
    let mover = lemma_step(s, t);
    law_step(s, t);
    assert(t.actors[i].owns());
    assert forall|j: int| 0 <= j < t.actors.len() && j != i implies !(#[trigger]
    t.actors[j]).owns() && t.actors[j].holds() is None by {
        law_exclusion(t, i, j);
    }
}

/// The user gets nothing: a writer that has found the message to be stopped, or
/// a reader that would have waited for data.
pub open spec fn gets_nothing(actor: Actor) -> bool {
    match actor {
        Actor::Starting(op) => op.phase is Clear || op.phase is Unlock || op.phase
            == StartPhase::Finished(false),
        Actor::Publishing(op) => actor.refused(),
        Actor::Reading(op) => op.block && op.phase == ReadPhase::Finished(None),
        _ => false,
    }
}

/// In every run a writer is refused, and a reader that waits gets nothing, only
/// if the message is stopped.
pub proof fn law_refused_only_if_stopped(trace: Seq<MessageSystem>, orderly: bool, n: int, i: int)
    requires
        is_run(trace, orderly),
        0 <= n < trace.len(),
        0 <= i < trace[n].actors.len(),
        gets_nothing(trace[n].actors[i]),
    ensures
        trace[n].region.stopped(),
    decreases n,
{
    if n > 0 {
        law_every_run(trace, orderly, n - 1);
        assert(trace[n - 1 + 1] == trace[n]);
        let s = trace[n - 1];
        let t = trace[n];
        assert(s.step(t));
        let mover = lemma_step(s, t);
        if gets_nothing(s.actors[i]) {
            law_refused_only_if_stopped(trace, orderly, n - 1, i);
            law_stop_is_final(s, t);
        } else {
            assert(mover == i);
        }
    }
}

} // verus!
