//! What a reader finds, however the accesses of readers and writers interleave
//! and whichever writes are given up.
use crate::counted_message::laws::{
    is_run, law_every_run, law_stop_is_final, lemma_whose_step, MessageSystem,
};
use crate::counted_message::publication_laws::{gets_nothing, law_refused_only_if_stopped};
use crate::counted_message::region::Event;
use crate::shared_message::packed::{law_sequence_round_trip, SequenceState};
use vstd::prelude::*;

verus! {

/// The mark of a write is taken back while the payload is not what was last
/// published.
pub open spec fn uncovers(before: MessageSystem, after: MessageSystem) -> bool {
    before.region.writing() && !after.region.writing() && after.region.data() != after.published
}

/// Unless the message is marked as being written, the payload is what was last
/// published, and so it is for whoever holds the message.
pub open spec fn sound(s: MessageSystem) -> bool {
    &&& !s.region.writing() ==> s.region.data() == s.published
    &&& forall|i: int|
        0 <= i < s.actors.len() && (#[trigger] s.actors[i].holds()) is Some ==> s.region.data()
            == s.published
}

/// Every step that does not uncover an unpublished payload keeps the message
/// sound, also one in which a writer gives up what it has written.
pub proof fn law_sound_step(s: MessageSystem, t: MessageSystem)
    requires
        s.inv(),
        s.step(t),
        sound(s),
        !uncovers(s, t),
    ensures
        sound(t),
{
    let i = lemma_whose_step(s, t);
    assert(s.actor_inv(i));
    assert(!s.actors[i].excludes() ==> t.region.data() == s.region.data() && t.published
        == s.published) by {
        if !s.actors[i].excludes() {
            lemma_quiet_step(s, t, i);
        }
    }
    assert(t.actors.len() == s.actors.len() && forall|k: int|
        0 <= k < s.actors.len() && k != i ==> t.actors[k] == s.actors[k]);
    assert forall|k: int|
        0 <= k < t.actors.len() && (#[trigger] t.actors[k].holds()) is Some implies t.region.data()
        == t.published by {
        if k != i {
            assert(t.actors[k] == s.actors[k]);
            assert(s.actors[k].holds() is Some && !s.actors[i].excludes());
        } else if s.actors[i].holds() is None {
            assert(s.acts(t, i));
            let event = choose|event: Event| #[trigger] s.acts_with(t, i, event);
            lemma_new_holder(s, t, i, event);
        }
    }
}

/// A step of a user that neither writes nor publishes keeps the payload.
proof fn lemma_quiet_step(s: MessageSystem, t: MessageSystem, i: int)
    requires
        s.inv(),
        0 <= i < s.actors.len(),
        ({
            ||| s.begins(t, i)
            ||| s.governs(t, i)
            ||| s.acts(t, i)
            ||| s.writes(t, i)
            ||| s.proceeds(t, i)
            ||| s.abandons(t, i)
        }),
        !s.actors[i].excludes(),
    ensures
        t.region.data() == s.region.data(),
        t.published == s.published,
{
    if s.acts(t, i) {
        let event = choose|event: Event| #[trigger] s.acts_with(t, i, event);
        lemma_quiet_access(s, t, i, event);
    }
}

proof fn lemma_quiet_access(s: MessageSystem, t: MessageSystem, i: int, event: Event)
    requires
        s.inv(),
        0 <= i < s.actors.len(),
        s.acts_with(t, i, event),
        !s.actors[i].excludes(),
    ensures
        t.region.data() == s.region.data(),
        t.published == s.published,
{
}

/// Who gets to hold the message has found no mark of a write.
proof fn lemma_new_holder(s: MessageSystem, t: MessageSystem, i: int, event: Event)
    requires
        s.inv(),
        0 <= i < s.actors.len(),
        s.acts_with(t, i, event),
        s.actors[i].holds() is None,
        t.actors[i].holds() is Some,
    ensures
        !s.region.writing(),
        !s.actors[i].excludes(),
{
    assert(t.actors[i] == s.actors[i].after(event));
}

/// In every run in which no unpublished payload is uncovered, a reader that
/// holds the message finds what was last published under its sequence, whatever
/// writes are given up, and also once the message is stopped.
pub proof fn law_reader_finds_published_in_every_run(trace: Seq<MessageSystem>, n: int)
    requires
        is_run(trace, false),
        0 <= n < trace.len(),
        forall|m: int| 0 <= m < n ==> !uncovers(#[trigger] trace[m], trace[m + 1]),
    ensures
        sound(trace[n]),
        forall|i: int|
            0 <= i < trace[n].actors.len() && (#[trigger] trace[n].actors[i].holds()) is Some
                ==> trace[n].region.data() == trace[n].published && trace[n].actors[i].holds()
                == Some(trace[n].region.sequence()),
    decreases n,
{
    law_every_run(trace, false, n);
    if n == 0 {
        assert(trace[0].region.data() =~= trace[0].published);
    } else {
        law_reader_finds_published_in_every_run(trace, n - 1);
        law_every_run(trace, false, n - 1);
        assert(!uncovers(trace[n - 1], trace[n - 1 + 1]));
        assert(trace[n - 1].step(trace[n]));
        law_sound_step(trace[n - 1], trace[n]);
    }
    assert forall|i: int|
        0 <= i < trace[n].actors.len() && (#[trigger] trace[n].actors[i].holds())
            is Some implies trace[n].region.data() == trace[n].published
        && trace[n].actors[i].holds() == Some(trace[n].region.sequence()) by {
        assert(trace[n].actor_inv(i));
    }
}

/// An unpublished payload is uncovered only once the message is stopped: by a
/// writer that marked the message, found it to be stopped while it waited for
/// readers, and takes its mark back, after another writer gave up what it had
/// written.
pub proof fn law_uncovered_only_after_a_stop(trace: Seq<MessageSystem>, n: int)
    requires
        is_run(trace, false),
        0 <= n < trace.len() - 1,
        uncovers(trace[n], trace[n + 1]),
    ensures
        trace[n].region.stopped(),
        trace[n + 1].region.stopped(),
{
    let s = trace[n];
    let t = trace[n + 1];
    law_every_run(trace, false, n);
    assert(s.step(t));
    let i = lemma_whose_step(s, t);
    assert(s.actor_inv(i));
    assert(gets_nothing(s.actors[i])) by {
        law_sequence_round_trip(SequenceState { stopped: true, ..s.region.state() });
        if s.acts(t, i) {
            let event = choose|event: Event| #[trigger] s.acts_with(t, i, event);
            lemma_uncovering(s, t, i, event);
        }
    }
    law_refused_only_if_stopped(trace, false, n, i);
    law_stop_is_final(s, t);
}

proof fn lemma_uncovering(s: MessageSystem, t: MessageSystem, i: int, event: Event)
    requires
        s.inv(),
        0 <= i < s.actors.len(),
        s.acts_with(t, i, event),
        uncovers(s, t),
    ensures
        gets_nothing(s.actors[i]),
{
    assert(s.actor_inv(i));
    law_sequence_round_trip(SequenceState { stopped: true, ..s.region.state() });
    law_sequence_round_trip(SequenceState { writing_in_progress: true, ..s.region.state() });
}

/// What a writer wrote and gave up is never read before a stop: in every run,
/// whatever its users do, who holds a message that is not stopped finds what was
/// last published, under its sequence.
pub proof fn law_abandoned_write_is_never_read(trace: Seq<MessageSystem>, n: int)
    requires
        is_run(trace, false),
        0 <= n < trace.len(),
    ensures
        forall|i: int|
            0 <= i < trace[n].actors.len() && (#[trigger] trace[n].actors[i].holds()) is Some
                && !trace[n].region.stopped() ==> trace[n].region.data() == trace[n].published
                && trace[n].actors[i].holds() == Some(trace[n].region.sequence()),
{
    if !trace[n].region.stopped() {
        assert forall|m: int| 0 <= m < n implies !uncovers(#[trigger] trace[m], trace[m + 1]) by {
            if uncovers(trace[m], trace[m + 1]) {
                law_uncovered_only_after_a_stop(trace, m);
                lemma_stays_stopped(trace, m, n);
            }
        }
        law_reader_finds_published_in_every_run(trace, n);
    }
}

/// Once stopped, a message is stopped for the rest of the run.
proof fn lemma_stays_stopped(trace: Seq<MessageSystem>, from: int, to: int)
    requires
        is_run(trace, false),
        0 <= from <= to < trace.len(),
        trace[from].region.stopped(),
    ensures
        trace[to].region.stopped(),
    decreases to - from,
{
    if from < to {
        lemma_stays_stopped(trace, from, to - 1);
        law_every_run(trace, false, to - 1);
        assert(trace[to - 1 + 1] == trace[to]);
        assert(trace[to - 1].step(trace[to]));
        law_stop_is_final(trace[to - 1], trace[to]);
    }
}

} // verus!
