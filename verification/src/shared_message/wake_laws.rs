//! Who sleeps has a reason to, or somebody is about to wake it.
use crate::shared_message::laws::{
    law_initial, law_step, lemma_whose_step, swaps, Actor, MessageSystem,
};
use crate::shared_message::operation::{
    Action, Channel, Event, ReadPhase, ReaderChange, ReleasePhase, UpdatePhase,
};
use crate::shared_message::packed::{
    law_readers_round_trip, law_sequence_round_trip, ReadersStateCount, SequenceState,
};
use crate::shared_message::write_operation::{
    published, unconsumed, PublishPhase, StartPhase, StopOperation,
};
use crate::sync::condvar::{law_ticket, notified};
use vstd::prelude::*;

verus! {

/// A message with its users, and for each user how many notifications of a
/// condition variable there were since it took its last ticket of it, and
/// whether it is watchful: it took its ticket before it last looked whether the
/// message is consumed, and since that look the number of readers to wait for
/// was not lowered.
pub struct WakeSystem {
    pub system: MessageSystem,
    pub writer_since: Seq<nat>,
    pub done_since: Seq<nat>,
    pub watchful: Seq<bool>,
}

/// How many notifications there were since user `k` took its ticket, when there
/// were `since` before a step.
pub open spec fn next_since(
    before: MessageSystem,
    after: MessageSystem,
    channel: Channel,
    k: int,
    since: nat,
) -> nat {
    if before.actors[k].next_action() == Some(Action::LoadTicket(channel)) && after.actors[k]
        != before.actors[k] {
        0
    } else if after.region.condvar(channel) != before.region.condvar(channel) {
        since + 1
    } else {
        since
    }
}

/// Whether user `k` is watchful, when it was or was not before a step. On its
/// first turn a writer looks at the readers before it takes its ticket, on every
/// later turn after.
pub open spec fn next_watchful(
    before: MessageSystem,
    after: MessageSystem,
    k: int,
    watchful: bool,
) -> bool {
    if after.actors[k] != before.actors[k] && looks_late(before.actors[k]) {
        true
    } else if after.actors[k] != before.actors[k] && looked_early(before.actors[k]) {
        false
    } else {
        watchful && after.region.counts().target_consumed()
            >= before.region.counts().target_consumed()
    }
}

/// The writer has its ticket and looks next whether the message is consumed.
pub open spec fn looks_late(actor: Actor) -> bool {
    actor matches Actor::Starting(op) && op.phase is ConsumedReaders
}

/// The writer has looked whether the message is consumed and takes its ticket
/// next.
pub open spec fn looked_early(actor: Actor) -> bool {
    actor matches Actor::Starting(op) && op.phase is ConsumedTicket
}

/// Somebody notifies a condition variable next.
pub open spec fn notifies(system: MessageSystem, channel: Channel) -> bool {
    exists|j: int|
        0 <= j < system.actors.len() && #[trigger] about_to_notify(system.actors[j], channel)
}

/// It does so next, or right after the other one that a stop notifies first.
pub open spec fn about_to_notify(actor: Actor, channel: Channel) -> bool {
    ||| actor.next_action() == Some(Action::Notify(channel))
    ||| channel is ReaderDone && actor == Actor::Stopping(StopOperation::NotifyReaders)
}

impl WakeSystem {
    pub open spec fn initial(self) -> bool {
        &&& self.system.initial()
        &&& self.writer_since.len() == self.system.actors.len()
        &&& self.done_since.len() == self.system.actors.len()
        &&& self.watchful.len() == self.system.actors.len()
    }

    pub open spec fn step(self, after: WakeSystem) -> bool {
        &&& self.system.step(after.system)
        &&& after.writer_since.len() == self.writer_since.len()
        &&& after.done_since.len() == self.done_since.len()
        &&& after.watchful.len() == self.watchful.len()
        &&& forall|k: int|
            0 <= k < self.writer_since.len() ==> #[trigger] after.writer_since[k] == next_since(
                self.system,
                after.system,
                Channel::Writer,
                k,
                self.writer_since[k],
            )
        &&& forall|k: int|
            0 <= k < self.done_since.len() ==> #[trigger] after.done_since[k] == next_since(
                self.system,
                after.system,
                Channel::ReaderDone,
                k,
                self.done_since[k],
            )
        &&& forall|k: int|
            0 <= k < self.watchful.len() ==> #[trigger] after.watchful[k] == next_watchful(
                self.system,
                after.system,
                k,
                self.watchful[k],
            )
    }

    /// What every step keeps.
    pub open spec fn inv(self) -> bool {
        &&& self.system.inv()
        &&& self.writer_since.len() == self.system.actors.len()
        &&& self.done_since.len() == self.system.actors.len()
        &&& self.watchful.len() == self.system.actors.len()
        &&& forall|i: int| 0 <= i < self.system.actors.len() ==> #[trigger] self.user_inv(i)
    }

    pub open spec fn user_inv(self, i: int) -> bool {
        match self.system.actors[i] {
            Actor::Reading(op) => match op.phase {
                ReadPhase::Observe { ticket } => self.system.region.writer_condvar == notified(
                    ticket,
                    self.writer_since[i],
                ),
                ReadPhase::Sleep { ticket } => {
                    &&& self.system.region.writer_condvar == notified(ticket, self.writer_since[i])
                    &&& self.writer_since[i] == 0 ==> reader_provided(
                        self.system,
                        op.last_seen,
                        op.block,
                    )
                },
                _ => true,
            },
            Actor::Starting(op) => match op.phase {
                StartPhase::Clear => self.system.region.stopped(),
                StartPhase::ConsumedReaders { ticket } => self.system.region.reader_done_condvar
                    == notified(ticket, self.done_since[i]),
                StartPhase::ConsumedStopped { ticket } => {
                    &&& self.system.region.reader_done_condvar == notified(
                        ticket,
                        self.done_since[i],
                    )
                    &&& self.watchful[i] && self.done_since[i] == 0 ==> {
                        ||| unconsumed(self.system.region.readers_word)
                        ||| notifies(self.system, Channel::ReaderDone)
                    }
                },
                StartPhase::ConsumedKick { ticket } | StartPhase::ConsumedSleep { ticket } => {
                    &&& self.system.region.reader_done_condvar == notified(
                        ticket,
                        self.done_since[i],
                    )
                    &&& self.watchful[i] && self.done_since[i] == 0 ==> consumption_provided(
                        self.system,
                    )
                },
                StartPhase::ActiveReaders { ticket } => self.system.region.reader_done_condvar
                    == notified(ticket, self.done_since[i]),
                StartPhase::ActiveStopped { ticket } => {
                    &&& self.system.region.reader_done_condvar == notified(
                        ticket,
                        self.done_since[i],
                    )
                    &&& self.done_since[i] == 0 ==> {
                        ||| self.system.region.counts().active_readers > 0
                        ||| notifies(self.system, Channel::ReaderDone)
                    }
                },
                StartPhase::ActiveSleep { ticket } => {
                    &&& self.system.region.reader_done_condvar == notified(
                        ticket,
                        self.done_since[i],
                    )
                    &&& self.done_since[i] == 0 ==> writer_provided(self.system)
                },
                _ => true,
            },
            _ => true,
        }
    }
}

/// A reader may sleep: there is nothing for it, or it will be woken. The
/// exception is one that waits for a writer to finish which gave up because the
/// message was stopped.
pub open spec fn reader_provided(system: MessageSystem, last_seen: u64, block: bool) -> bool {
    ||| system.region.read_sleeps(last_seen, block)
    ||| notifies(system, Channel::Writer)
    ||| system.region.stopped() && system.region.sequence() != last_seen
}

/// A writer that waits for active readers may sleep: there are some, or it will
/// be woken.
pub open spec fn writer_provided(system: MessageSystem) -> bool {
    ||| system.region.counts().active_readers > 0 && !system.region.stopped()
    ||| notifies(system, Channel::ReaderDone)
}

/// A writer that waits until the message is consumed may sleep: it is not
/// consumed yet, or the writer will be woken.
pub open spec fn consumption_provided(system: MessageSystem) -> bool {
    ||| unconsumed(system.region.readers_word) && !system.region.stopped()
    ||| notifies(system, Channel::ReaderDone)
}

/// What an access of a user does to what others wait for.
pub open spec fn disturbs(s: MessageSystem, t: MessageSystem, i: int) -> bool {
    // The sequence word only changes so that readers are notified next, or so
    // that they wait longer, or because a writer gives up on a stop.
    &&& {
        ||| t.region.sequence_word == s.region.sequence_word
        ||| t.actors[i].next_action() == Some(Action::Notify(Channel::Writer)) && (t.region.stopped()
            == s.region.stopped() || t.actors[i] == Actor::Stopping(StopOperation::NotifyReaders))
        ||| t.region.state() == (SequenceState { writing_in_progress: true, ..s.region.state() })
        ||| s.actors[i] is Starting && s.actors[i]->Starting_0.phase is Clear && t.region.state()
            == (SequenceState { writing_in_progress: false, ..s.region.state() })
    }
    // The last active reader notifies next.
    &&& {
        ||| t.region.counts().active_readers >= s.region.counts().active_readers
        ||| t.actors[i].next_action() == Some(Action::Notify(Channel::ReaderDone))
    }
    // Who has consumed the message notifies next.
    &&& {
        ||| t.region.counts().data_consumed <= s.region.counts().data_consumed
        ||| t.actors[i].next_action() == Some(Action::Notify(Channel::ReaderDone))
    }
    // Who was about to notify has done so.
    &&& about_to_notify(s.actors[i], Channel::Writer) ==> t.region.writer_condvar
        != s.region.writer_condvar
    &&& about_to_notify(s.actors[i], Channel::ReaderDone) ==> t.region.reader_done_condvar
        != s.region.reader_done_condvar || about_to_notify(t.actors[i], Channel::ReaderDone)
    &&& t.region.writer_condvar == s.region.writer_condvar || t.region.writer_condvar == notified(
        s.region.writer_condvar,
        1,
    )
    &&& t.region.reader_done_condvar == s.region.reader_done_condvar
        || t.region.reader_done_condvar == notified(s.region.reader_done_condvar, 1)
}

proof fn lemma_acts_disturbs(s: MessageSystem, t: MessageSystem, i: int, event: Event)
    requires
        s.inv(),
        0 <= i < s.actors.len(),
        s.acts_with(t, i, event),
    ensures
        disturbs(s, t, i),
{
    assert(s.actor_inv(i));
    law_ticket(s.region.writer_condvar, 1);
    law_ticket(s.region.reader_done_condvar, 1);
    law_sequence_round_trip(published(s.region.state()));
    law_sequence_round_trip(SequenceState { writing_in_progress: true, ..s.region.state() });
    law_sequence_round_trip(SequenceState { writing_in_progress: false, ..s.region.state() });
    law_sequence_round_trip(SequenceState { stopped: true, ..s.region.state() });
    match s.actors[i] {
        Actor::Reading(op) => match op.phase {
            ReadPhase::Register { update, .. } => lemma_swapped(update, ReaderChange::Register),
            ReadPhase::Withdraw { update } => lemma_swapped(update, ReaderChange::Withdraw),
            _ => {},
        },
        Actor::Releasing(op) => match op.phase {
            ReleasePhase::Update(update) => lemma_swapped(update, ReaderChange::Release),
            _ => {},
        },
        Actor::Publishing(op) => match op.phase {
            PublishPhase::Reset(update) => lemma_swapped(update, ReaderChange::ResetConsumed),
            _ => {},
        },
        Actor::Updating(op) => {
            if swaps(op.phase, op.change) {
                lemma_swapped(op.phase, op.change);
            }
        },
        _ => {},
    }
}

/// The counters that a change under way swaps in are what they are read as.
proof fn lemma_swapped(update: UpdatePhase, change: ReaderChange)
    requires
        swaps(update, change),
    ensures
        update matches UpdatePhase::Swap { expected, new } ==> Some(
            ReadersStateCount::unpacked(new),
        ) == ReadersStateCount::unpacked(expected).changed(change),
{
    if let UpdatePhase::Swap { expected, new } = update {
        law_readers_round_trip(ReadersStateCount::unpacked(expected).changed(change)->Some_0);
    }
}

/// On zeroed memory that nobody uses the invariant holds.
pub proof fn law_wake_initial(w: WakeSystem)
    requires
        w.initial(),
    ensures
        w.inv(),
{
    law_initial(w.system);
}

/// Every step of every user keeps the invariant.
pub proof fn law_wake_step(w: WakeSystem, x: WakeSystem)
    requires
        w.inv(),
        w.step(x),
    ensures
        x.inv(),
{
    law_step(w.system, x.system);
    let i = lemma_mover(w, x);
    assert forall|k: int| 0 <= k < x.system.actors.len() implies #[trigger] x.user_inv(k) by {
        if k != i {
            assert(w.user_inv(k) && w.user_inv(i));
            lemma_others_keep(w, x, i, k);
        }
    }
}

/// Whose step it was.
proof fn lemma_mover(w: WakeSystem, x: WakeSystem) -> (i: int)
    requires
        w.inv(),
        w.step(x),
    ensures
        0 <= i < w.system.actors.len(),
        x.system.actors == w.system.actors.update(i, x.system.actors[i]),
        disturbs(w.system, x.system, i),
        x.user_inv(i),
{
    let s = w.system;
    let t = x.system;
    let i = lemma_whose_step(s, t);
    if s.acts(t, i) {
        let event = choose|event: Event| #[trigger] s.acts_with(t, i, event);
        lemma_acts_disturbs(s, t, i, event);
        assert(t.actors =~= s.actors.update(i, t.actors[i]));
        lemma_actor_keeps(w, x, i, event);
    } else {
        lemma_quiet_step(w, x, i);
    }
    i
}

/// A step between accesses disturbs nobody.
proof fn lemma_quiet_step(w: WakeSystem, x: WakeSystem, i: int)
    requires
        0 <= i < w.system.actors.len(),
        ({
            ||| w.system.begins(x.system, i)
            ||| w.system.writes(x.system, i)
            ||| w.system.proceeds(x.system, i)
            ||| w.system.abandons(x.system, i)
        }),
    ensures
        x.system.actors == w.system.actors.update(i, x.system.actors[i]),
        disturbs(w.system, x.system, i),
        x.user_inv(i),
{
    let s = w.system;
    let t = x.system;
    assert(t.actors =~= s.actors.update(i, t.actors[i]));
    law_ticket(s.region.writer_condvar, 1);
    law_ticket(s.region.reader_done_condvar, 1);
}

/// A user that made an access keeps its own part of the invariant.
proof fn lemma_actor_keeps(w: WakeSystem, x: WakeSystem, i: int, event: Event)
    requires
        w.inv(),
        w.step(x),
        0 <= i < w.system.actors.len(),
        w.system.acts_with(x.system, i, event),
        disturbs(w.system, x.system, i),
    ensures
        x.user_inv(i),
{
    let s = w.system;
    let t = x.system;
    assert(w.user_inv(i));
    assert(s.actor_inv(i));
    law_ticket(s.region.writer_condvar, 1);
    law_ticket(s.region.reader_done_condvar, 1);
    lemma_notifiers_keep(s, t, i);
}

/// A user that made no access keeps its part of the invariant.
proof fn lemma_others_keep(w: WakeSystem, x: WakeSystem, i: int, k: int)
    requires
        w.step(x),
        0 <= i < w.system.actors.len(),
        0 <= k < w.system.actors.len(),
        w.writer_since.len() == w.system.actors.len(),
        w.done_since.len() == w.system.actors.len(),
        w.watchful.len() == w.system.actors.len(),
        k != i,
        x.system.actors == w.system.actors.update(i, x.system.actors[i]),
        disturbs(w.system, x.system, i),
        w.user_inv(i),
        w.user_inv(k),
    ensures
        x.user_inv(k),
{
    let s = w.system;
    let t = x.system;
    assert(t.actors[k] == s.actors[k]);
    law_ticket(s.region.writer_condvar, 1);
    law_ticket(s.region.reader_done_condvar, 1);
    lemma_notifiers_keep(s, t, i);
    match s.actors[k] {
        Actor::Reading(op) => match op.phase {
            ReadPhase::Observe { ticket } => lemma_counts_on(ticket, w.writer_since[k]),
            ReadPhase::Sleep { ticket } => lemma_counts_on(ticket, w.writer_since[k]),
            _ => {},
        },
        Actor::Starting(op) => match op.phase {
            StartPhase::ConsumedReaders { ticket } => lemma_counts_on(ticket, w.done_since[k]),
            StartPhase::ConsumedStopped { ticket } => lemma_counts_on(ticket, w.done_since[k]),
            StartPhase::ConsumedKick { ticket } => lemma_counts_on(ticket, w.done_since[k]),
            StartPhase::ConsumedSleep { ticket } => lemma_counts_on(ticket, w.done_since[k]),
            StartPhase::ActiveReaders { ticket } => lemma_counts_on(ticket, w.done_since[k]),
            StartPhase::ActiveStopped { ticket } => lemma_counts_on(ticket, w.done_since[k]),
            StartPhase::ActiveSleep { ticket } => lemma_counts_on(ticket, w.done_since[k]),
            _ => {},
        },
        _ => {},
    }
}

proof fn lemma_counts_on(ticket: u32, since: nat)
    ensures
        notified(notified(ticket, since), 1) == notified(ticket, since + 1),
{
}

/// Who is about to notify stays so until it has notified, and who starts to is
/// one more.
proof fn lemma_notifiers_keep(s: MessageSystem, t: MessageSystem, i: int)
    requires
        0 <= i < s.actors.len(),
        t.actors == s.actors.update(i, t.actors[i]),
        disturbs(s, t, i),
    ensures
        notifies(s, Channel::Writer) && t.region.writer_condvar == s.region.writer_condvar
            ==> notifies(t, Channel::Writer),
        notifies(s, Channel::ReaderDone) && t.region.reader_done_condvar
            == s.region.reader_done_condvar ==> notifies(t, Channel::ReaderDone),
        about_to_notify(t.actors[i], Channel::Writer) ==> notifies(t, Channel::Writer),
        about_to_notify(t.actors[i], Channel::ReaderDone) ==> notifies(t, Channel::ReaderDone),
{
    if notifies(s, Channel::Writer) {
        let j = choose|j: int|
            0 <= j < s.actors.len() && #[trigger] about_to_notify(s.actors[j], Channel::Writer);
        if j != i {
            assert(about_to_notify(t.actors[j], Channel::Writer));
        }
    }
    if notifies(s, Channel::ReaderDone) {
        let j = choose|j: int|
            0 <= j < s.actors.len() && #[trigger] about_to_notify(s.actors[j], Channel::ReaderDone);
        if j != i {
            assert(about_to_notify(t.actors[j], Channel::ReaderDone));
        }
    }
}

/// A reader that sleeps on the present value of its condition variable has
/// nothing to read, or somebody is about to wake it: unless the writer that it
/// waits for gave up because the message was stopped, or it slept through as
/// many notifications as the counter can hold.
pub proof fn law_no_reader_forgotten(w: WakeSystem, i: int)
    requires
        w.inv(),
        0 <= i < w.system.actors.len(),
        w.writer_since[i] < 0x1_0000_0000,
        match w.system.actors[i] {
            Actor::Reading(op) => match op.phase {
                ReadPhase::Sleep { ticket } => ticket == w.system.region.writer_condvar && (
                !w.system.region.stopped() || w.system.region.sequence() == op.last_seen),
                _ => false,
            },
            _ => false,
        },
    ensures
        ({
            let op = w.system.actors[i]->Reading_0;
            ||| w.system.region.read_sleeps(op.last_seen, op.block)
            ||| notifies(w.system, Channel::Writer)
        }),
{
    assert(w.user_inv(i));
    if w.writer_since[i] > 0 {
        law_ticket(w.system.region.writer_condvar, w.writer_since[i]);
    }
}

/// A writer that sleeps until readers have given the message back waits for
/// one that has not, or somebody is about to wake it.
pub proof fn law_no_writer_forgotten(w: WakeSystem, i: int)
    requires
        w.inv(),
        0 <= i < w.system.actors.len(),
        w.done_since[i] < 0x1_0000_0000,
        match w.system.actors[i] {
            Actor::Starting(op) => match op.phase {
                StartPhase::ActiveSleep { ticket } => ticket
                    == w.system.region.reader_done_condvar,
                _ => false,
            },
            _ => false,
        },
    ensures
        writer_provided(w.system),
{
    assert(w.user_inv(i));
    if w.done_since[i] > 0 {
        law_ticket(w.system.region.reader_done_condvar, w.done_since[i]);
    }
}

/// A watchful writer that sleeps until the message is consumed waits for a
/// reader that has not consumed it, or somebody is about to wake it: unless it
/// slept through as many notifications as the counter can hold.
///
/// A writer is watchful from its second turn on, as long as nobody lowers the
/// number of readers to wait for, which notifies nobody. On its first turn it
/// is not: a reader that consumes the message between the look at the readers
/// and the ticket notifies too early, and the writer sleeps until the next
/// notification.
pub proof fn law_no_consumption_forgotten(w: WakeSystem, i: int)
    requires
        w.inv(),
        0 <= i < w.system.actors.len(),
        w.done_since[i] < 0x1_0000_0000,
        w.watchful[i],
        match w.system.actors[i] {
            Actor::Starting(op) => match op.phase {
                StartPhase::ConsumedSleep { ticket } => ticket
                    == w.system.region.reader_done_condvar,
                _ => false,
            },
            _ => false,
        },
    ensures
        consumption_provided(w.system),
{
    assert(w.user_inv(i));
    if w.done_since[i] > 0 {
        law_ticket(w.system.region.reader_done_condvar, w.done_since[i]);
    }
}

/// A writer that goes to sleep for a second time, or a later one, is watchful:
/// with the look that sends it there it becomes so, and it stays so in every
/// step that does not lower the number of readers to wait for.
pub proof fn law_later_turns_are_watchful(w: WakeSystem, x: WakeSystem, i: int)
    requires
        w.inv(),
        w.step(x),
        0 <= i < w.system.actors.len(),
        looks_late(w.system.actors[i]) && x.system.actors[i] != w.system.actors[i] || (w.watchful[i]
            && x.system.region.counts().target_consumed()
            >= w.system.region.counts().target_consumed()),
        !looked_early(w.system.actors[i]),
    ensures
        x.watchful[i],
{
    assert(x.watchful[i] == next_watchful(w.system, x.system, i, w.watchful[i]));
}

} // verus!
