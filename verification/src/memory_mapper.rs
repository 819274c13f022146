//! How a shared memory object is made, mapped and given back. What is done is
//! decided here, one system call at a time; the calls are the caller's.
use vstd::prelude::*;

verus! {

/// The error number for memory that does not suit what is to lie in it.
pub const INVALID: i32 = 22;

/// The fixed part of what lies in the memory, with the payload behind it.
#[derive(Clone, Copy, PartialEq, Eq, Structural, Debug)]
pub struct Layout {
    pub header_size: usize,
    pub alignment: usize,
}

impl Layout {
    /// How many bytes of payload there are in `memory_size` bytes at `address`;
    /// `None` where the address does not suit, or nothing is left for it.
    pub fn payload_size(&self, address: usize, memory_size: usize) -> (size: Option<usize>)
        requires
            self.alignment > 0,
        ensures
            size == (if address % self.alignment != 0 || memory_size <= self.header_size {
                None
            } else {
                Some((memory_size - self.header_size) as usize)
            }),
    {
        if address % self.alignment != 0 {
            return None;
        }
        let payload_size: usize = self.buffer_space(memory_size);
        if payload_size == 0 {
            return None;
        }
        Some(payload_size)
    }

    /// How many of `memory_size` bytes come after the header.
    pub fn buffer_space(&self, memory_size: usize) -> (space: usize)
        ensures
            space == (if memory_size > self.header_size {
                memory_size - self.header_size
            } else {
                0
            }),
    {
        memory_size.saturating_sub(self.header_size)
    }
}

/// What is done next to set a mapping up.
#[derive(Clone, Copy, PartialEq, Eq, Structural, Debug)]
pub enum SetupAction {
    /// Open the object for reading and writing; with `create` make it if there
    /// is none, and empty it if there is one.
    Open { create: bool },
    /// Give the object a size.
    Resize { size: usize },
    /// Ask for the size of the object.
    Stat,
    /// Map the whole object, shared with others.
    MapMemory { size: usize },
    /// Advise to use huge pages.
    Advise { size: usize },
    /// Tell that the advice failed, which does no harm.
    ReportAdvice { errno: i32 },
    /// Fill the memory with zeros.
    Zero { size: usize },
    /// See whether the memory suits what is to lie in it.
    Cast { size: usize },
    /// Remove the name of the object.
    Unlink,
}

/// What came of an action.
#[derive(Clone, Copy, PartialEq, Eq, Structural, Debug)]
pub enum SetupEvent {
    Done,
    Failed(i32),
    Size(usize),
    Address(usize),
    Cast(bool),
}

#[derive(Clone, Copy, PartialEq, Eq, Structural, Debug)]
pub enum SetupPhase {
    Open,
    Resize { size: usize },
    Stat,
    MapMemory { size: usize },
    Advise { size: usize },
    ReportAdvice { size: usize, errno: i32 },
    Zero { size: usize },
    Cast { size: usize },
    Unlink { errno: i32 },
    Mapped { size: usize },
    Failed { errno: i32 },
}

/// Sets a mapping up: of a new object with the size `create`, or of one that
/// is there.
#[derive(Clone, Copy, PartialEq, Eq, Structural, Debug)]
pub struct Setup {
    pub create: Option<usize>,
    pub phase: SetupPhase,
}

impl Setup {
    pub open spec fn next_action(self) -> Option<SetupAction> {
        match self.phase {
            SetupPhase::Open => Some(SetupAction::Open { create: self.create is Some }),
            SetupPhase::Resize { size } => Some(SetupAction::Resize { size }),
            SetupPhase::Stat => Some(SetupAction::Stat),
            SetupPhase::MapMemory { size } => Some(SetupAction::MapMemory { size }),
            SetupPhase::Advise { size } => Some(SetupAction::Advise { size }),
            SetupPhase::ReportAdvice { errno, .. } => Some(SetupAction::ReportAdvice { errno }),
            SetupPhase::Zero { size } => Some(SetupAction::Zero { size }),
            SetupPhase::Cast { size } => Some(SetupAction::Cast { size }),
            SetupPhase::Unlink { .. } => Some(SetupAction::Unlink),
            SetupPhase::Mapped { .. } | SetupPhase::Failed { .. } => None,
        }
    }

    /// Where an error leads once the object is open: one that was made goes.
    pub open spec fn failing(self, errno: i32) -> SetupPhase {
        if self.create is Some {
            SetupPhase::Unlink { errno }
        } else {
            SetupPhase::Failed { errno }
        }
    }

    /// What comes when the memory is mapped: only what was made is zeroed.
    pub open spec fn advised(self, size: usize) -> SetupPhase {
        if self.create is Some {
            SetupPhase::Zero { size }
        } else {
            SetupPhase::Cast { size }
        }
    }

    /// What comes after an event. One that does not answer the action changes
    /// nothing.
    pub open spec fn after(self, event: SetupEvent) -> Setup {
        let phase = match (self.phase, event) {
            (SetupPhase::Open, SetupEvent::Failed(errno)) => SetupPhase::Failed { errno },
            (SetupPhase::Open, SetupEvent::Done) => match self.create {
                Some(size) => SetupPhase::Resize { size },
                None => SetupPhase::Stat,
            },
            (SetupPhase::Resize { .. }, SetupEvent::Failed(errno)) => SetupPhase::Unlink { errno },
            (SetupPhase::Resize { .. }, SetupEvent::Done) => SetupPhase::Stat,
            (SetupPhase::Stat, SetupEvent::Failed(errno)) => self.failing(errno),
            (SetupPhase::Stat, SetupEvent::Size(size)) => SetupPhase::MapMemory { size },
            (SetupPhase::MapMemory { .. }, SetupEvent::Failed(errno)) => self.failing(errno),
            (SetupPhase::MapMemory { size }, SetupEvent::Address(address)) => if address == 0 {
                self.failing(INVALID)
            } else {
                SetupPhase::Advise { size }
            },
            (SetupPhase::Advise { size }, SetupEvent::Failed(errno)) => SetupPhase::ReportAdvice {
                size,
                errno,
            },
            (SetupPhase::Advise { size }, SetupEvent::Done) => self.advised(size),
            (SetupPhase::ReportAdvice { size, .. }, SetupEvent::Done) => self.advised(size),
            (SetupPhase::Zero { size }, SetupEvent::Done) => SetupPhase::Cast { size },
            (SetupPhase::Cast { size }, SetupEvent::Cast(suits)) => if suits {
                SetupPhase::Mapped { size }
            } else {
                self.failing(INVALID)
            },
            (SetupPhase::Unlink { errno }, SetupEvent::Done | SetupEvent::Failed(_)) =>
                SetupPhase::Failed { errno },
            (phase, _) => phase,
        };
        Setup { phase, ..self }
    }

    /// Where a sequence of events leads.
    pub open spec fn after_all(self, events: Seq<SetupEvent>) -> Setup
        decreases events.len(),
    {
        if events.len() == 0 {
            self
        } else {
            self.after_all(events.drop_last()).after(events.last())
        }
    }

    /// The actions that a sequence of events answers.
    pub open spec fn done(self, events: Seq<SetupEvent>) -> Seq<SetupAction>
        decreases events.len(),
    {
        if events.len() == 0 {
            Seq::empty()
        } else {
            let before = events.drop_last();
            match self.after_all(before).next_action() {
                Some(action) => self.done(before).push(action),
                None => self.done(before),
            }
        }
    }

    pub fn action(&self) -> (action: Option<SetupAction>)
        ensures
            action == self.next_action(),
    {
        match self.phase {
            SetupPhase::Open => Some(SetupAction::Open { create: self.create.is_some() }),
            SetupPhase::Resize { size } => Some(SetupAction::Resize { size }),
            SetupPhase::Stat => Some(SetupAction::Stat),
            SetupPhase::MapMemory { size } => Some(SetupAction::MapMemory { size }),
            SetupPhase::Advise { size } => Some(SetupAction::Advise { size }),
            SetupPhase::ReportAdvice { errno, .. } => Some(SetupAction::ReportAdvice { errno }),
            SetupPhase::Zero { size } => Some(SetupAction::Zero { size }),
            SetupPhase::Cast { size } => Some(SetupAction::Cast { size }),
            SetupPhase::Unlink { .. } => Some(SetupAction::Unlink),
            SetupPhase::Mapped { .. } => None,
            SetupPhase::Failed { .. } => None,
        }
    }

    fn fail(&self, errno: i32) -> (phase: SetupPhase)
        ensures
            phase == self.failing(errno),
    {
        if self.create.is_some() {
            SetupPhase::Unlink { errno }
        } else {
            SetupPhase::Failed { errno }
        }
    }

    fn initialize(&self, size: usize) -> (phase: SetupPhase)
        ensures
            phase == self.advised(size),
    {
        if self.create.is_some() {
            SetupPhase::Zero { size }
        } else {
            SetupPhase::Cast { size }
        }
    }

    /// Takes what came of the action.
    pub fn resume(&mut self, event: SetupEvent)
        ensures
            *final(self) == old(self).after(event),
    {
        self.phase = match (self.phase, event) {
            (SetupPhase::Open, SetupEvent::Failed(errno)) => SetupPhase::Failed { errno },
            (SetupPhase::Open, SetupEvent::Done) => match self.create {
                Some(size) => SetupPhase::Resize { size },
                None => SetupPhase::Stat,
            },
            (SetupPhase::Resize { .. }, SetupEvent::Failed(errno)) => SetupPhase::Unlink { errno },
            (SetupPhase::Resize { .. }, SetupEvent::Done) => SetupPhase::Stat,
            (SetupPhase::Stat, SetupEvent::Failed(errno)) => self.fail(errno),
            (SetupPhase::Stat, SetupEvent::Size(size)) => SetupPhase::MapMemory { size },
            (SetupPhase::MapMemory { .. }, SetupEvent::Failed(errno)) => self.fail(errno),
            (SetupPhase::MapMemory { size }, SetupEvent::Address(address)) => {
                if address == 0 {
                    self.fail(INVALID)
                } else {
                    SetupPhase::Advise { size }
                }
            },
            (SetupPhase::Advise { size }, SetupEvent::Failed(errno)) => {
                SetupPhase::ReportAdvice { size, errno }
            },
            (SetupPhase::Advise { size }, SetupEvent::Done) => self.initialize(size),
            (SetupPhase::ReportAdvice { size, .. }, SetupEvent::Done) => self.initialize(size),
            (SetupPhase::Zero { size }, SetupEvent::Done) => SetupPhase::Cast { size },
            (SetupPhase::Cast { size }, SetupEvent::Cast(suits)) => {
                if suits {
                    SetupPhase::Mapped { size }
                } else {
                    self.fail(INVALID)
                }
            },
            (SetupPhase::Unlink { errno }, SetupEvent::Done) => SetupPhase::Failed { errno },
            (SetupPhase::Unlink { errno }, SetupEvent::Failed(_)) => SetupPhase::Failed { errno },
            (phase, _) => phase,
        };
    }

    /// The mapping, or the error, once there is nothing more to do.
    pub fn outcome(&self) -> (outcome: Option<Result<SharedMemoryMapper, i32>>)
        ensures
            outcome == (match self.phase {
                SetupPhase::Mapped { size } => Some(
                    Ok(SharedMemoryMapper { mapped_size: size, created: self.create is Some }),
                ),
                SetupPhase::Failed { errno } => Some(Err(errno)),
                _ => None,
            }),
    {
        match self.phase {
            SetupPhase::Mapped { size } => Some(
                Ok(SharedMemoryMapper { mapped_size: size, created: self.create.is_some() }),
            ),
            SetupPhase::Failed { errno } => Some(Err(errno)),
            _ => None,
        }
    }
}

/// A mapping that was set up.
#[derive(Clone, Copy, PartialEq, Eq, Structural, Debug)]
pub struct SharedMemoryMapper {
    pub mapped_size: usize,
    /// Whether the object was made with the mapping, and goes with it.
    pub created: bool,
}

impl SharedMemoryMapper {
    /// Makes and maps an object of `size` bytes.
    pub fn create(size: usize) -> (setup: Setup)
        ensures
            setup == (Setup { create: Some(size), phase: SetupPhase::Open }),
    {
        Setup { create: Some(size), phase: SetupPhase::Open }
    }

    /// Maps an object that is there.
    pub fn open() -> (setup: Setup)
        ensures
            setup == (Setup { create: None, phase: SetupPhase::Open }),
    {
        Setup { create: None, phase: SetupPhase::Open }
    }

    pub fn mapped_memory_size(&self) -> (size: usize)
        ensures
            size == self.mapped_size,
    {
        self.mapped_size
    }

    /// Gives the mapping back.
    pub fn teardown(self) -> (teardown: Teardown)
        ensures
            teardown == (Teardown { mapper: self, phase: TeardownPhase::Unmap }),
    {
        Teardown { mapper: self, phase: TeardownPhase::Unmap }
    }
}

/// What is done next to give a mapping back.
#[derive(Clone, Copy, PartialEq, Eq, Structural, Debug)]
pub enum TeardownAction {
    Unmap { size: usize },
    /// Tell that the memory could not be unmapped.
    ReportUnmap { errno: i32 },
    /// Remove the name of the object.
    Unlink,
    /// Tell that the name could not be removed.
    ReportUnlink { errno: i32 },
}

#[derive(Clone, Copy, PartialEq, Eq, Structural, Debug)]
pub enum TeardownPhase {
    Unmap,
    ReportUnmap { errno: i32 },
    Unlink,
    ReportUnlink { errno: i32 },
    Finished,
}

/// Gives a mapping back.
#[derive(Clone, Copy, PartialEq, Eq, Structural, Debug)]
pub struct Teardown {
    pub mapper: SharedMemoryMapper,
    pub phase: TeardownPhase,
}

impl Teardown {
    pub open spec fn next_action(self) -> Option<TeardownAction> {
        match self.phase {
            TeardownPhase::Unmap => Some(TeardownAction::Unmap { size: self.mapper.mapped_size }),
            TeardownPhase::ReportUnmap { errno } => Some(TeardownAction::ReportUnmap { errno }),
            TeardownPhase::Unlink => Some(TeardownAction::Unlink),
            TeardownPhase::ReportUnlink { errno } => Some(TeardownAction::ReportUnlink { errno }),
            TeardownPhase::Finished => None,
        }
    }

    /// What comes when the memory is unmapped, or could not be.
    pub open spec fn unmapped(self) -> TeardownPhase {
        if self.mapper.created {
            TeardownPhase::Unlink
        } else {
            TeardownPhase::Finished
        }
    }

    /// What comes when the action was done, or failed with an error.
    pub open spec fn after(self, failure: Option<i32>) -> Teardown {
        let phase = match (self.phase, failure) {
            (TeardownPhase::Unmap, Some(errno)) => TeardownPhase::ReportUnmap { errno },
            (TeardownPhase::Unmap, None) => self.unmapped(),
            (TeardownPhase::ReportUnmap { .. }, _) => self.unmapped(),
            (TeardownPhase::Unlink, Some(errno)) => TeardownPhase::ReportUnlink { errno },
            (TeardownPhase::Unlink, None) => TeardownPhase::Finished,
            (TeardownPhase::ReportUnlink { .. }, _) => TeardownPhase::Finished,
            (TeardownPhase::Finished, _) => TeardownPhase::Finished,
        };
        Teardown { phase, ..self }
    }

    /// Where a sequence of outcomes leads.
    pub open spec fn after_all(self, failures: Seq<Option<i32>>) -> Teardown
        decreases failures.len(),
    {
        if failures.len() == 0 {
            self
        } else {
            self.after_all(failures.drop_last()).after(failures.last())
        }
    }

    /// The actions that they are the outcomes of.
    pub open spec fn done(self, failures: Seq<Option<i32>>) -> Seq<TeardownAction>
        decreases failures.len(),
    {
        if failures.len() == 0 {
            Seq::empty()
        } else {
            let before = failures.drop_last();
            match self.after_all(before).next_action() {
                Some(action) => self.done(before).push(action),
                None => self.done(before),
            }
        }
    }

    pub fn action(&self) -> (action: Option<TeardownAction>)
        ensures
            action == self.next_action(),
    {
        match self.phase {
            TeardownPhase::Unmap => Some(TeardownAction::Unmap { size: self.mapper.mapped_size }),
            TeardownPhase::ReportUnmap { errno } => Some(TeardownAction::ReportUnmap { errno }),
            TeardownPhase::Unlink => Some(TeardownAction::Unlink),
            TeardownPhase::ReportUnlink { errno } => Some(TeardownAction::ReportUnlink { errno }),
            TeardownPhase::Finished => None,
        }
    }

    pub fn resume(&mut self, failure: Option<i32>)
        ensures
            *final(self) == old(self).after(failure),
    {
        let unmapped = if self.mapper.created {
            TeardownPhase::Unlink
        } else {
            TeardownPhase::Finished
        };
        self.phase = match (self.phase, failure) {
            (TeardownPhase::Unmap, Some(errno)) => TeardownPhase::ReportUnmap { errno },
            (TeardownPhase::Unmap, None) => unmapped,
            (TeardownPhase::ReportUnmap { .. }, _) => unmapped,
            (TeardownPhase::Unlink, Some(errno)) => TeardownPhase::ReportUnlink { errno },
            (TeardownPhase::Unlink, None) => TeardownPhase::Finished,
            (TeardownPhase::ReportUnlink { .. }, _) => TeardownPhase::Finished,
            (TeardownPhase::Finished, _) => TeardownPhase::Finished,
        };
    }
}

/// Taking an object that is there never changes it: it is neither made nor
/// resized nor zeroed nor removed, whatever fails.
pub proof fn law_open_changes_nothing(setup: Setup, events: Seq<SetupEvent>, n: int)
    requires
        setup == (Setup { create: None, phase: SetupPhase::Open }),
        0 <= n < setup.done(events).len(),
    ensures
        match setup.done(events)[n] {
            SetupAction::Open { create } => !create,
            SetupAction::Resize { .. } | SetupAction::Zero { .. } | SetupAction::Unlink => false,
            _ => true,
        },
    decreases events.len(),
{
    let before = events.drop_last();
    lemma_open_phase(setup, before);
    if n < setup.done(before).len() {
        law_open_changes_nothing(setup, before, n);
    }
}

proof fn lemma_open_phase(setup: Setup, events: Seq<SetupEvent>)
    requires
        setup == (Setup { create: None, phase: SetupPhase::Open }),
    ensures
        setup.after_all(events).create is None,
        !(setup.after_all(events).phase is Resize),
        !(setup.after_all(events).phase is Zero),
        !(setup.after_all(events).phase is Unlink),
    decreases events.len(),
{
    if events.len() > 0 {
        lemma_open_phase(setup, events.drop_last());
    }
}

/// Only attempts to open the object were made.
pub open spec fn only_opens(done: Seq<SetupAction>) -> bool {
    forall|n: int| 0 <= n < done.len() ==> #[trigger] done[n] is Open
}

/// A creation that fails leaves nothing behind: either the object could not
/// even be opened, or the last thing done was to remove it.
pub proof fn law_failed_creation_is_undone(setup: Setup, events: Seq<SetupEvent>)
    requires
        setup.create is Some,
        setup.phase == SetupPhase::Open,
        setup.after_all(events).phase is Failed,
    ensures
        only_opens(setup.done(events)) || setup.done(events).last() == SetupAction::Unlink,
{
    lemma_creation(setup, events);
}

/// A creation that succeeds has zeroed the whole memory and has not removed
/// the object.
pub proof fn law_created_memory_is_zeroed(setup: Setup, events: Seq<SetupEvent>, size: usize)
    requires
        setup.create is Some,
        setup.phase == SetupPhase::Open,
        setup.after_all(events).phase == (SetupPhase::Mapped { size }),
    ensures
        setup.done(events).contains((SetupAction::Zero { size })),
        !setup.done(events).contains(SetupAction::Unlink),
{
    lemma_creation(setup, events);
}

/// What was done on the way to each phase of a creation.
proof fn lemma_creation(setup: Setup, events: Seq<SetupEvent>)
    requires
        setup.create is Some,
        setup.phase == SetupPhase::Open,
    ensures
        ({
            let done = setup.done(events);
            let now = setup.after_all(events);
            &&& now.create == setup.create
            &&& match now.phase {
                SetupPhase::Open => only_opens(done),
                SetupPhase::Failed { .. } => only_opens(done) || (done.len() > 0 && done.last()
                    == SetupAction::Unlink),
                SetupPhase::Cast { size } | SetupPhase::Mapped { size } => done.contains(
                    (SetupAction::Zero { size }),
                ) && !done.contains(SetupAction::Unlink),
                SetupPhase::Unlink { .. } => true,
                _ => !done.contains(SetupAction::Unlink),
            }
        }),
    decreases events.len(),
{
    if events.len() > 0 {
        let before = events.drop_last();
        lemma_creation(setup, before);
        let done = setup.done(before);
        match setup.after_all(before).next_action() {
            Some(action) => {
                assert(done.push(action).last() == action);
                assert(done.push(action)[done.len() as int] == action);
                assert forall|other: SetupAction|
                    done.push(action).contains(other) <==> done.contains(other) || other
                        == action by {
                    if done.contains(other) {
                        let n = choose|n: int| 0 <= n < done.len() && done[n] == other;
                        assert(done.push(action)[n] == other);
                    }
                }
            },
            None => {},
        }
    }
}

/// The name of an object goes with the mapping that made it, and with no other,
/// whether or not the memory could be unmapped.
pub proof fn law_unlinked_if_created(start: Teardown, failures: Seq<Option<i32>>)
    requires
        start.phase == TeardownPhase::Unmap,
        start.after_all(failures).phase == TeardownPhase::Finished,
    ensures
        start.done(failures).contains(TeardownAction::Unlink) == start.mapper.created,
{
    lemma_teardown(start, failures);
}

proof fn lemma_teardown(start: Teardown, failures: Seq<Option<i32>>)
    requires
        start.phase == TeardownPhase::Unmap,
    ensures
        ({
            let now = start.after_all(failures);
            let unlinked = start.done(failures).contains(TeardownAction::Unlink);
            &&& now.mapper == start.mapper
            &&& match now.phase {
                TeardownPhase::Unmap | TeardownPhase::ReportUnmap { .. } => !unlinked,
                TeardownPhase::Unlink => start.mapper.created && !unlinked,
                TeardownPhase::ReportUnlink { .. } => start.mapper.created && unlinked,
                TeardownPhase::Finished => unlinked == start.mapper.created,
            }
        }),
    decreases failures.len(),
{
    if failures.len() > 0 {
        let before = failures.drop_last();
        lemma_teardown(start, before);
        let done = start.done(before);
        match start.after_all(before).next_action() {
            Some(action) => {
                assert(done.push(action)[done.len() as int] == action);
                if done.contains(TeardownAction::Unlink) {
                    let n = choose|n: int| 0 <= n < done.len() && done[n] == TeardownAction::Unlink;
                    assert(done.push(action)[n] == TeardownAction::Unlink);
                }
            },
            None => {},
        }
    }
}

/// A creation in which every call succeeds opens the object, gives it its size,
/// asks for the size it has, maps all of it, advises, zeroes all of it, looks
/// whether it suits, and is done. A failed advice is told and does no harm.
pub proof fn law_creation_in_order(
    size: usize,
    found: usize,
    address: usize,
    advice: Option<i32>,
    setup: Setup,
)
    requires
        address != 0,
        call_ensures(SharedMemoryMapper::create, (size,), setup),
    ensures
        ({
            let resize = setup.after(SetupEvent::Done);
            let stat = resize.after(SetupEvent::Done);
            let map = stat.after(SetupEvent::Size(found));
            let advise = map.after(SetupEvent::Address(address));
            let zero = match advice {
                Some(errno) => advise.after(SetupEvent::Failed(errno)).after(SetupEvent::Done),
                None => advise.after(SetupEvent::Done),
            };
            let cast = zero.after(SetupEvent::Done);
            let mapped = cast.after(SetupEvent::Cast(true));
            &&& setup.next_action() == Some(SetupAction::Open { create: true })
            &&& resize.next_action() == Some(SetupAction::Resize { size })
            &&& stat.next_action() == Some(SetupAction::Stat)
            &&& map.next_action() == Some(SetupAction::MapMemory { size: found })
            &&& advise.next_action() == Some(SetupAction::Advise { size: found })
            &&& advice matches Some(errno) ==> advise.after(
                SetupEvent::Failed(errno),
            ).next_action() == Some(SetupAction::ReportAdvice { errno })
            &&& zero.next_action() == Some(SetupAction::Zero { size: found })
            &&& cast.next_action() == Some(SetupAction::Cast { size: found })
            &&& mapped.next_action() is None
            &&& mapped.phase == (SetupPhase::Mapped { size: found })
            &&& mapped.create == Some(size)
        }),
{
}

/// An opening in which every call succeeds opens the object, asks for its size,
/// maps all of it, advises, looks whether it suits, and is done.
pub proof fn law_opening_in_order(
    found: usize,
    address: usize,
    advice: Option<i32>,
    setup: Setup,
)
    requires
        address != 0,
        call_ensures(SharedMemoryMapper::open, (), setup),
    ensures
        ({
            let stat = setup.after(SetupEvent::Done);
            let map = stat.after(SetupEvent::Size(found));
            let advise = map.after(SetupEvent::Address(address));
            let cast = match advice {
                Some(errno) => advise.after(SetupEvent::Failed(errno)).after(SetupEvent::Done),
                None => advise.after(SetupEvent::Done),
            };
            let mapped = cast.after(SetupEvent::Cast(true));
            &&& setup.next_action() == Some(SetupAction::Open { create: false })
            &&& stat.next_action() == Some(SetupAction::Stat)
            &&& map.next_action() == Some(SetupAction::MapMemory { size: found })
            &&& advise.next_action() == Some(SetupAction::Advise { size: found })
            &&& advice matches Some(errno) ==> advise.after(
                SetupEvent::Failed(errno),
            ).next_action() == Some(SetupAction::ReportAdvice { errno })
            &&& cast.next_action() == Some(SetupAction::Cast { size: found })
            &&& mapped.next_action() is None
            &&& mapped.phase == (SetupPhase::Mapped { size: found })
            &&& mapped.create is None
        }),
{
}

/// A call that fails ends the set-up with its error, and memory that does not suit
/// with that for an invalid argument. What was made is removed first, unless it
/// could not even be opened.
pub proof fn law_setup_fails(setup: Setup, errno: i32, removed: SetupEvent)
    requires
        removed == SetupEvent::Done || removed is Failed,
        setup.phase is Resize ==> setup.create is Some,
    ensures
        ({
            let event = match setup.phase {
                SetupPhase::MapMemory { .. } if errno == 22 => SetupEvent::Address(0),
                SetupPhase::Cast { .. } => SetupEvent::Cast(false),
                _ => SetupEvent::Failed(errno),
            };
            let error = if setup.phase is Cast {
                22
            } else {
                errno
            };
            let failed = setup.after(event);
            match setup.phase {
                SetupPhase::Open => failed.phase == (SetupPhase::Failed { errno }),
                SetupPhase::Resize { .. } | SetupPhase::Stat | SetupPhase::MapMemory { .. }
                | SetupPhase::Cast { .. } => if setup.create is Some {
                    &&& failed.next_action() == Some(SetupAction::Unlink)
                    &&& failed.after(removed).phase == (SetupPhase::Failed { errno: error })
                } else {
                    failed.phase == (SetupPhase::Failed { errno: error })
                },
                _ => true,
            }
        }),
{
}

/// What comes of a set-up is the mapping with its size, which remembers whether it
/// made the object, or the error, and nothing before that.
pub proof fn law_setup_outcome(setup: Setup, outcome: Option<Result<SharedMemoryMapper, i32>>)
    requires
        call_ensures(Setup::outcome, (&setup,), outcome),
    ensures
        outcome is Some <==> setup.next_action() is None,
        setup.phase matches SetupPhase::Mapped { size } ==> (outcome matches Some(Ok(mapper))
            && mapper.mapped_size == size && mapper.created == (setup.create is Some)),
        setup.phase matches SetupPhase::Failed { errno } ==> outcome == Some(
            Err::<SharedMemoryMapper, i32>(errno),
        ),
{
}

/// Giving a mapping back unmaps all of it, tells if that fails, and goes on to
/// remove the name of what was made; it tells if that fails, and is done.
pub proof fn law_teardown_in_order(
    mapper: SharedMemoryMapper,
    unmapping: Option<i32>,
    unlinking: Option<i32>,
    start: Teardown,
)
    requires
        call_ensures(SharedMemoryMapper::teardown, (mapper,), start),
    ensures
        ({
            let unmapped = start.after(unmapping);
            let unlink = match unmapping {
                Some(_) => unmapped.after(None),
                None => unmapped,
            };
            let unlinked = unlink.after(unlinking);
            &&& start.next_action() == Some(TeardownAction::Unmap { size: mapper.mapped_size })
            &&& unmapping matches Some(errno) ==> unmapped.next_action() == Some(
                TeardownAction::ReportUnmap { errno },
            )
            &&& mapper.created ==> unlink.next_action() == Some(TeardownAction::Unlink)
            &&& !mapper.created ==> unlink.next_action() is None
            &&& mapper.created ==> match unlinking {
                Some(errno) => unlinked.next_action() == Some(
                    TeardownAction::ReportUnlink { errno },
                ) && unlinked.after(None).next_action() is None,
                None => unlinked.next_action() is None,
            }
        }),
{
}

/// The payload is what the header leaves of memory that is well placed and larger
/// than the header.
pub proof fn law_payload_size(
    layout: Layout,
    address: usize,
    memory_size: usize,
    size: Option<usize>,
)
    requires
        layout.alignment > 0,
        call_ensures(Layout::payload_size, (&layout, address, memory_size), size),
    ensures
        size is Some <==> address % layout.alignment == 0 && memory_size > layout.header_size,
        size matches Some(size) ==> size + layout.header_size == memory_size,
{
}

} // verus!
