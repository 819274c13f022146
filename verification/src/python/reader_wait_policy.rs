//! How many readers a writer waits for.
use vstd::prelude::*;

verus! {

#[derive(Copy, Clone, Debug, PartialEq, Eq, Structural)]
pub enum ReaderWaitPolicy {
    All(),
    Count(u32),
}

impl ReaderWaitPolicy {
    pub open spec fn count(self) -> u32 {
        match self {
            ReaderWaitPolicy::All() => u32::MAX,
            ReaderWaitPolicy::Count(count) => count,
        }
    }

    /// The count as the memory of a message holds it.
    pub open spec fn target(self) -> u16 {
        if self.count() <= u16::MAX {
            self.count() as u16
        } else {
            u16::MAX
        }
    }

    pub fn to_count(self) -> (count: u32)
        ensures
            count == self.count(),
    {
        match self {
            ReaderWaitPolicy::All() => u32::MAX,
            ReaderWaitPolicy::Count(count) => count,
        }
    }

    pub fn to_target(self) -> (target: u16)
        ensures
            target == self.target(),
    {
        let count: u32 = self.to_count();
        if count <= 0xffff {
            count as u16
        } else {
            u16::MAX
        }
    }
}

/// A policy that waits for all readers, or for more than there can be, is
/// served by the largest count that the memory can hold.
pub proof fn law_target_is_exact(policy: ReaderWaitPolicy, consumers: u16)
    ensures
        (if policy.target() <= consumers {
            policy.target()
        } else {
            consumers
        }) == (if policy.count() <= consumers {
            policy.count() as u16
        } else {
            consumers
        }),
{
}

} // verus!
