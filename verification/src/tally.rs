//! How many of a number of things have a property.
use vstd::prelude::*;

verus! {

/// How many of the flags are set.
pub open spec fn tally(flags: Seq<bool>) -> nat
    decreases flags.len(),
{
    if flags.len() == 0 {
        0
    } else {
        tally(flags.drop_last()) + if flags.last() {
            1nat
        } else {
            0nat
        }
    }
}

/// A flag that changes changes the tally by one.
pub proof fn lemma_tally_update(flags: Seq<bool>, i: int, flag: bool)
    requires
        0 <= i < flags.len(),
    ensures
        tally(flags.update(i, flag)) == tally(flags) - (if flags[i] {
            1int
        } else {
            0
        }) + (if flag {
            1int
        } else {
            0
        }),
    decreases flags.len(),
{
    if i == flags.len() - 1 {
        assert(flags.update(i, flag).drop_last() =~= flags.drop_last());
    } else {
        lemma_tally_update(flags.drop_last(), i, flag);
        assert(flags.update(i, flag).drop_last() =~= flags.drop_last().update(i, flag));
    }
}

/// Who is counted makes the tally positive.
pub proof fn lemma_tally_positive(flags: Seq<bool>, i: int)
    requires
        0 <= i < flags.len(),
        flags[i],
    ensures
        tally(flags) > 0,
{
    lemma_tally_update(flags, i, false);
}

/// The tally is no larger than the number of flags, and smaller if one is not
/// set.
pub proof fn lemma_tally_bound(flags: Seq<bool>, i: int)
    requires
        0 <= i < flags.len(),
        !flags[i],
    ensures
        tally(flags) < flags.len(),
{
    lemma_tally_update(flags, i, true);
    lemma_tally_most(flags.update(i, true));
}

proof fn lemma_tally_most(flags: Seq<bool>)
    ensures
        tally(flags) <= flags.len(),
    decreases flags.len(),
{
    if flags.len() > 0 {
        lemma_tally_most(flags.drop_last());
    }
}

/// With no flag set the tally is zero.
pub proof fn lemma_tally_none(flags: Seq<bool>)
    requires
        forall|i: int| 0 <= i < flags.len() ==> !flags[i],
    ensures
        tally(flags) == 0,
    decreases flags.len(),
{
    if flags.len() > 0 {
        lemma_tally_none(flags.drop_last());
    }
}

} // verus!
