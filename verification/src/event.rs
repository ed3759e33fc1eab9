//! Reactor cores and event dispatch.
//!
//! SPDK runs one reactor per CPU core listed in the reactor mask. The cores
//! are walked by asking SPDK for the first core and then, core by core, for
//! the next one, until SPDK answers with the "no core" marker. The iterator
//! here keeps the walk's position and decides which question to ask next;
//! the answers come from SPDK.

use crate::error::Error;
use crate::text::{decimal, decimal_u64};
use vstd::prelude::*;

verus! {

/// The marker SPDK answers with when there is no further core; an iterator
/// also starts from it.
pub const NO_CORE: u32 = 0xffff_ffffu32;

/// CPU core utilities for reactor management.
///
/// The queries of the current, first and last core and of the core count
/// are answered by SPDK; the walk over the cores starts here.
#[derive(Debug)]
pub struct Cores;

impl Cores {
    /// Iterate over all reactor cores.
    pub fn iter() -> (it: CoreIterator)
        ensures
            it.spec_current() == NO_CORE,
    {
        CoreIterator { current: NO_CORE }
    }
}

/// The question an iterator asks SPDK before it can yield its next core.
#[derive(Debug, Clone, Copy, PartialEq, Eq, Structural)]
pub enum CoreQuery {
    /// Which core is the first reactor core?
    First,
    /// Which reactor core follows this one?
    NextAfter(u32),
}

/// Iterator over reactor cores; created by [`Cores::iter`].
#[derive(Debug)]
pub struct CoreIterator {
    current: u32,
}

/// One step of the walk: from the current position and SPDK's answer, the
/// core yielded (if any) and the new position.
pub open spec fn core_step(current: u32, answer: u32) -> (Option<u32>, u32) {
    if current == NO_CORE {
        (Some(answer), answer)
    } else if answer == NO_CORE {
        (None, current)
    } else {
        (Some(answer), answer)
    }
}

/// The question asked at a position.
pub open spec fn core_query_at(current: u32) -> CoreQuery {
    if current == NO_CORE {
        CoreQuery::First
    } else {
        CoreQuery::NextAfter(current)
    }
}

impl CoreIterator {
    pub closed spec fn spec_current(&self) -> u32 {
        self.current
    }

    /// The question to ask SPDK for the next step.
    pub fn query(&self) -> (q: CoreQuery)
        ensures
            q == core_query_at(self.spec_current()),
    {
        if self.current == NO_CORE {
            CoreQuery::First
        } else {
            CoreQuery::NextAfter(self.current)
        }
    }

    /// Takes SPDK's answer to [`query`](Self::query) and yields the next
    /// core, or `None` once SPDK reports no further core.
    pub fn advance(&mut self, answer: u32) -> (r: Option<u32>)
        ensures
            (r, final(self).spec_current()) == core_step(old(self).spec_current(), answer),
    {
        if self.current == NO_CORE {
            self.current = answer;
            Some(answer)
        } else if answer == NO_CORE {
            None
        } else {
            self.current = answer;
            Some(answer)
        }
    }
}

/// Law: once the walk has started, it ends exactly when SPDK answers "no
/// core", and an ended walk stands still, so it asks the same question and
/// ends again on the same answer; every core it yields becomes its position.
pub proof fn lemma_core_walk(current: u32, answer: u32)
    ensures
        current != NO_CORE ==> (core_step(current, answer).0 is None <==> answer == NO_CORE),
        core_step(current, answer).0 is None ==> core_step(current, answer).1 == current
            && core_query_at(core_step(current, answer).1) == core_query_at(current),
        core_step(current, answer).0 matches Some(c) ==> core_step(current, answer).1 == c,
{
}

/// The reactor cores of a mask, listed in increasing order, none of them the
/// "no core" marker.
pub open spec fn valid_core_list(cs: Seq<u32>) -> bool {
    &&& cs.len() > 0
    &&& forall|i: int, j: int| 0 <= i < j < cs.len() ==> cs[i] < cs[j]
    &&& forall|i: int| 0 <= i < cs.len() ==> cs[i] != NO_CORE
}

/// How SPDK answers a question about the cores `cs`: the first core is the
/// first of the list, the core after a listed core is the next one listed,
/// and after the last (or an unlisted) core comes "no core".
pub open spec fn core_answer(cs: Seq<u32>, q: CoreQuery) -> u32 {
    match q {
        CoreQuery::First => cs[0],
        CoreQuery::NextAfter(c) => {
            let i = choose|i: int| 0 <= i < cs.len() && cs[i] == c;
            if 0 <= i < cs.len() - 1 && cs[i] == c {
                cs[i + 1]
            } else {
                NO_CORE
            }
        },
    }
}

/// The items of `k` successive steps of a walk from position `current`, when
/// SPDK answers for the cores `cs`, and the position afterwards.
pub open spec fn core_walk(cs: Seq<u32>, current: u32, k: nat) -> (Seq<Option<u32>>, u32)
    decreases k,
{
    if k == 0 {
        (Seq::empty(), current)
    } else {
        let step = core_step(current, core_answer(cs, core_query_at(current)));
        let rest = core_walk(cs, step.1, (k - 1) as nat);
        (seq![step.0] + rest.0, rest.1)
    }
}

/// `k` items that are all `None`.
pub open spec fn no_more_cores(k: nat) -> Seq<Option<u32>> {
    Seq::new(k, |i: int| None::<u32>)
}

/// The cores of the list from index `from` on, each as a yielded item.
pub open spec fn cores_from(cs: Seq<u32>, from: int) -> Seq<Option<u32>> {
    Seq::new((cs.len() - from) as nat, |i: int| Some(cs[from + i]))
}

/// SPDK's answer for the core at index `i` of a valid list.
proof fn lemma_core_answer_next(cs: Seq<u32>, i: int)
    requires
        valid_core_list(cs),
        0 <= i < cs.len(),
    ensures
        i < cs.len() - 1 ==> core_answer(cs, CoreQuery::NextAfter(cs[i])) == cs[i + 1],
        i == cs.len() - 1 ==> core_answer(cs, CoreQuery::NextAfter(cs[i])) == NO_CORE,
{
    let c = cs[i];
    assert(0 <= i < cs.len() && cs[i] == c);
    let j = choose|j: int| 0 <= j < cs.len() && cs[j] == c;
    if j < i {
        assert(cs[j] < cs[i]);
    }
    if i < j {
        assert(cs[i] < cs[j]);
    }
    assert(j == i);
}

/// A walk that stands on the last core yields `None` on every step.
proof fn lemma_core_walk_ended(cs: Seq<u32>, k: nat)
    requires
        valid_core_list(cs),
    ensures
        core_walk(cs, cs[cs.len() - 1], k) == (no_more_cores(k), cs[cs.len() - 1]),
    decreases k,
{
    let last = cs[cs.len() - 1];
    if k > 0 {
        lemma_core_answer_next(cs, cs.len() - 1);
        lemma_core_walk_ended(cs, (k - 1) as nat);
        assert(seq![None::<u32>] + no_more_cores((k - 1) as nat) =~= no_more_cores(k));
    }
}

/// A walk standing on the core at index `i` yields the cores after it, in
/// order, and then `None`.
proof fn lemma_core_walk_from(cs: Seq<u32>, i: int, k: nat)
    requires
        valid_core_list(cs),
        0 <= i < cs.len(),
        k >= cs.len() - 1 - i,
    ensures
        core_walk(cs, cs[i], k) == (
            cores_from(cs, i + 1) + no_more_cores((k - (cs.len() - 1 - i)) as nat),
            cs[cs.len() - 1],
        ),
    decreases cs.len() - i,
{
    if i == cs.len() - 1 {
        lemma_core_walk_ended(cs, k);
        assert(cores_from(cs, i + 1) =~= Seq::<Option<u32>>::empty());
        assert(cores_from(cs, i + 1) + no_more_cores(k) =~= no_more_cores(k));
    } else {
        lemma_core_answer_next(cs, i);
        assert(cs[i] != NO_CORE && cs[i + 1] != NO_CORE);
        lemma_core_walk_from(cs, i + 1, (k - 1) as nat);
        let tail = no_more_cores((k - (cs.len() - 1 - i)) as nat);
        assert(seq![Some(cs[i + 1])] + (cores_from(cs, i + 2) + tail) =~= cores_from(cs, i + 1)
            + tail);
    }
}

/// Law: a walk over the cores `cs` of a reactor mask (listed in increasing
/// order) yields exactly those cores, in that order, and then `None` on every
/// later step, standing on the last core.
pub proof fn lemma_core_walk_whole(cs: Seq<u32>, k: nat)
    requires
        valid_core_list(cs),
        k >= cs.len(),
    ensures
        core_walk(cs, NO_CORE, k) == (
            cores_from(cs, 0) + no_more_cores((k - cs.len()) as nat),
            cs[cs.len() - 1],
        ),
        cores_from(cs, 0).len() == cs.len(),
        forall|i: int| 0 <= i < cs.len() ==> #[trigger] cores_from(cs, 0)[i] == Some(cs[i]),
{
    lemma_core_walk_from(cs, 0, (k - 1) as nat);
    let tail = no_more_cores((k - cs.len()) as nat);
    assert(seq![Some(cs[0])] + (cores_from(cs, 1) + tail) =~= cores_from(cs, 0) + tail);
}

/// The message of an event that could not be allocated for a core.
pub open spec fn event_alloc_message(lcore: u32) -> Seq<char> {
    "Failed to allocate event for lcore "@ + decimal(lcore as nat) + ". Is it in reactor_mask?"@
}

/// The outcome of allocating an event for `lcore`: SPDK refuses cores
/// outside the reactor mask and fails when out of memory.
pub fn event_alloc_outcome(lcore: u32, allocated: bool) -> (r: Result<(), Error>)
    ensures
        allocated ==> r is Ok,
        !allocated ==> (r matches Err(Error::InvalidArgument(m)) && m@ == event_alloc_message(
            lcore,
        )),
{
    if allocated {
        Ok(())
    } else {
        let mut m = String::from_str("Failed to allocate event for lcore ");
        m.append(decimal_u64(lcore as u64).as_str());
        m.append(". Is it in reactor_mask?");
        Err(Error::InvalidArgument(m))
    }
}

} // verus!
