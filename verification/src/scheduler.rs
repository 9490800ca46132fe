//! The plan by which the systems run: the order of their registration,
//! checked against the "runs after" constraints that they declare.

use vstd::prelude::*;
use crate::access::{conflict, conflict_is_symmetric, conflicts};

verus! {

/// The systems of the game.
#[derive(Debug, Copy, Clone, PartialEq, Eq, Structural)]
pub enum SystemId {
    NonPlayerControl,
    PlayerControl,
    PlayerShooting,
    AlienShooting,
    UpdatePos,
    ReapOutsiders,
    ForceInside,
    CollisionChecker,
    EnemySpawning,
    SpawnerSpawning,
    LifetimeWatching,
    InvincibilityWatching,
    StarSpawner,
}

/// One system as it is registered: which it is, and after which others it
/// must run.
pub struct SystemEntry {
    pub id: SystemId,
    pub after: Vec<SystemId>,
}

/// Why a set of registrations gives no plan.
#[derive(Debug, Copy, Clone, PartialEq, Eq, Structural)]
pub enum ScheduleError {
    /// The system was registered twice.
    Duplicate(SystemId),
    /// `system` must run after `needs`, which was not registered before it.
    /// Constraints that run in a circle always end here.
    MissingDependency { system: SystemId, needs: SystemId },
}

/// Whether `id` is among the first `n` registrations.
pub open spec fn registered_before(entries: Seq<SystemEntry>, n: int, id: SystemId) -> bool {
    exists|j: int| 0 <= j < n && j < entries.len() && (#[trigger] entries[j]).id == id
}

/// The first among the first `k` constraints of registration `i` that names
/// a system not registered before it.
pub open spec fn first_missing(entries: Seq<SystemEntry>, i: int, k: nat) -> Option<SystemId>
    decreases k,
{
    if k == 0 {
        None
    } else {
        match first_missing(entries, i, (k - 1) as nat) {
            Some(id) => Some(id),
            None => if registered_before(entries, i, entries[i].after@[k - 1]) {
                None
            } else {
                Some(entries[i].after@[k - 1])
            },
        }
    }
}

/// What is wrong with registration `i`, given those before it.
pub open spec fn entry_fault(entries: Seq<SystemEntry>, i: int) -> Option<ScheduleError> {
    if registered_before(entries, i, entries[i].id) {
        Some(ScheduleError::Duplicate(entries[i].id))
    } else {
        match first_missing(entries, i, entries[i].after@.len()) {
            Some(needs) => Some(ScheduleError::MissingDependency { system: entries[i].id, needs }),
            None => None,
        }
    }
}

/// What is wrong with the first faulty one of the first `n` registrations.
pub open spec fn first_fault(entries: Seq<SystemEntry>, n: nat) -> Option<ScheduleError>
    decreases n,
{
    if n == 0 {
        None
    } else {
        match first_fault(entries, (n - 1) as nat) {
            Some(e) => Some(e),
            None => entry_fault(entries, n - 1),
        }
    }
}

/// The systems of the first `n` registrations, in order.
pub open spec fn ids_of(entries: Seq<SystemEntry>, n: nat) -> Seq<SystemId>
    decreases n,
{
    if n == 0 {
        Seq::empty()
    } else {
        ids_of(entries, (n - 1) as nat).push(entries[n - 1].id)
    }
}

/// `ids_of` lists the systems slot by slot.
pub proof fn ids_of_is_pointwise(entries: Seq<SystemEntry>, n: nat)
    requires
        n <= entries.len(),
    ensures
        ids_of(entries, n).len() == n,
        forall|j: int| 0 <= j < n ==> #[trigger] ids_of(entries, n)[j] == entries[j].id,
    decreases n,
{
    if n > 0 {
        ids_of_is_pointwise(entries, (n - 1) as nat);
    }
}

/// Whether registration `i` has to wait for registration `j`: it must run
/// after it, or the two may not run at the same time.
pub open spec fn must_wait(entries: Seq<SystemEntry>, i: int, j: int) -> bool {
    entries[i].after@.contains(entries[j].id) || conflict(entries[i].id, entries[j].id)
}

/// The earliest stage in which registration `i` can run, as far as the
/// first `j_end` registrations, whose stages are `stages`, decide: the
/// stage after the latest of those it has to wait for, or the first
/// stage.
pub open spec fn stage_after(entries: Seq<SystemEntry>, stages: Seq<usize>, i: int, j_end: nat) -> nat
    decreases j_end,
{
    if j_end == 0 {
        0
    } else {
        let rest = stage_after(entries, stages, i, (j_end - 1) as nat);
        if must_wait(entries, i, j_end - 1) && stages[j_end - 1] + 1 > rest {
            (stages[j_end - 1] + 1) as nat
        } else {
            rest
        }
    }
}

/// The stages of the first `n` registrations: each runs in the earliest
/// stage after all the earlier ones that it has to wait for.
pub open spec fn stages_of(entries: Seq<SystemEntry>, n: nat) -> Seq<usize>
    decreases n,
{
    if n == 0 {
        Seq::empty()
    } else {
        let earlier = stages_of(entries, (n - 1) as nat);
        earlier.push(stage_after(entries, earlier, n - 1, (n - 1) as nat) as usize)
    }
}

/// The plan: the systems in the order in which they run, and for each the
/// stage it belongs to. Systems of one stage may run at the same time.
pub struct Schedule {
    pub order: Vec<SystemId>,
    pub stages: Vec<usize>,
}

/// Whether `id` is among `order`.
pub fn is_planned(order: &Vec<SystemId>, id: SystemId) -> (r: bool)
    ensures
        r == order@.contains(id),
{
    let n = order.len();
    let mut j: usize = 0;
    while j < n
        invariant
            n == order@.len(),
            j <= n,
            forall|m: int| 0 <= m < j ==> order@[m] != id,
        decreases n - j,
    {
        if order[j] == id {
            return true;
        }
        j += 1;
    }
    false
}

impl Schedule {
    /// Finds the stage of registration `i`, given the stages of those
    /// before it.
    pub fn stage_for(entries: &Vec<SystemEntry>, stages: &Vec<usize>, i: usize) -> (stage: usize)
        requires
            i < entries@.len(),
            stages@.len() == i,
            forall|j: int| 0 <= j < i ==> #[trigger] stages@[j] <= j,
        ensures
            stage == stage_after(entries@, stages@, i as int, i as nat),
            stage <= i,
    {
        let entry = &entries[i];
        let mut stage: usize = 0;
        let mut j: usize = 0;
        while j < i
            invariant
                i < entries@.len(),
                entry == entries@[i as int],
                stages@.len() == i,
                forall|m: int| 0 <= m < i ==> #[trigger] stages@[m] <= m,
                j <= i,
                stage == stage_after(entries@, stages@, i as int, j as nat),
                stage <= j,
            decreases i - j,
        {
            let other = entries[j].id;
            assert(stages@[j as int] <= j);
            if (is_planned(&entry.after, other) || conflicts(entry.id, other)) && stages[j] + 1
                > stage {
                stage = stages[j] + 1;
            }
            j += 1;
        }
        stage
    }

    /// Makes the plan for the registrations, in their order. It is refused
    /// where a system is registered twice, or must run after one that was
    /// not registered before it; the error tells of the first registration
    /// that is at fault.
    pub fn build(entries: &Vec<SystemEntry>) -> (r: Result<Schedule, ScheduleError>)
        ensures
            match r {
                Ok(s) => first_fault(entries@, entries@.len()) is None && s.order@ == ids_of(
                    entries@,
                    entries@.len(),
                ) && s.stages@ == stages_of(entries@, entries@.len()),
                Err(e) => first_fault(entries@, entries@.len()) == Some(e),
            },
    {
        let n = entries.len();
        let mut order: Vec<SystemId> = Vec::new();
        let mut stages: Vec<usize> = Vec::new();
        let mut i: usize = 0;
        while i < n
            invariant
                n == entries@.len(),
                i <= n,
                first_fault(entries@, i as nat) is None,
                order@ == ids_of(entries@, i as nat),
                stages@ == stages_of(entries@, i as nat),
                stages@.len() == i,
                forall|j: int| 0 <= j < i ==> #[trigger] stages@[j] <= j,
            decreases n - i,
        {
            let entry = &entries[i];
            proof {
                ids_of_is_pointwise(entries@, i as nat);
                planned_is_registered(entries@, i as nat, entry.id);
            }
            if is_planned(&order, entry.id) {
                proof {
                    fault_stays(entries@, (i + 1) as nat, n as nat);
                }
                return Err(ScheduleError::Duplicate(entry.id));
            }
            let deps = entry.after.len();
            let mut k: usize = 0;
            while k < deps
                invariant
                    n == entries@.len(),
                    i < n,
                    entry == entries@[i as int],
                    deps == entry.after@.len(),
                    k <= deps,
                    first_fault(entries@, i as nat) is None,
                    !registered_before(entries@, i as int, entry.id),
                    order@ == ids_of(entries@, i as nat),
                    stages@ == stages_of(entries@, i as nat),
                    stages@.len() == i,
                    forall|j: int| 0 <= j < i ==> #[trigger] stages@[j] <= j,
                    first_missing(entries@, i as int, k as nat) is None,
                decreases deps - k,
            {
                let needs = entry.after[k];
                proof {
                    planned_is_registered(entries@, i as nat, needs);
                }
                if !is_planned(&order, needs) {
                    proof {
                        missing_stays(entries@, i as int, (k + 1) as nat, deps as nat);
                        fault_stays(entries@, (i + 1) as nat, n as nat);
                    }
                    return Err(ScheduleError::MissingDependency { system: entry.id, needs });
                }
                k += 1;
            }
            let stage = Schedule::stage_for(entries, &stages, i);
            order.push(entry.id);
            stages.push(stage);
            i += 1;
        }
        Ok(Schedule { order, stages })
    }
}

/// A system is in the plan of the first `n` registrations exactly when it
/// is registered among them.
pub proof fn planned_is_registered(entries: Seq<SystemEntry>, n: nat, id: SystemId)
    requires
        n <= entries.len(),
    ensures
        ids_of(entries, n).contains(id) == registered_before(entries, n as int, id),
{
    ids_of_is_pointwise(entries, n);
    if ids_of(entries, n).contains(id) {
        let j = choose|j: int| 0 <= j < ids_of(entries, n).len() && ids_of(entries, n)[j] == id;
        assert(entries[j].id == id);
    }
    if registered_before(entries, n as int, id) {
        let j = choose|j: int| 0 <= j < n && j < entries.len() && (#[trigger] entries[j]).id == id;
        assert(ids_of(entries, n)[j] == id);
    }
}

/// A missing system found among the first `k` constraints is still the
/// first one when more constraints are looked at.
pub proof fn missing_stays(entries: Seq<SystemEntry>, i: int, k: nat, more: nat)
    requires
        k <= more,
        first_missing(entries, i, k) is Some,
    ensures
        first_missing(entries, i, more) == first_missing(entries, i, k),
    decreases more,
{
    if k < more {
        missing_stays(entries, i, k, (more - 1) as nat);
    }
}

/// A fault found among the first `n` registrations is still the first one
/// when more registrations are looked at.
pub proof fn fault_stays(entries: Seq<SystemEntry>, n: nat, more: nat)
    requires
        n <= more,
        first_fault(entries, n) is Some,
    ensures
        first_fault(entries, more) == first_fault(entries, n),
    decreases more,
{
    if n < more {
        fault_stays(entries, n, (more - 1) as nat);
    }
}

/// Where the registrations give a plan, none of them is at fault.
pub proof fn no_fault_anywhere(entries: Seq<SystemEntry>, n: nat, i: int)
    requires
        first_fault(entries, n) is None,
        0 <= i < n,
    ensures
        entry_fault(entries, i) is None,
    decreases n,
{
    if i < n - 1 {
        no_fault_anywhere(entries, (n - 1) as nat, i);
    }
}

/// Where a registration has no missing system among its first `k`
/// constraints, each of them names a system registered before it.
pub proof fn nothing_missing(entries: Seq<SystemEntry>, i: int, k: nat, m: int)
    requires
        first_missing(entries, i, k) is None,
        0 <= m < k,
    ensures
        registered_before(entries, i, entries[i].after@[m]),
    decreases k,
{
    if m < k - 1 {
        nothing_missing(entries, i, (k - 1) as nat, m);
    }
}

/// In a plan every system runs after those it must run after: whatever
/// registration `i` names as its `m`-th constraint stands at an earlier
/// place of the plan.
pub proof fn dependencies_run_first(entries: Seq<SystemEntry>, i: int, m: int)
    requires
        first_fault(entries, entries.len()) is None,
        0 <= i < entries.len(),
        0 <= m < entries[i].after@.len(),
    ensures
        exists|j: int|
            0 <= j < i && #[trigger] ids_of(entries, entries.len())[j] == entries[i].after@[m],
{
    no_fault_anywhere(entries, entries.len(), i);
    nothing_missing(entries, i, entries[i].after@.len(), m);
    ids_of_is_pointwise(entries, entries.len());
    let j = choose|j: int|
        0 <= j < i && j < entries.len() && (#[trigger] entries[j]).id == entries[i].after@[m];
    assert(ids_of(entries, entries.len())[j] == entries[i].after@[m]);
}

/// Whether the registrations at the places `chain` hang together: each
/// must run after the next.
pub open spec fn is_chain(entries: Seq<SystemEntry>, chain: Seq<int>) -> bool {
    &&& chain.len() >= 1
    &&& forall|t: int| 0 <= t < chain.len() ==> 0 <= #[trigger] chain[t] < entries.len()
    &&& forall|t: int|
        0 <= t < chain.len() - 1 ==> (#[trigger] entries[chain[t]]).after@.contains(
            entries[chain[t + 1]].id,
        )
}

/// The stages of the first registrations do not depend on how many more
/// registrations there are.
pub proof fn stages_are_settled(entries: Seq<SystemEntry>, n: nat, k: int)
    requires
        0 <= k < n,
    ensures
        stages_of(entries, n).len() == n,
        stages_of(entries, n)[k] == stages_of(entries, (k + 1) as nat)[k],
    decreases n,
{
    stages_have_length(entries, n);
    if k < n - 1 {
        stages_are_settled(entries, (n - 1) as nat, k);
        stages_have_length(entries, (n - 1) as nat);
    }
}

/// There is one stage for each registration.
pub proof fn stages_have_length(entries: Seq<SystemEntry>, n: nat)
    ensures
        stages_of(entries, n).len() == n,
    decreases n,
{
    if n > 0 {
        stages_have_length(entries, (n - 1) as nat);
    }
}

/// The stage found for a registration lies after the stage of every
/// registration looked at that it has to wait for.
pub proof fn stage_after_is_later(
    entries: Seq<SystemEntry>,
    stages: Seq<usize>,
    i: int,
    j_end: nat,
    j: int,
)
    requires
        0 <= j < j_end,
        must_wait(entries, i, j),
    ensures
        stages[j] < stage_after(entries, stages, i, j_end),
    decreases j_end,
{
    if j < j_end - 1 {
        stage_after_is_later(entries, stages, i, (j_end - 1) as nat, j);
    }
}

/// No stage is later than the place of its registration.
pub proof fn stages_are_small(entries: Seq<SystemEntry>, n: nat, k: int)
    requires
        0 <= k < n,
        n <= usize::MAX,
    ensures
        stages_of(entries, n)[k] <= k,
    decreases n,
{
    stages_have_length(entries, (n - 1) as nat);
    if k < n - 1 {
        stages_are_small(entries, (n - 1) as nat, k);
    } else {
        let earlier = stages_of(entries, (n - 1) as nat);
        assert forall|m: int| 0 <= m < n - 1 implies #[trigger] earlier[m] <= m by {
            stages_are_small(entries, (n - 1) as nat, m);
        }
        stage_after_is_small(entries, earlier, n - 1, (n - 1) as nat);
    }
}

/// The stage found for a registration is no later than the number of
/// registrations looked at.
pub proof fn stage_after_is_small(entries: Seq<SystemEntry>, stages: Seq<usize>, i: int, j_end: nat)
    requires
        j_end <= stages.len(),
        forall|m: int| 0 <= m < j_end ==> #[trigger] stages[m] <= m,
    ensures
        stage_after(entries, stages, i, j_end) <= j_end,
    decreases j_end,
{
    if j_end > 0 {
        stage_after_is_small(entries, stages, i, (j_end - 1) as nat);
        assert(stages[j_end - 1] <= j_end - 1);
    }
}

/// A system waits for what it has to wait for: where registration `i` must
/// run after the earlier registration `j`, or the two may not run at the
/// same time, `i` is in a later stage than `j`.
pub proof fn later_stage_for_those_that_wait(entries: Seq<SystemEntry>, i: int, j: int)
    requires
        0 <= j < i < entries.len() <= usize::MAX,
        must_wait(entries, i, j),
    ensures
        stages_of(entries, entries.len())[j] < stages_of(entries, entries.len())[i],
{
    let n = entries.len();
    let earlier = stages_of(entries, i as nat);
    stages_are_settled(entries, n, i);
    stages_are_settled(entries, n, j);
    stages_are_settled(entries, i as nat, j);
    stages_have_length(entries, i as nat);
    stage_after_is_later(entries, earlier, i, i as nat, j);
    assert forall|m: int| 0 <= m < i implies #[trigger] earlier[m] <= m by {
        stages_are_small(entries, i as nat, m);
    }
    stage_after_is_small(entries, earlier, i, i as nat);
    assert(stages_of(entries, (i + 1) as nat)[i] == stage_after(entries, earlier, i, i as nat) as usize);
}

/// Systems of one stage may run at the same time: in a plan two different
/// registrations in the same stage do not conflict, and neither must run
/// after the other.
pub proof fn one_stage_runs_together(entries: Seq<SystemEntry>, i: int, j: int)
    requires
        first_fault(entries, entries.len()) is None,
        0 <= i < entries.len() <= usize::MAX,
        0 <= j < entries.len(),
        i != j,
        stages_of(entries, entries.len())[i] == stages_of(entries, entries.len())[j],
    ensures
        !conflict(entries[i].id, entries[j].id),
        !entries[i].after@.contains(entries[j].id),
        !entries[j].after@.contains(entries[i].id),
{
    conflict_is_symmetric(entries[i].id, entries[j].id);
    if entries[i].after@.contains(entries[j].id) {
        constraint_leads_back(entries, i, j);
    }
    if entries[j].after@.contains(entries[i].id) {
        constraint_leads_back(entries, j, i);
    }
    if j < i {
        if must_wait(entries, i, j) {
            later_stage_for_those_that_wait(entries, i, j);
        }
    } else {
        if must_wait(entries, j, i) {
            later_stage_for_those_that_wait(entries, j, i);
        }
    }
}

/// In a plan a system is registered after those it must run after.
pub proof fn constraint_leads_back(entries: Seq<SystemEntry>, from: int, to: int)
    requires
        first_fault(entries, entries.len()) is None,
        0 <= from < entries.len(),
        0 <= to < entries.len(),
        entries[from].after@.contains(entries[to].id),
    ensures
        to < from,
{
    let m = choose|m: int|
        0 <= m < entries[from].after@.len() && entries[from].after@[m] == entries[to].id;
    no_fault_anywhere(entries, entries.len(), from);
    nothing_missing(entries, from, entries[from].after@.len(), m);
    let j = choose|j: int|
        0 <= j < from && j < entries.len() && (#[trigger] entries[j]).id == entries[to].id;
    if to >= from {
        no_fault_anywhere(entries, entries.len(), to);
        assert(registered_before(entries, to, entries[to].id));
    }
}

/// In a plan, following the constraints leads to ever earlier
/// registrations.
pub proof fn chains_lead_back(entries: Seq<SystemEntry>, chain: Seq<int>, t: int)
    requires
        first_fault(entries, entries.len()) is None,
        is_chain(entries, chain),
        0 <= t < chain.len(),
    ensures
        chain[t] <= chain[0] - t,
    decreases t,
{
    if t > 0 {
        chains_lead_back(entries, chain, t - 1);
        assert(entries[chain[t - 1]].after@.contains(entries[chain[t]].id));
        constraint_leads_back(entries, chain[t - 1], chain[t]);
    }
}

/// Constraints that run in a circle give no plan: where the registrations
/// at the places `chain` each must run after the next, and the last after
/// the first, the registrations are refused.
pub proof fn circles_are_refused(entries: Seq<SystemEntry>, chain: Seq<int>)
    requires
        is_chain(entries, chain),
        entries[chain.last()].after@.contains(entries[chain[0]].id),
    ensures
        first_fault(entries, entries.len()) is Some,
{
    if first_fault(entries, entries.len()) is None {
        chains_lead_back(entries, chain, chain.len() - 1);
        constraint_leads_back(entries, chain.last(), chain[0]);
    }
}

} // verus!
