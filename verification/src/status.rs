//! The life cycle of a container.

use vstd::prelude::*;

verus! {

/// Where a container stands in its life cycle.
#[derive(Clone, Copy, Debug, PartialEq, Eq, Structural)]
pub enum ContainerStatus {
    /// The record exists, the init process has not been reported ready.
    Creating,
    /// The init process is ready and waits to be started.
    Created,
    /// The container's process runs.
    Running,
    /// The container's process has ended.
    Stopped,
    /// The container's process is frozen.
    Paused,
}

impl ContainerStatus {
    /// One move of the life cycle: `Creating` to `Created` to `Running` to
    /// `Stopped`, and between `Running` and `Paused` in both directions.
    pub open spec fn spec_can_move_to(self, next: ContainerStatus) -> bool {
        match (self, next) {
            (ContainerStatus::Creating, ContainerStatus::Created) => true,
            (ContainerStatus::Created, ContainerStatus::Running) => true,
            (ContainerStatus::Running, ContainerStatus::Stopped) => true,
            (ContainerStatus::Running, ContainerStatus::Paused) => true,
            (ContainerStatus::Paused, ContainerStatus::Running) => true,
            _ => false,
        }
    }

    /// Whether `later` is `self` or can be reached from it by moves of the
    /// life cycle.
    pub open spec fn spec_leads_to(self, later: ContainerStatus) -> bool {
        match self {
            ContainerStatus::Creating => true,
            ContainerStatus::Created => later != ContainerStatus::Creating,
            ContainerStatus::Running | ContainerStatus::Paused => {
                later != ContainerStatus::Creating && later != ContainerStatus::Created
            },
            ContainerStatus::Stopped => later == ContainerStatus::Stopped,
        }
    }

    /// Whether one move of the life cycle leads from `self` to `next`.
    #[verifier::when_used_as_spec(spec_can_move_to)]
    pub fn can_move_to(self, next: ContainerStatus) -> (allowed: bool)
        ensures
            allowed == self.spec_can_move_to(next),
    {
        match (self, next) {
            (ContainerStatus::Creating, ContainerStatus::Created) => true,
            (ContainerStatus::Created, ContainerStatus::Running) => true,
            (ContainerStatus::Running, ContainerStatus::Stopped) => true,
            (ContainerStatus::Running, ContainerStatus::Paused) => true,
            (ContainerStatus::Paused, ContainerStatus::Running) => true,
            _ => false,
        }
    }

    /// Whether `later` is `self` or can be reached from it.
    #[verifier::when_used_as_spec(spec_leads_to)]
    pub fn leads_to(self, later: ContainerStatus) -> (reachable: bool)
        ensures
            reachable == self.spec_leads_to(later),
    {
        match self {
            ContainerStatus::Creating => true,
            ContainerStatus::Created => later != ContainerStatus::Creating,
            ContainerStatus::Running | ContainerStatus::Paused => {
                later != ContainerStatus::Creating && later != ContainerStatus::Created
            },
            ContainerStatus::Stopped => later == ContainerStatus::Stopped,
        }
    }
}

/// A walk through the life cycle: each status is followed by one that a
/// single move reaches.
pub open spec fn is_walk(walk: Seq<ContainerStatus>) -> bool {
    forall|i: int|
        0 <= i < walk.len() - 1 ==> (#[trigger] walk[i]).spec_can_move_to(walk[i + 1])
}

/// No move of the life cycle enters `Creating`, and `Creating` is the only
/// status that no move enters.
pub proof fn lemma_creating_is_the_sole_start(status: ContainerStatus)
    ensures
        (forall|before: ContainerStatus| !before.spec_can_move_to(status)) <==> status
            == ContainerStatus::Creating,
{
    match status {
        ContainerStatus::Creating => {},
        ContainerStatus::Created => {
            assert(ContainerStatus::Creating.spec_can_move_to(status));
        },
        ContainerStatus::Running => {
            assert(ContainerStatus::Created.spec_can_move_to(status));
        },
        ContainerStatus::Stopped => {
            assert(ContainerStatus::Running.spec_can_move_to(status));
        },
        ContainerStatus::Paused => {
            assert(ContainerStatus::Running.spec_can_move_to(status));
        },
    }
}

/// Every walk through the life cycle ends in a status that its first status
/// leads to.
pub proof fn lemma_walk_stays_within_reach(walk: Seq<ContainerStatus>)
    requires
        walk.len() > 0,
        is_walk(walk),
    ensures
        walk.first().spec_leads_to(walk.last()),
    decreases walk.len(),
{
    if walk.len() > 1 {
        let shorter = walk.drop_last();
        assert forall|i: int| 0 <= i < shorter.len() - 1 implies (#[trigger] shorter[i])
            .spec_can_move_to(shorter[i + 1]) by {
            assert(walk[i].spec_can_move_to(walk[i + 1]));
        }
        lemma_walk_stays_within_reach(shorter);
        let n = walk.len() as int;
        assert(walk[n - 2].spec_can_move_to(walk[n - 2 + 1]));
        assert(shorter.last() == walk[n - 2]);
        assert(shorter.first() == walk.first());
    }
}

/// Whatever a status leads to is the end of some walk that starts at it.
pub proof fn lemma_reach_has_a_walk(from: ContainerStatus, to: ContainerStatus) -> (walk: Seq<
    ContainerStatus,
>)
    requires
        from.spec_leads_to(to),
    ensures
        walk.len() > 0,
        walk.first() == from,
        walk.last() == to,
        is_walk(walk),
{
    let creating = ContainerStatus::Creating;
    let created = ContainerStatus::Created;
    let running = ContainerStatus::Running;
    let paused = ContainerStatus::Paused;
    let stopped = ContainerStatus::Stopped;
    let full = seq![creating, created, running, paused, running, stopped];
    assert(is_walk(full));
    // The walk from `from` to `to` is a stretch of `full`.
    let start: int = match from {
        ContainerStatus::Creating => 0,
        ContainerStatus::Created => 1,
        ContainerStatus::Running => if to == paused { 2 } else { 4 },
        ContainerStatus::Paused => 3,
        ContainerStatus::Stopped => 5,
    };
    let end: int = match to {
        ContainerStatus::Creating => 0,
        ContainerStatus::Created => 1,
        ContainerStatus::Running => if from == paused || from == running { 4 } else { 2 },
        ContainerStatus::Paused => 3,
        ContainerStatus::Stopped => 5,
    };
    let walk = full.subrange(start, end + 1);
    assert forall|i: int| 0 <= i < walk.len() - 1 implies (#[trigger] walk[i]).spec_can_move_to(
        walk[i + 1],
    ) by {
        assert(full[start + i].spec_can_move_to(full[start + i + 1]));
    }
    walk
}

} // verus!
