//! Running a container without the host's root privileges.

use vstd::prelude::*;

verus! {

/// A range of user or group ids of the container and the range of the host
/// that stands for it.
#[derive(Clone, Copy, Debug, PartialEq, Eq, Structural)]
pub struct IdMapping {
    pub container_id: u32,
    pub host_id: u32,
    pub size: u32,
}

/// What a container that runs rootless needs: the mappings of its user
/// namespace.
#[derive(Debug)]
pub struct RootlessConfig {
    pub uid_mappings: Vec<IdMapping>,
    pub gid_mappings: Vec<IdMapping>,
}

/// The mappings of a user namespace as a value of mathematics.
pub struct RootlessView {
    pub uid_mappings: Seq<IdMapping>,
    pub gid_mappings: Seq<IdMapping>,
}

impl View for RootlessConfig {
    type V = RootlessView;

    open spec fn view(&self) -> RootlessView {
        RootlessView { uid_mappings: self.uid_mappings@, gid_mappings: self.gid_mappings@ }
    }
}

/// An optional rootless decision as a value of mathematics.
pub open spec fn rootless_of(decision: Option<RootlessConfig>) -> Option<RootlessView> {
    match decision {
        Some(rootless) => Some(rootless@),
        None => None,
    }
}

fn copy_mappings(mappings: &Vec<IdMapping>) -> (copy: Vec<IdMapping>)
    ensures
        copy@ == mappings@,
{
    let mut copy: Vec<IdMapping> = Vec::new();
    let mut i: usize = 0;
    while i < mappings.len()
        invariant
            i <= mappings.len(),
            copy@ == mappings@.subrange(0, i as int),
        decreases mappings.len() - i,
    {
        copy.push(mappings[i]);
        assert(copy@ =~= mappings@.subrange(0, i as int + 1));
        i += 1;
    }
    assert(copy@ =~= mappings@);
    copy
}

impl Clone for RootlessConfig {
    fn clone(&self) -> (copy: RootlessConfig)
        ensures
            copy@ == self@,
    {
        RootlessConfig {
            uid_mappings: copy_mappings(&self.uid_mappings),
            gid_mappings: copy_mappings(&self.gid_mappings),
        }
    }
}

/// A copy of an optional rootless decision.
pub fn copy_rootless(decision: &Option<RootlessConfig>) -> (copy: Option<RootlessConfig>)
    ensures
        rootless_of(copy) == rootless_of(*decision),
{
    match decision {
        Some(rootless) => Some(rootless.clone()),
        None => None,
    }
}

} // verus!
