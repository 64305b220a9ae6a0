//! The record that is kept of one container.

use crate::annotations::Annotations;
use crate::status::ContainerStatus;
use vstd::prelude::*;

verus! {

/// What the runtime reports of a container when its record is refreshed.
#[derive(Clone, Copy, Debug, PartialEq, Eq, Structural)]
pub struct Observed {
    pub status: ContainerStatus,
    pub pid: Option<i32>,
    pub created_at: Option<u64>,
}

/// The record of one container: who it is, where it stands, and what was
/// set while it was made.
#[derive(Debug)]
pub struct Container {
    id: String,
    status: ContainerStatus,
    pid: Option<i32>,
    bundle_path: String,
    state_dir: String,
    created_at: Option<u64>,
    use_systemd_cgroups: bool,
    annotations: Annotations,
}

/// A container's record as a value of mathematics.
pub struct ContainerView {
    pub id: Seq<char>,
    pub status: ContainerStatus,
    pub pid: Option<i32>,
    pub bundle_path: Seq<char>,
    pub state_dir: Seq<char>,
    pub created_at: Option<u64>,
    pub use_systemd_cgroups: bool,
    pub annotations: Map<Seq<char>, Seq<char>>,
}

impl View for Container {
    type V = ContainerView;

    closed spec fn view(&self) -> ContainerView {
        ContainerView {
            id: self.id@,
            status: self.status,
            pid: self.pid,
            bundle_path: self.bundle_path@,
            state_dir: self.state_dir@,
            created_at: self.created_at,
            use_systemd_cgroups: self.use_systemd_cgroups,
            annotations: self.annotations@,
        }
    }
}

impl ContainerView {
    /// A record as it is when it is first made: no time of creation, the
    /// systemd flag off, no annotations.
    pub open spec fn fresh(
        id: Seq<char>,
        status: ContainerStatus,
        pid: Option<i32>,
        bundle_path: Seq<char>,
        state_dir: Seq<char>,
    ) -> ContainerView {
        ContainerView {
            id,
            status,
            pid,
            bundle_path,
            state_dir,
            created_at: None,
            use_systemd_cgroups: false,
            annotations: Map::empty(),
        }
    }

    /// Whether a refresh may take the record to what was observed: the
    /// observed status is not `Creating`, and the record's status leads to
    /// it.
    pub open spec fn accepts(self, observed: Observed) -> bool {
        observed.status != ContainerStatus::Creating && self.status.spec_leads_to(
            observed.status,
        )
    }

    /// The record after a refresh: as observed where the observation is
    /// accepted, unchanged where it is not.
    pub open spec fn refreshed(self, observed: Observed) -> ContainerView {
        if self.accepts(observed) {
            ContainerView {
                status: observed.status,
                pid: observed.pid,
                created_at: observed.created_at,
                ..self
            }
        } else {
            self
        }
    }
}

impl Container {
    /// A new record.
    pub fn new(
        container_id: &str,
        status: ContainerStatus,
        pid: Option<i32>,
        bundle: &str,
        container_root: &str,
    ) -> (container: Container)
        ensures
            container@ == ContainerView::fresh(
                container_id@,
                status,
                pid,
                bundle@,
                container_root@,
            ),
    {
        Container {
            id: container_id.to_owned(),
            status,
            pid,
            bundle_path: bundle.to_owned(),
            state_dir: container_root.to_owned(),
            created_at: None,
            use_systemd_cgroups: false,
            annotations: Annotations::new(),
        }
    }

    /// The container's id.
    pub fn id(&self) -> (id: &str)
        ensures
            id@ == self@.id,
    {
        self.id.as_str()
    }

    /// Where the container stands in its life cycle.
    pub fn status(&self) -> (status: ContainerStatus)
        ensures
            status == self@.status,
    {
        self.status
    }

    /// The init process, once there is one.
    pub fn pid(&self) -> (pid: Option<i32>)
        ensures
            pid == self@.pid,
    {
        self.pid
    }

    /// The bundle that the container was made from.
    pub fn bundle_path(&self) -> (path: &str)
        ensures
            path@ == self@.bundle_path,
    {
        self.bundle_path.as_str()
    }

    /// The directory that holds the container's state.
    pub fn state_dir(&self) -> (path: &str)
        ensures
            path@ == self@.state_dir,
    {
        self.state_dir.as_str()
    }

    /// When the container was created, in seconds since 1970, once known.
    pub fn created_at(&self) -> (at: Option<u64>)
        ensures
            at == self@.created_at,
    {
        self.created_at
    }

    /// Whether systemd manages the container's cgroups.
    pub fn systemd(&self) -> (flag: bool)
        ensures
            flag == self@.use_systemd_cgroups,
    {
        self.use_systemd_cgroups
    }

    /// The container's annotations.
    pub fn annotations(&self) -> (annotations: &Annotations)
        ensures
            annotations@ == self@.annotations,
    {
        &self.annotations
    }

    /// Sets whether systemd manages the container's cgroups.
    pub fn set_systemd(&mut self, should_use: bool)
        ensures
            final(self)@ == (ContainerView { use_systemd_cgroups: should_use, ..old(self)@ }),
    {
        self.use_systemd_cgroups = should_use;
    }

    /// Replaces the container's annotations.
    pub fn set_annotations(&mut self, annotations: Annotations)
        ensures
            final(self)@ == (ContainerView { annotations: annotations@, ..old(self)@ }),
    {
        self.annotations = annotations;
    }

    /// Takes over what the runtime reports of the container, where the life
    /// cycle allows it; says whether it did.
    pub fn refresh_state(&mut self, observed: Observed) -> (accepted: bool)
        ensures
            accepted == old(self)@.accepts(observed),
            final(self)@ == old(self)@.refreshed(observed),
    {
        if observed.status != ContainerStatus::Creating && self.status.leads_to(observed.status) {
            self.status = observed.status;
            self.pid = observed.pid;
            self.created_at = observed.created_at;
            true
        } else {
            false
        }
    }
}

impl Clone for Container {
    fn clone(&self) -> (copy: Container)
        ensures
            copy@ == self@,
    {
        Container {
            id: self.id.clone(),
            status: self.status,
            pid: self.pid,
            bundle_path: self.bundle_path.clone(),
            state_dir: self.state_dir.clone(),
            created_at: self.created_at,
            use_systemd_cgroups: self.use_systemd_cgroups,
            annotations: self.annotations.clone(),
        }
    }
}

} // verus!
