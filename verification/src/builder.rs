//! What is asked of a new container, and the decisions of its build that
//! need nothing but that.

use crate::container::{Container, ContainerView};
use crate::error::{BuildError, BuildErrorView, ErrorKind};
use crate::machine::{Action, Build};
use crate::model::{spec_validate, ActionView, BuildView, ContainerBuilderView, InitBuilderView};
use crate::paths::{copy_text, join_path, text_of, CONFIG_FILE};
use crate::runtime::{version_supported, RuntimeSpec};
use crate::status::ContainerStatus;
use vstd::prelude::*;

verus! {

/// How the init process is spawned.
#[derive(Clone, Copy, Debug, PartialEq, Eq, Structural)]
pub enum SyscallType {
    /// By the system calls of Linux.
    Linux,
    /// By stand-ins that record what they were asked.
    Test,
}

/// What is asked of every container, of whatever type.
#[derive(Debug)]
pub struct ContainerBuilder {
    /// The container's id, which names its directory.
    pub container_id: String,
    /// The directory under which all containers keep their state.
    pub root_path: String,
    /// How the init process is spawned.
    pub syscall: SyscallType,
    /// The file that receives the init process's pid, if any.
    pub pid_file: Option<String>,
    /// The socket that receives the console, if any.
    pub console_socket: Option<String>,
    /// How many more file descriptors the init process keeps.
    pub preserve_fds: i32,
}

impl View for ContainerBuilder {
    type V = ContainerBuilderView;

    open spec fn view(&self) -> ContainerBuilderView {
        ContainerBuilderView {
            container_id: self.container_id@,
            root_path: self.root_path@,
            syscall: self.syscall,
            pid_file: text_of(self.pid_file),
            console_socket: text_of(self.console_socket),
            preserve_fds: self.preserve_fds,
        }
    }
}

/// What is asked of a new container: what is asked of every container, the
/// bundle it is made from, and whether systemd manages its cgroups.
#[derive(Debug)]
pub struct InitContainerBuilder {
    base: ContainerBuilder,
    bundle: String,
    use_systemd: bool,
}

impl View for InitContainerBuilder {
    type V = InitBuilderView;

    closed spec fn view(&self) -> InitBuilderView {
        InitBuilderView { base: self.base@, bundle: self.bundle@, use_systemd: self.use_systemd }
    }
}

impl InitContainerBuilder {
    /// A builder for the container of `bundle`. systemd manages the cgroups
    /// unless `with_systemd` switches it off.
    pub fn new(builder: ContainerBuilder, bundle: String) -> (init: InitContainerBuilder)
        ensures
            init@ == (InitBuilderView { base: builder@, bundle: bundle@, use_systemd: true }),
    {
        InitContainerBuilder { base: builder, bundle, use_systemd: true }
    }

    /// Sets whether systemd manages the cgroups.
    pub fn with_systemd(self, should_use: bool) -> (init: InitContainerBuilder)
        ensures
            init@ == (InitBuilderView { use_systemd: should_use, ..self@ }),
    {
        InitContainerBuilder { base: self.base, bundle: self.bundle, use_systemd: should_use }
    }

    /// What is asked of the container as of every container.
    pub fn base(&self) -> (base: &ContainerBuilder)
        ensures
            base@ == self@.base,
    {
        &self.base
    }

    /// The bundle that the container is made from.
    pub fn bundle(&self) -> (bundle: &str)
        ensures
            bundle@ == self@.bundle,
    {
        self.bundle.as_str()
    }

    /// Whether systemd manages the cgroups.
    pub fn use_systemd(&self) -> (flag: bool)
        ensures
            flag == self@.use_systemd,
    {
        self.use_systemd
    }

    /// Begins the build of the container: the state in which it begins, and
    /// the work it asks for first.
    pub fn build(self) -> (started: (Build, Action))
        ensures
            (started.0@, started.1@) == BuildView::start(self@),
    {
        let first = self.load_spec();
        (Build::begin(self), first)
    }

    /// The directory that holds the container's state.
    pub fn container_dir(&self) -> (dir: String)
        ensures
            dir@ == self@.container_dir(),
    {
        join_path(self.base.root_path.as_str(), self.base.container_id.as_str())
    }

    /// Decides on the container's directory once it is known whether there
    /// is one already: a container that exists is not made again.
    pub fn create_container_dir(&self, exists: bool) -> (dir: Result<String, BuildError>)
        ensures
            dir.is_err() == exists,
            dir matches Ok(path) ==> path@ == self@.container_dir(),
            dir matches Err(error) ==> error@ == (BuildErrorView {
                kind: ErrorKind::AlreadyExists,
                detail: self@.base.container_id,
            }),
    {
        if exists {
            Err(
                BuildError {
                    kind: ErrorKind::AlreadyExists,
                    detail: self.base.container_id.clone(),
                },
            )
        } else {
            Ok(self.container_dir())
        }
    }

    /// Asks for the bundle's runtime configuration.
    pub fn load_spec(&self) -> (action: Action)
        ensures
            action@ == (ActionView::LoadSpec { path: self@.spec_path() }),
    {
        Action::LoadSpec { path: join_path(self.bundle.as_str(), CONFIG_FILE) }
    }

    /// Decides whether a runtime configuration can be used on a host where
    /// AppArmor is active or not.
    pub fn validate_spec(spec: &RuntimeSpec, apparmor_enabled: bool) -> (outcome: Result<
        (),
        BuildError,
    >)
        ensures
            outcome.is_ok() == spec_validate(spec@, apparmor_enabled).is_ok(),
            outcome matches Err(error) ==> spec_validate(spec@, apparmor_enabled) == Err::<
                (),
                BuildErrorView,
            >(error@),
    {
        if !version_supported(spec.version.as_str()) {
            return Err(
                BuildError { kind: ErrorKind::IncompatibleVersion, detail: spec.version.clone() },
            );
        }
        if let Some(profile) = spec.apparmor_profile() {
            if !apparmor_enabled {
                return Err(
                    BuildError { kind: ErrorKind::ApparmorNotActivated, detail: profile.clone() },
                );
            }
        }
        Ok(())
    }

    /// The record of the container as it is first written: `Creating`,
    /// without a pid.
    pub fn create_container_state(&self, container_dir: &str) -> (container: Container)
        ensures
            container@ == ContainerView::fresh(
                self@.base.container_id,
                ContainerStatus::Creating,
                None,
                self@.bundle,
                container_dir@,
            ),
    {
        Container::new(
            self.base.container_id.as_str(),
            ContainerStatus::Creating,
            None,
            self.bundle.as_str(),
            container_dir,
        )
    }
}

impl Clone for ContainerBuilder {
    fn clone(&self) -> (copy: ContainerBuilder)
        ensures
            copy@ == self@,
    {
        ContainerBuilder {
            container_id: self.container_id.clone(),
            root_path: self.root_path.clone(),
            syscall: self.syscall,
            pid_file: copy_text(&self.pid_file),
            console_socket: copy_text(&self.console_socket),
            preserve_fds: self.preserve_fds,
        }
    }
}

} // verus!
