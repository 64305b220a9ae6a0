//! A build as a machine of mathematics: the state it is in, the outcomes it
//! is told of, and the work it asks for next.

use crate::builder::SyscallType;
use crate::container::{ContainerView, Observed};
use crate::error::{BuildErrorView, ErrorKind};
use crate::machine::ContainerType;
use crate::paths::{joined_path, CONFIG_FILE, CONSOLE_SOCKET, NOTIFY_FILE};
use crate::rootless::RootlessView;
use crate::runtime::{spec_version_supported, RuntimeSpecView};
use crate::status::ContainerStatus;
use vstd::prelude::*;

verus! {

/// What is asked of every container, of whatever type.
pub struct ContainerBuilderView {
    pub container_id: Seq<char>,
    pub root_path: Seq<char>,
    pub syscall: SyscallType,
    pub pid_file: Option<Seq<char>>,
    pub console_socket: Option<Seq<char>>,
    pub preserve_fds: i32,
}

/// What is asked of a new container.
pub struct InitBuilderView {
    pub base: ContainerBuilderView,
    pub bundle: Seq<char>,
    pub use_systemd: bool,
}

impl InitBuilderView {
    /// The file that holds the bundle's runtime configuration.
    pub open spec fn spec_path(self) -> Seq<char> {
        joined_path(self.bundle, CONFIG_FILE@)
    }

    /// The directory that holds the container's state.
    pub open spec fn container_dir(self) -> Seq<char> {
        joined_path(self.base.root_path, self.base.container_id)
    }

    /// The file over which the init process reports that it is ready.
    pub open spec fn notify_path(self) -> Seq<char> {
        joined_path(self.container_dir(), NOTIFY_FILE@)
    }

    /// The record of the container as it is first written.
    pub open spec fn initial_container(self) -> ContainerView {
        ContainerView::fresh(
            self.base.container_id,
            ContainerStatus::Creating,
            None,
            self.bundle,
            self.container_dir(),
        )
    }
}

/// Whether a runtime configuration can be used on a host where AppArmor is
/// active or not: it is rejected for its version unless that is 1.0.x, and
/// else for its AppArmor profile where it names one and AppArmor is not
/// active.
pub open spec fn spec_validate(spec: RuntimeSpecView, apparmor_enabled: bool) -> Result<
    (),
    BuildErrorView,
> {
    if !spec_version_supported(spec.version) {
        Err(BuildErrorView { kind: ErrorKind::IncompatibleVersion, detail: spec.version })
    } else if spec.apparmor_profile.is_some() && !apparmor_enabled {
        Err(
            BuildErrorView {
                kind: ErrorKind::ApparmorNotActivated,
                detail: spec.apparmor_profile->0,
            },
        )
    } else {
        Ok(())
    }
}

/// The step that a build waits in.
#[derive(Clone, Copy, Debug, PartialEq, Eq, Structural)]
pub enum Phase {
    LoadingSpec,
    ProbingApparmor,
    CanonicalizingRootfs,
    ProbingDir,
    CreatingDir,
    SavingState,
    ChangingDir,
    ResolvingRootfs,
    SettingUpConsole,
    ResolvingRootless,
    SavingConfig,
    CreatingContainer,
    Refreshing,
    SavingRefreshed,
    Done,
    Failed,
}

impl Phase {
    /// Whether the build is over.
    pub open spec fn spec_is_final(self) -> bool {
        self == Phase::Done || self == Phase::Failed
    }

    /// Whether the build is over.
    #[verifier::when_used_as_spec(spec_is_final)]
    pub fn is_final(self) -> (over: bool)
        ensures
            over == self.spec_is_final(),
    {
        self == Phase::Done || self == Phase::Failed
    }

    /// The error that a failure of the work gives, by the step that waits
    /// for the work.
    pub open spec fn failure_kind(self) -> ErrorKind {
        match self {
            Phase::LoadingSpec => ErrorKind::SpecLoad,
            Phase::ProbingApparmor => ErrorKind::ApparmorProbe,
            Phase::CanonicalizingRootfs => ErrorKind::CanonicalizeRootfs,
            Phase::ProbingDir | Phase::CreatingDir => ErrorKind::CreateDir,
            Phase::SavingState => ErrorKind::SaveState,
            Phase::ChangingDir => ErrorKind::ChangeDir,
            Phase::ResolvingRootfs => ErrorKind::ResolveRootfs,
            Phase::SettingUpConsole => ErrorKind::ConsoleSocket,
            Phase::ResolvingRootless => ErrorKind::Rootless,
            Phase::SavingConfig => ErrorKind::SaveConfig,
            Phase::CreatingContainer => ErrorKind::Backend,
            Phase::Refreshing | Phase::SavingRefreshed => ErrorKind::Refresh,
            Phase::Done | Phase::Failed => ErrorKind::UnexpectedEvent,
        }
    }
}

/// The outcome of the work that a build asked for last.
pub enum EventView {
    SpecLoaded(RuntimeSpecView),
    ApparmorProbed(bool),
    RootfsCanonicalized(Seq<char>),
    DirAbsent,
    DirExists,
    DirCreated,
    StateSaved,
    DirChanged,
    RootfsResolved(Seq<char>),
    ConsoleSocketReady(i32),
    RootlessResolved(Option<RootlessView>),
    ConfigSaved,
    ContainerCreated,
    StateRefreshed(Observed),
    Failed(Seq<char>),
}

/// What is handed to the backend that brings up the init process.
pub struct BackendInputsView {
    pub container_type: ContainerType,
    pub syscall: SyscallType,
    pub container_id: Seq<char>,
    pub pid_file: Option<Seq<char>>,
    pub console_socket: Option<i32>,
    pub use_systemd: bool,
    pub rootfs: Seq<char>,
    pub rootless: Option<RootlessView>,
    pub notify_path: Seq<char>,
    pub container: ContainerView,
    pub preserve_fds: i32,
    pub detached: bool,
}

/// The work that a build asks for next.
pub enum ActionView {
    LoadSpec { path: Seq<char> },
    ProbeApparmor,
    CanonicalizeRootfs { bundle: Seq<char>, rootfs: Seq<char> },
    ProbeDir { dir: Seq<char> },
    CreateDir { dir: Seq<char> },
    SaveState { container: ContainerView },
    ChangeDir { dir: Seq<char> },
    ResolveRootfs { path: Seq<char> },
    SetUpConsoleSocket { dir: Seq<char>, socket: Seq<char>, name: Seq<char> },
    ResolveRootless,
    SaveConfig { dir: Seq<char>, container_id: Seq<char>, rootless: bool },
    CreateContainer { inputs: BackendInputsView },
    RefreshState,
    Finish { container: ContainerView },
    Fail { error: BuildErrorView },
}

impl ActionView {
    /// Whether the work creates or changes anything outside the build: a
    /// directory, a file, a socket, the working directory or a process.
    pub open spec fn alters(self) -> bool {
        match self {
            ActionView::CreateDir { .. }
            | ActionView::SaveState { .. }
            | ActionView::ChangeDir { .. }
            | ActionView::SetUpConsoleSocket { .. }
            | ActionView::SaveConfig { .. }
            | ActionView::CreateContainer { .. } => true,
            _ => false,
        }
    }
}

/// The state of a build.
pub struct BuildView {
    pub builder: InitBuilderView,
    pub phase: Phase,
    pub spec: Option<RuntimeSpecView>,
    pub rootfs: Option<Seq<char>>,
    pub container: Option<ContainerView>,
    pub console_socket: Option<i32>,
    pub rootless: Option<RootlessView>,
    pub error: Option<BuildErrorView>,
}

impl BuildView {
    /// The state in which a build begins, and the work it asks for first.
    pub open spec fn start(builder: InitBuilderView) -> (BuildView, ActionView) {
        (
            BuildView {
                builder,
                phase: Phase::LoadingSpec,
                spec: None,
                rootfs: None,
                container: None,
                console_socket: None,
                rootless: None,
                error: None,
            },
            ActionView::LoadSpec { path: builder.spec_path() },
        )
    }

    /// Whether the state holds what its step reads.
    pub open spec fn ready(self) -> bool {
        match self.phase {
            Phase::LoadingSpec => true,
            Phase::ProbingApparmor | Phase::CanonicalizingRootfs => self.spec.is_some(),
            Phase::ProbingDir | Phase::CreatingDir => true,
            Phase::SavingState => self.spec.is_some() && self.container.is_some(),
            Phase::ChangingDir => self.rootfs.is_some(),
            Phase::ResolvingRootfs | Phase::SettingUpConsole | Phase::ResolvingRootless => true,
            Phase::SavingConfig => self.rootfs.is_some() && self.container.is_some(),
            Phase::CreatingContainer => true,
            Phase::Refreshing | Phase::SavingRefreshed | Phase::Done => self.container.is_some(),
            Phase::Failed => self.error.is_some(),
        }
    }

    /// The build fails.
    pub open spec fn fail(self, error: BuildErrorView) -> (BuildView, ActionView) {
        (
            BuildView { phase: Phase::Failed, error: Some(error), ..self },
            ActionView::Fail { error },
        )
    }

    /// The build fails at the step `kind`, for the reason `detail`.
    pub open spec fn fail_with(self, kind: ErrorKind, detail: Seq<char>) -> (
        BuildView,
        ActionView,
    ) {
        self.fail(BuildErrorView { kind, detail })
    }

    /// The build goes on to wait in `phase`.
    pub open spec fn wait_in(self, phase: Phase) -> BuildView {
        BuildView { phase, ..self }
    }

    /// What is handed to the backend.
    pub open spec fn backend_inputs(self) -> BackendInputsView {
        BackendInputsView {
            container_type: ContainerType::InitContainer,
            syscall: self.builder.base.syscall,
            container_id: self.builder.base.container_id,
            pid_file: self.builder.base.pid_file,
            console_socket: self.console_socket,
            use_systemd: self.builder.use_systemd,
            rootfs: self.rootfs->0,
            rootless: self.rootless,
            notify_path: self.builder.notify_path(),
            container: self.container->0,
            preserve_fds: self.builder.base.preserve_fds,
            detached: false,
        }
    }

    /// A runtime configuration has passed validation: its root file system
    /// is made absolute next, and it must name one.
    pub open spec fn validated(self) -> (BuildView, ActionView) {
        match self.spec->0.root {
            Some(root) => (
                self.wait_in(Phase::CanonicalizingRootfs),
                ActionView::CanonicalizeRootfs { bundle: self.builder.bundle, rootfs: root.path },
            ),
            None => self.fail_with(ErrorKind::MissingRoot, Seq::empty()),
        }
    }

    /// The root file system is known: the console socket is set up next if
    /// one was asked for, and else rootless mode is worked out.
    pub open spec fn rootfs_resolved(self) -> (BuildView, ActionView) {
        match self.builder.base.console_socket {
            Some(socket) => (
                self.wait_in(Phase::SettingUpConsole),
                ActionView::SetUpConsoleSocket {
                    dir: self.builder.container_dir(),
                    socket,
                    name: CONSOLE_SOCKET@,
                },
            ),
            None => (self.wait_in(Phase::ResolvingRootless), ActionView::ResolveRootless),
        }
    }

    /// The state after an outcome, and the work that is asked for next.
    pub open spec fn step(self, event: EventView) -> (BuildView, ActionView) {
        if !self.ready() {
            self.fail_with(ErrorKind::UnexpectedEvent, Seq::empty())
        } else {
            match (self.phase, event) {
                (Phase::Done, _) => (self, ActionView::Finish { container: self.container->0 }),
                (Phase::Failed, _) => (self, ActionView::Fail { error: self.error->0 }),
                (Phase::LoadingSpec, EventView::SpecLoaded(spec)) => {
                    let loaded = BuildView { spec: Some(spec), ..self };
                    match spec_validate(spec, true) {
                        Err(error) => loaded.fail(error),
                        Ok(_) => if spec.apparmor_profile.is_some() {
                            (loaded.wait_in(Phase::ProbingApparmor), ActionView::ProbeApparmor)
                        } else {
                            loaded.validated()
                        },
                    }
                },
                (Phase::LoadingSpec, EventView::Failed(cause)) => self.fail_with(
                    ErrorKind::SpecLoad,
                    cause,
                ),
                (Phase::ProbingApparmor, EventView::ApparmorProbed(enabled)) => {
                    match spec_validate(self.spec->0, enabled) {
                        Err(error) => self.fail(error),
                        Ok(_) => self.validated(),
                    }
                },
                (Phase::ProbingApparmor, EventView::Failed(cause)) => self.fail_with(
                    ErrorKind::ApparmorProbe,
                    cause,
                ),
                (Phase::CanonicalizingRootfs, EventView::RootfsCanonicalized(path)) => (
                    BuildView { phase: Phase::ProbingDir, rootfs: Some(path), ..self },
                    ActionView::ProbeDir { dir: self.builder.container_dir() },
                ),
                (Phase::CanonicalizingRootfs, EventView::Failed(cause)) => self.fail_with(
                    ErrorKind::CanonicalizeRootfs,
                    cause,
                ),
                (Phase::ProbingDir, EventView::DirAbsent) => (
                    self.wait_in(Phase::CreatingDir),
                    ActionView::CreateDir { dir: self.builder.container_dir() },
                ),
                (Phase::ProbingDir, EventView::DirExists)
                | (Phase::CreatingDir, EventView::DirExists) => self.fail_with(
                    ErrorKind::AlreadyExists,
                    self.builder.base.container_id,
                ),
                (Phase::ProbingDir, EventView::Failed(cause))
                | (Phase::CreatingDir, EventView::Failed(cause)) => self.fail_with(
                    ErrorKind::CreateDir,
                    cause,
                ),
                (Phase::CreatingDir, EventView::DirCreated) => {
                    let container = self.builder.initial_container();
                    (
                        BuildView {
                            phase: Phase::SavingState,
                            container: Some(container),
                            ..self
                        },
                        ActionView::SaveState { container },
                    )
                },
                (Phase::SavingState, EventView::StateSaved) => {
                    let container = ContainerView {
                        use_systemd_cgroups: self.builder.use_systemd,
                        annotations: self.spec->0.annotations,
                        ..self.container->0
                    };
                    (
                        BuildView {
                            phase: Phase::ChangingDir,
                            container: Some(container),
                            ..self
                        },
                        ActionView::ChangeDir { dir: self.builder.container_dir() },
                    )
                },
                (Phase::SavingState, EventView::Failed(cause)) => self.fail_with(
                    ErrorKind::SaveState,
                    cause,
                ),
                (Phase::ChangingDir, EventView::DirChanged) => (
                    self.wait_in(Phase::ResolvingRootfs),
                    ActionView::ResolveRootfs { path: self.rootfs->0 },
                ),
                (Phase::ChangingDir, EventView::Failed(cause)) => self.fail_with(
                    ErrorKind::ChangeDir,
                    cause,
                ),
                (Phase::ResolvingRootfs, EventView::RootfsResolved(path)) => (BuildView {
                    rootfs: Some(path),
                    ..self
                }).rootfs_resolved(),
                (Phase::ResolvingRootfs, EventView::Failed(cause)) => self.fail_with(
                    ErrorKind::ResolveRootfs,
                    cause,
                ),
                (Phase::SettingUpConsole, EventView::ConsoleSocketReady(fd)) => (
                    BuildView {
                        phase: Phase::ResolvingRootless,
                        console_socket: Some(fd),
                        ..self
                    },
                    ActionView::ResolveRootless,
                ),
                (Phase::SettingUpConsole, EventView::Failed(cause)) => self.fail_with(
                    ErrorKind::ConsoleSocket,
                    cause,
                ),
                (Phase::ResolvingRootless, EventView::RootlessResolved(rootless)) => (
                    BuildView { phase: Phase::SavingConfig, rootless, ..self },
                    ActionView::SaveConfig {
                        dir: self.builder.container_dir(),
                        container_id: self.builder.base.container_id,
                        rootless: rootless.is_some(),
                    },
                ),
                (Phase::ResolvingRootless, EventView::Failed(cause)) => self.fail_with(
                    ErrorKind::Rootless,
                    cause,
                ),
                (Phase::SavingConfig, EventView::ConfigSaved) => (
                    self.wait_in(Phase::CreatingContainer),
                    ActionView::CreateContainer { inputs: self.backend_inputs() },
                ),
                (Phase::SavingConfig, EventView::Failed(cause)) => self.fail_with(
                    ErrorKind::SaveConfig,
                    cause,
                ),
                (Phase::CreatingContainer, EventView::ContainerCreated) => (
                    self.wait_in(Phase::Refreshing),
                    ActionView::RefreshState,
                ),
                (Phase::CreatingContainer, EventView::Failed(cause)) => self.fail_with(
                    ErrorKind::Backend,
                    cause,
                ),
                (Phase::Refreshing, EventView::StateRefreshed(observed)) => {
                    if self.container->0.accepts(observed) {
                        let container = self.container->0.refreshed(observed);
                        (
                            BuildView {
                                phase: Phase::SavingRefreshed,
                                container: Some(container),
                                ..self
                            },
                            ActionView::SaveState { container },
                        )
                    } else {
                        self.fail_with(ErrorKind::Refresh, Seq::empty())
                    }
                },
                (Phase::Refreshing, EventView::Failed(cause))
                | (Phase::SavingRefreshed, EventView::Failed(cause)) => self.fail_with(
                    ErrorKind::Refresh,
                    cause,
                ),
                (Phase::SavingRefreshed, EventView::StateSaved) => (
                    self.wait_in(Phase::Done),
                    ActionView::Finish { container: self.container->0 },
                ),
                _ => self.fail_with(ErrorKind::UnexpectedEvent, Seq::empty()),
            }
        }
    }
}

} // verus!
