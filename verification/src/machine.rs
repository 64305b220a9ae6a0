//! A build as it runs: it is told the outcome of the work it asked for, and
//! asks for the next.

use crate::builder::{InitContainerBuilder, SyscallType};
use crate::container::{Container, Observed};
use crate::error::{BuildError, ErrorKind};
use crate::model::{ActionView, BackendInputsView, BuildView, EventView, Phase};
use crate::paths::{copy_text, join_path, text_of, CONSOLE_SOCKET, NOTIFY_FILE};
use crate::rootless::{copy_rootless, rootless_of, RootlessConfig};
use crate::runtime::RuntimeSpec;
use vstd::prelude::*;

verus! {

/// The outcome of the work that a build asked for last.
#[derive(Debug)]
pub enum Event {
    /// The runtime configuration was read.
    SpecLoaded(RuntimeSpec),
    /// The host said whether AppArmor is active.
    ApparmorProbed(bool),
    /// The root file system's path was made absolute.
    RootfsCanonicalized(String),
    /// The container's directory does not exist.
    DirAbsent,
    /// The container's directory exists.
    DirExists,
    /// The container's directory was created.
    DirCreated,
    /// The container's state was written.
    StateSaved,
    /// The working directory is the container's directory.
    DirChanged,
    /// The root file system's path was resolved.
    RootfsResolved(String),
    /// The console socket is open, under this descriptor.
    ConsoleSocketReady(i32),
    /// Rootless mode was worked out.
    RootlessResolved(Option<RootlessConfig>),
    /// The container's configuration was derived and written.
    ConfigSaved,
    /// The init process is up and has reported that it is ready.
    ContainerCreated,
    /// The runtime was asked where the container stands.
    StateRefreshed(Observed),
    /// The work failed; the words say why.
    Failed(String),
}

impl View for Event {
    type V = EventView;

    open spec fn view(&self) -> EventView {
        match self {
            Event::SpecLoaded(spec) => EventView::SpecLoaded(spec@),
            Event::ApparmorProbed(enabled) => EventView::ApparmorProbed(*enabled),
            Event::RootfsCanonicalized(path) => EventView::RootfsCanonicalized(path@),
            Event::DirAbsent => EventView::DirAbsent,
            Event::DirExists => EventView::DirExists,
            Event::DirCreated => EventView::DirCreated,
            Event::StateSaved => EventView::StateSaved,
            Event::DirChanged => EventView::DirChanged,
            Event::RootfsResolved(path) => EventView::RootfsResolved(path@),
            Event::ConsoleSocketReady(fd) => EventView::ConsoleSocketReady(*fd),
            Event::RootlessResolved(rootless) => EventView::RootlessResolved(
                rootless_of(*rootless),
            ),
            Event::ConfigSaved => EventView::ConfigSaved,
            Event::ContainerCreated => EventView::ContainerCreated,
            Event::StateRefreshed(observed) => EventView::StateRefreshed(*observed),
            Event::Failed(cause) => EventView::Failed(cause@),
        }
    }
}

/// What the process that is brought up is.
#[derive(Clone, Copy, Debug, PartialEq, Eq, Structural)]
pub enum ContainerType {
    /// The first process of a new container.
    InitContainer,
    /// A further process that joins a container.
    TenantContainer,
}

/// What is handed to the backend that brings up the init process.
#[derive(Debug)]
pub struct BackendInputs {
    pub container_type: ContainerType,
    pub syscall: SyscallType,
    pub container_id: String,
    pub pid_file: Option<String>,
    pub console_socket: Option<i32>,
    pub use_systemd: bool,
    pub rootfs: String,
    pub rootless: Option<RootlessConfig>,
    pub notify_path: String,
    pub container: Container,
    pub preserve_fds: i32,
    /// Whether the container runs detached from the caller. A build is not
    /// told this yet, and says that it does not.
    pub detached: bool,
}

impl View for BackendInputs {
    type V = BackendInputsView;

    open spec fn view(&self) -> BackendInputsView {
        BackendInputsView {
            container_type: self.container_type,
            syscall: self.syscall,
            container_id: self.container_id@,
            pid_file: text_of(self.pid_file),
            console_socket: self.console_socket,
            use_systemd: self.use_systemd,
            rootfs: self.rootfs@,
            rootless: rootless_of(self.rootless),
            notify_path: self.notify_path@,
            container: self.container@,
            preserve_fds: self.preserve_fds,
            detached: self.detached,
        }
    }
}

/// The work that a build asks for next.
#[derive(Debug)]
pub enum Action {
    /// Read the runtime configuration from this file.
    LoadSpec { path: String },
    /// Find out whether AppArmor is active on the host.
    ProbeApparmor,
    /// Make the root file system's path absolute, relative to the bundle.
    CanonicalizeRootfs { bundle: String, rootfs: String },
    /// Find out whether this directory exists.
    ProbeDir { dir: String },
    /// Create this directory and the missing ones above it.
    CreateDir { dir: String },
    /// Write this record to the container's directory.
    SaveState { container: Container },
    /// Make this directory the working directory.
    ChangeDir { dir: String },
    /// Resolve this path of the root file system.
    ResolveRootfs { path: String },
    /// Open the console socket and link it under `name` in `dir`.
    SetUpConsoleSocket { dir: String, socket: String, name: &'static str },
    /// Work out whether the container runs rootless.
    ResolveRootless,
    /// Derive the container's configuration and write it to `dir`.
    SaveConfig { dir: String, container_id: String, rootless: bool },
    /// Bring up the init process.
    CreateContainer { inputs: BackendInputs },
    /// Ask the runtime where the container stands.
    RefreshState,
    /// The build is done: this is the container.
    Finish { container: Container },
    /// The build has failed.
    Fail { error: BuildError },
}

impl View for Action {
    type V = ActionView;

    open spec fn view(&self) -> ActionView {
        match self {
            Action::LoadSpec { path } => ActionView::LoadSpec { path: path@ },
            Action::ProbeApparmor => ActionView::ProbeApparmor,
            Action::CanonicalizeRootfs { bundle, rootfs } => ActionView::CanonicalizeRootfs {
                bundle: bundle@,
                rootfs: rootfs@,
            },
            Action::ProbeDir { dir } => ActionView::ProbeDir { dir: dir@ },
            Action::CreateDir { dir } => ActionView::CreateDir { dir: dir@ },
            Action::SaveState { container } => ActionView::SaveState { container: container@ },
            Action::ChangeDir { dir } => ActionView::ChangeDir { dir: dir@ },
            Action::ResolveRootfs { path } => ActionView::ResolveRootfs { path: path@ },
            Action::SetUpConsoleSocket { dir, socket, name } => ActionView::SetUpConsoleSocket {
                dir: dir@,
                socket: socket@,
                name: name@,
            },
            Action::ResolveRootless => ActionView::ResolveRootless,
            Action::SaveConfig { dir, container_id, rootless } => ActionView::SaveConfig {
                dir: dir@,
                container_id: container_id@,
                rootless: *rootless,
            },
            Action::CreateContainer { inputs } => ActionView::CreateContainer { inputs: inputs@ },
            Action::RefreshState => ActionView::RefreshState,
            Action::Finish { container } => ActionView::Finish { container: container@ },
            Action::Fail { error } => ActionView::Fail { error: error@ },
        }
    }
}

/// The state of a build.
#[derive(Debug)]
pub struct Build {
    builder: InitContainerBuilder,
    phase: Phase,
    spec: Option<RuntimeSpec>,
    rootfs: Option<String>,
    container: Option<Container>,
    console_socket: Option<i32>,
    rootless: Option<RootlessConfig>,
    error: Option<BuildError>,
}

impl View for Build {
    type V = BuildView;

    closed spec fn view(&self) -> BuildView {
        BuildView {
            builder: self.builder@,
            phase: self.phase,
            spec: match self.spec {
                Some(spec) => Some(spec@),
                None => None,
            },
            rootfs: text_of(self.rootfs),
            container: match self.container {
                Some(container) => Some(container@),
                None => None,
            },
            console_socket: self.console_socket,
            rootless: rootless_of(self.rootless),
            error: match self.error {
                Some(error) => Some(error@),
                None => None,
            },
        }
    }
}

impl Build {
    /// The state in which the build of a container begins.
    pub(crate) fn begin(builder: InitContainerBuilder) -> (build: Build)
        ensures
            build@ == BuildView::start(builder@).0,
    {
        Build {
            builder,
            phase: Phase::LoadingSpec,
            spec: None,
            rootfs: None,
            container: None,
            console_socket: None,
            rootless: None,
            error: None,
        }
    }

    /// The step that the build waits in.
    pub fn phase(&self) -> (phase: Phase)
        ensures
            phase == self@.phase,
    {
        self.phase
    }

    fn ready(&self) -> (ready: bool)
        ensures
            ready == self@.ready(),
    {
        match self.phase {
            Phase::LoadingSpec => true,
            Phase::ProbingApparmor | Phase::CanonicalizingRootfs => self.spec.is_some(),
            Phase::ProbingDir | Phase::CreatingDir => true,
            Phase::SavingState => self.spec.is_some() && self.container.is_some(),
            Phase::ChangingDir => self.rootfs.is_some(),
            Phase::ResolvingRootfs | Phase::SettingUpConsole | Phase::ResolvingRootless => true,
            Phase::SavingConfig => self.rootfs.is_some() && self.container.is_some(),
            Phase::CreatingContainer => true,
            Phase::Refreshing | Phase::SavingRefreshed | Phase::Done => self.container.is_some(),
            Phase::Failed => self.error.is_some(),
        }
    }

    fn fail(self, error: BuildError) -> (next: (Build, Action))
        ensures
            (next.0@, next.1@) == self@.fail(error@),
    {
        let reported = error.clone();
        (Build { phase: Phase::Failed, error: Some(error), ..self }, Action::Fail { error: reported })
    }

    fn fail_with(self, kind: ErrorKind, detail: String) -> (next: (Build, Action))
        ensures
            (next.0@, next.1@) == self@.fail_with(kind, detail@),
    {
        self.fail(BuildError { kind, detail })
    }

    fn unexpected(self) -> (next: (Build, Action))
        ensures
            (next.0@, next.1@) == self@.fail_with(ErrorKind::UnexpectedEvent, Seq::empty()),
    {
        self.fail_with(ErrorKind::UnexpectedEvent, String::new())
    }

    fn wait_in(self, phase: Phase) -> (next: Build)
        ensures
            next@ == self@.wait_in(phase),
    {
        Build { phase, ..self }
    }

    fn container_copy(&self) -> (copy: Container)
        requires
            self@.container.is_some(),
        ensures
            copy@ == self@.container->0,
    {
        self.container.as_ref().unwrap().clone()
    }

    fn backend_inputs(&self) -> (inputs: BackendInputs)
        requires
            self@.rootfs.is_some(),
            self@.container.is_some(),
        ensures
            inputs@ == self@.backend_inputs(),
    {
        let dir = self.builder.container_dir();
        let rootfs = self.rootfs.as_ref().unwrap().clone();
        BackendInputs {
            container_type: ContainerType::InitContainer,
            syscall: self.builder.base().syscall,
            container_id: self.builder.base().container_id.clone(),
            pid_file: copy_text(&self.builder.base().pid_file),
            console_socket: self.console_socket,
            use_systemd: self.builder.use_systemd(),
            rootfs,
            rootless: copy_rootless(&self.rootless),
            notify_path: join_path(dir.as_str(), NOTIFY_FILE),
            container: self.container_copy(),
            preserve_fds: self.builder.base().preserve_fds,
            detached: false,
        }
    }

    fn spec_loaded(self, spec: RuntimeSpec) -> (next: (Build, Action))
        requires
            self@.phase == Phase::LoadingSpec,
        ensures
            (next.0@, next.1@) == self@.step(EventView::SpecLoaded(spec@)),
    {
        let outcome = InitContainerBuilder::validate_spec(&spec, true);
        let asks_for_profile = spec.apparmor_profile().is_some();
        let loaded = Build { spec: Some(spec), ..self };
        match outcome {
            Err(error) => loaded.fail(error),
            Ok(_) => if asks_for_profile {
                (loaded.wait_in(Phase::ProbingApparmor), Action::ProbeApparmor)
            } else {
                loaded.validated()
            },
        }
    }

    fn apparmor_probed(self, enabled: bool) -> (next: (Build, Action))
        requires
            self@.phase == Phase::ProbingApparmor,
            self@.spec.is_some(),
        ensures
            (next.0@, next.1@) == self@.step(EventView::ApparmorProbed(enabled)),
    {
        let outcome = InitContainerBuilder::validate_spec(self.spec.as_ref().unwrap(), enabled);
        match outcome {
            Err(error) => self.fail(error),
            Ok(_) => self.validated(),
        }
    }

    fn validated(self) -> (next: (Build, Action))
        requires
            self@.spec.is_some(),
        ensures
            (next.0@, next.1@) == self@.validated(),
    {
        let root = match &self.spec.as_ref().unwrap().root {
            Some(root) => Some(root.path.clone()),
            None => None,
        };
        match root {
            Some(rootfs) => {
                let bundle = self.builder.bundle().to_owned();
                (
                    self.wait_in(Phase::CanonicalizingRootfs),
                    Action::CanonicalizeRootfs { bundle, rootfs },
                )
            },
            None => self.fail_with(ErrorKind::MissingRoot, String::new()),
        }
    }

    fn dir_probed(self, exists: bool) -> (next: (Build, Action))
        requires
            self@.phase == Phase::ProbingDir || (self@.phase == Phase::CreatingDir && exists),
        ensures
            (next.0@, next.1@) == self@.step(
                if exists {
                    EventView::DirExists
                } else {
                    EventView::DirAbsent
                },
            ),
    {
        match self.builder.create_container_dir(exists) {
            Err(error) => self.fail(error),
            Ok(dir) => (self.wait_in(Phase::CreatingDir), Action::CreateDir { dir }),
        }
    }

    fn dir_created(self) -> (next: (Build, Action))
        requires
            self@.phase == Phase::CreatingDir,
        ensures
            (next.0@, next.1@) == self@.step(EventView::DirCreated),
    {
        let dir = self.builder.container_dir();
        let container = self.builder.create_container_state(dir.as_str());
        let snapshot = container.clone();
        (
            Build { phase: Phase::SavingState, container: Some(container), ..self },
            Action::SaveState { container: snapshot },
        )
    }

    fn state_saved(self) -> (next: (Build, Action))
        requires
            self@.phase == Phase::SavingState,
            self@.ready(),
        ensures
            (next.0@, next.1@) == self@.step(EventView::StateSaved),
    {
        let annotations = self.spec.as_ref().unwrap().annotations.clone();
        let use_systemd = self.builder.use_systemd();
        let dir = self.builder.container_dir();
        let mut container = self.container_copy();
        container.set_systemd(use_systemd);
        container.set_annotations(annotations);
        (
            Build { phase: Phase::ChangingDir, container: Some(container), ..self },
            Action::ChangeDir { dir },
        )
    }

    fn rootfs_resolved(self, path: String) -> (next: (Build, Action))
        requires
            self@.phase == Phase::ResolvingRootfs,
        ensures
            (next.0@, next.1@) == self@.step(EventView::RootfsResolved(path@)),
    {
        let socket = copy_text(&self.builder.base().console_socket);
        let resolved = Build { rootfs: Some(path), ..self };
        match socket {
            Some(socket) => {
                let dir = resolved.builder.container_dir();
                (
                    resolved.wait_in(Phase::SettingUpConsole),
                    Action::SetUpConsoleSocket { dir, socket, name: CONSOLE_SOCKET },
                )
            },
            None => (resolved.wait_in(Phase::ResolvingRootless), Action::ResolveRootless),
        }
    }

    fn rootless_resolved(self, rootless: Option<RootlessConfig>) -> (next: (Build, Action))
        requires
            self@.phase == Phase::ResolvingRootless,
        ensures
            (next.0@, next.1@) == self@.step(EventView::RootlessResolved(rootless_of(rootless))),
    {
        let action = Action::SaveConfig {
            dir: self.builder.container_dir(),
            container_id: self.builder.base().container_id.clone(),
            rootless: rootless.is_some(),
        };
        (Build { phase: Phase::SavingConfig, rootless, ..self }, action)
    }

    fn refreshed(self, observed: Observed) -> (next: (Build, Action))
        requires
            self@.phase == Phase::Refreshing,
            self@.ready(),
        ensures
            (next.0@, next.1@) == self@.step(EventView::StateRefreshed(observed)),
    {
        let mut container = self.container_copy();
        if container.refresh_state(observed) {
            let snapshot = container.clone();
            (
                Build { phase: Phase::SavingRefreshed, container: Some(container), ..self },
                Action::SaveState { container: snapshot },
            )
        } else {
            self.fail_with(ErrorKind::Refresh, String::new())
        }
    }

    /// Takes the outcome of the work that was asked for last, and says what
    /// to do next. An outcome that the build was not waiting for ends it.
    pub fn step(self, event: Event) -> (next: (Build, Action))
        ensures
            (next.0@, next.1@) == self@.step(event@),
    {
        if !self.ready() {
            return self.unexpected();
        }
        match self.phase {
            Phase::Done => {
                let container = self.container_copy();
                (self, Action::Finish { container })
            },
            Phase::Failed => {
                let error = self.error.as_ref().unwrap().clone();
                (self, Action::Fail { error })
            },
            Phase::LoadingSpec => match event {
                Event::SpecLoaded(spec) => self.spec_loaded(spec),
                Event::Failed(cause) => self.fail_with(ErrorKind::SpecLoad, cause),
                _ => self.unexpected(),
            },
            Phase::ProbingApparmor => match event {
                Event::ApparmorProbed(enabled) => self.apparmor_probed(enabled),
                Event::Failed(cause) => self.fail_with(ErrorKind::ApparmorProbe, cause),
                _ => self.unexpected(),
            },
            Phase::CanonicalizingRootfs => match event {
                Event::RootfsCanonicalized(path) => {
                    let dir = self.builder.container_dir();
                    (
                        Build { phase: Phase::ProbingDir, rootfs: Some(path), ..self },
                        Action::ProbeDir { dir },
                    )
                },
                Event::Failed(cause) => self.fail_with(ErrorKind::CanonicalizeRootfs, cause),
                _ => self.unexpected(),
            },
            Phase::ProbingDir => match event {
                Event::DirAbsent => self.dir_probed(false),
                Event::DirExists => self.dir_probed(true),
                Event::Failed(cause) => self.fail_with(ErrorKind::CreateDir, cause),
                _ => self.unexpected(),
            },
            Phase::CreatingDir => match event {
                Event::DirCreated => self.dir_created(),
                Event::DirExists => self.dir_probed(true),
                Event::Failed(cause) => self.fail_with(ErrorKind::CreateDir, cause),
                _ => self.unexpected(),
            },
            Phase::SavingState => match event {
                Event::StateSaved => self.state_saved(),
                Event::Failed(cause) => self.fail_with(ErrorKind::SaveState, cause),
                _ => self.unexpected(),
            },
            Phase::ChangingDir => match event {
                Event::DirChanged => {
                    let path = self.rootfs.as_ref().unwrap().clone();
                    (self.wait_in(Phase::ResolvingRootfs), Action::ResolveRootfs { path })
                },
                Event::Failed(cause) => self.fail_with(ErrorKind::ChangeDir, cause),
                _ => self.unexpected(),
            },
            Phase::ResolvingRootfs => match event {
                Event::RootfsResolved(path) => self.rootfs_resolved(path),
                Event::Failed(cause) => self.fail_with(ErrorKind::ResolveRootfs, cause),
                _ => self.unexpected(),
            },
            Phase::SettingUpConsole => match event {
                Event::ConsoleSocketReady(fd) => (
                    Build { phase: Phase::ResolvingRootless, console_socket: Some(fd), ..self },
                    Action::ResolveRootless,
                ),
                Event::Failed(cause) => self.fail_with(ErrorKind::ConsoleSocket, cause),
                _ => self.unexpected(),
            },
            Phase::ResolvingRootless => match event {
                Event::RootlessResolved(rootless) => self.rootless_resolved(rootless),
                Event::Failed(cause) => self.fail_with(ErrorKind::Rootless, cause),
                _ => self.unexpected(),
            },
            Phase::SavingConfig => match event {
                Event::ConfigSaved => {
                    let inputs = self.backend_inputs();
                    (self.wait_in(Phase::CreatingContainer), Action::CreateContainer { inputs })
                },
                Event::Failed(cause) => self.fail_with(ErrorKind::SaveConfig, cause),
                _ => self.unexpected(),
            },
            Phase::CreatingContainer => match event {
                Event::ContainerCreated => (
                    self.wait_in(Phase::Refreshing),
                    Action::RefreshState,
                ),
                Event::Failed(cause) => self.fail_with(ErrorKind::Backend, cause),
                _ => self.unexpected(),
            },
            Phase::Refreshing => match event {
                Event::StateRefreshed(observed) => self.refreshed(observed),
                Event::Failed(cause) => self.fail_with(ErrorKind::Refresh, cause),
                _ => self.unexpected(),
            },
            Phase::SavingRefreshed => match event {
                Event::StateSaved => {
                    let container = self.container_copy();
                    (self.wait_in(Phase::Done), Action::Finish { container })
                },
                Event::Failed(cause) => self.fail_with(ErrorKind::Refresh, cause),
                _ => self.unexpected(),
            },
        }
    }
}

} // verus!
