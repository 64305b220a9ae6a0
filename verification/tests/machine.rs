use libcontainer::annotations::Annotations;
use libcontainer::builder::{ContainerBuilder, InitContainerBuilder, SyscallType};
use libcontainer::container::Observed;
use libcontainer::error::{ErrorClass, ErrorKind};
use libcontainer::machine::{Action, Build, ContainerType, Event};
use libcontainer::model::Phase;
use libcontainer::rootless::{IdMapping, RootlessConfig};
use libcontainer::runtime::{Process, Root, RuntimeSpec};
use libcontainer::status::ContainerStatus;

fn c1() -> InitContainerBuilder {
    InitContainerBuilder::new(
        ContainerBuilder {
            container_id: "c1".to_string(),
            root_path: "/run/containers".to_string(),
            syscall: SyscallType::Linux,
            pid_file: None,
            console_socket: None,
            preserve_fds: 0,
        },
        "/bundles/c1".to_string(),
    )
}

fn minimal(version: &str) -> RuntimeSpec {
    let mut annotations = Annotations::new();
    annotations.insert("org.example.owner".to_string(), "alice".to_string());
    annotations.insert("org.example.tier".to_string(), "db".to_string());
    RuntimeSpec {
        version: version.to_string(),
        root: Some(Root { path: "rootfs".to_string(), readonly: false }),
        process: None,
        annotations,
    }
}

fn with_profile(version: &str, profile: &str) -> RuntimeSpec {
    let mut spec = minimal(version);
    spec.process = Some(Process { apparmor_profile: Some(profile.to_string()) });
    spec
}

fn created() -> Observed {
    Observed { status: ContainerStatus::Created, pid: Some(42), created_at: Some(1_700_000_000) }
}

/// Tells a build the outcomes one after the other; gives the state it ends
/// in and all the work it asked for.
fn drive(builder: InitContainerBuilder, events: Vec<Event>) -> (Build, Vec<Action>) {
    let (mut build, first) = builder.build();
    let mut actions = vec![first];
    for event in events {
        let (next, action) = build.step(event);
        build = next;
        actions.push(action);
    }
    (build, actions)
}

fn alters(action: &Action) -> bool {
    matches!(
        action,
        Action::CreateDir { .. }
            | Action::SaveState { .. }
            | Action::ChangeDir { .. }
            | Action::SetUpConsoleSocket { .. }
            | Action::SaveConfig { .. }
            | Action::CreateContainer { .. }
    )
}

fn smooth(spec: RuntimeSpec) -> Vec<Event> {
    vec![
        Event::SpecLoaded(spec),
        Event::RootfsCanonicalized("/bundles/c1/rootfs".to_string()),
        Event::DirAbsent,
        Event::DirCreated,
        Event::StateSaved,
        Event::DirChanged,
        Event::RootfsResolved("/mnt/bundles/c1/rootfs".to_string()),
        Event::RootlessResolved(None),
        Event::ConfigSaved,
        Event::ContainerCreated,
        Event::StateRefreshed(created()),
        Event::StateSaved,
    ]
}

#[test]
fn build_of_a_minimal_spec_succeeds() {
    let (build, actions) = drive(c1(), smooth(minimal("1.0.2")));
    assert_eq!(build.phase(), Phase::Done);
    assert_eq!(actions.len(), 13);
    match &actions[0] {
        Action::LoadSpec { path } => assert_eq!(path, "/bundles/c1/config.json"),
        other => panic!("{:?}", other),
    }
    match &actions[1] {
        Action::CanonicalizeRootfs { bundle, rootfs } => {
            assert_eq!(bundle, "/bundles/c1");
            assert_eq!(rootfs, "rootfs");
        }
        other => panic!("{:?}", other),
    }
    match &actions[2] {
        Action::ProbeDir { dir } => assert_eq!(dir, "/run/containers/c1"),
        other => panic!("{:?}", other),
    }
    match &actions[3] {
        Action::CreateDir { dir } => assert_eq!(dir, "/run/containers/c1"),
        other => panic!("{:?}", other),
    }
    match &actions[4] {
        Action::SaveState { container } => {
            assert_eq!(container.id(), "c1");
            assert_eq!(container.status(), ContainerStatus::Creating);
            assert_eq!(container.pid(), None);
            assert_eq!(container.bundle_path(), "/bundles/c1");
            assert_eq!(container.state_dir(), "/run/containers/c1");
        }
        other => panic!("{:?}", other),
    }
    match &actions[5] {
        Action::ChangeDir { dir } => assert_eq!(dir, "/run/containers/c1"),
        other => panic!("{:?}", other),
    }
    match &actions[6] {
        Action::ResolveRootfs { path } => assert_eq!(path, "/bundles/c1/rootfs"),
        other => panic!("{:?}", other),
    }
    assert!(matches!(actions[7], Action::ResolveRootless));
    match &actions[8] {
        Action::SaveConfig { dir, container_id, rootless } => {
            assert_eq!(dir, "/run/containers/c1");
            assert_eq!(container_id, "c1");
            assert!(!rootless);
        }
        other => panic!("{:?}", other),
    }
    match &actions[9] {
        Action::CreateContainer { inputs } => {
            assert_eq!(inputs.container_type, ContainerType::InitContainer);
            assert_eq!(inputs.syscall, SyscallType::Linux);
            assert_eq!(inputs.container_id, "c1");
            assert_eq!(inputs.pid_file, None);
            assert_eq!(inputs.console_socket, None);
            assert!(inputs.use_systemd);
            assert_eq!(inputs.rootfs, "/mnt/bundles/c1/rootfs");
            assert!(inputs.rootless.is_none());
            assert_eq!(inputs.notify_path, "/run/containers/c1/notify.sock");
            assert_eq!(inputs.container.id(), "c1");
            assert_eq!(inputs.container.status(), ContainerStatus::Creating);
            assert!(inputs.container.systemd());
            assert_eq!(inputs.preserve_fds, 0);
            assert!(!inputs.detached);
        }
        other => panic!("{:?}", other),
    }
    assert!(matches!(actions[10], Action::RefreshState));
    match &actions[11] {
        Action::SaveState { container } => {
            assert_eq!(container.status(), ContainerStatus::Created);
            assert_eq!(container.pid(), Some(42));
        }
        other => panic!("{:?}", other),
    }
    match &actions[12] {
        Action::Finish { container } => {
            assert_eq!(container.id(), "c1");
            assert_eq!(container.status(), ContainerStatus::Created);
            assert_eq!(container.pid(), Some(42));
            assert_eq!(container.created_at(), Some(1_700_000_000));
            assert_eq!(container.bundle_path(), "/bundles/c1");
            assert_eq!(container.state_dir(), "/run/containers/c1");
        }
        other => panic!("{:?}", other),
    }
}

#[test]
fn build_fails_where_the_container_exists() {
    let (build, actions) = drive(
        c1(),
        vec![
            Event::SpecLoaded(minimal("1.0.2")),
            Event::RootfsCanonicalized("/bundles/c1/rootfs".to_string()),
            Event::DirExists,
        ],
    );
    assert_eq!(build.phase(), Phase::Failed);
    match actions.last().unwrap() {
        Action::Fail { error } => {
            assert_eq!(error.kind, ErrorKind::AlreadyExists);
            assert_eq!(error.kind.class(), ErrorClass::Conflict);
            assert_eq!(error.detail, "c1");
        }
        other => panic!("{:?}", other),
    }
    assert!(actions.iter().all(|action| !alters(action)));
}

#[test]
fn build_fails_for_version_0_9() {
    let (build, actions) = drive(c1(), vec![Event::SpecLoaded(minimal("0.9"))]);
    assert_eq!(build.phase(), Phase::Failed);
    assert_eq!(actions.len(), 2);
    match &actions[1] {
        Action::Fail { error } => {
            assert_eq!(error.kind, ErrorKind::IncompatibleVersion);
            assert_eq!(error.detail, "0.9");
        }
        other => panic!("{:?}", other),
    }
    assert!(actions.iter().all(|action| !matches!(action, Action::CreateDir { .. })));
    assert!(actions.iter().all(|action| !alters(action)));
}

#[test]
fn build_fails_for_a_profile_without_apparmor() {
    let (build, actions) = drive(
        c1(),
        vec![Event::SpecLoaded(with_profile("1.0.2", "docker-default")), Event::ApparmorProbed(false)],
    );
    assert_eq!(build.phase(), Phase::Failed);
    assert!(matches!(actions[1], Action::ProbeApparmor));
    match &actions[2] {
        Action::Fail { error } => {
            assert_eq!(error.kind, ErrorKind::ApparmorNotActivated);
            assert_eq!(error.detail, "docker-default");
        }
        other => panic!("{:?}", other),
    }
    assert!(actions.iter().all(|action| !alters(action)));
}

#[test]
fn build_goes_on_for_a_profile_with_apparmor() {
    let (build, actions) = drive(
        c1(),
        vec![Event::SpecLoaded(with_profile("1.0.2", "docker-default")), Event::ApparmorProbed(true)],
    );
    assert_eq!(build.phase(), Phase::CanonicalizingRootfs);
    assert!(matches!(actions[2], Action::CanonicalizeRootfs { .. }));
}

#[test]
fn host_is_not_asked_about_apparmor_without_a_profile() {
    let (build, actions) = drive(c1(), vec![Event::SpecLoaded(minimal("1.0.2"))]);
    assert_eq!(build.phase(), Phase::CanonicalizingRootfs);
    assert!(actions.iter().all(|action| !matches!(action, Action::ProbeApparmor)));
}

#[test]
fn state_is_saved_as_creating_before_the_backend_runs() {
    let (_, actions) = drive(c1(), smooth(minimal("1.0.2")));
    let backend = actions
        .iter()
        .position(|action| matches!(action, Action::CreateContainer { .. }))
        .unwrap();
    let saved = actions
        .iter()
        .position(|action| match action {
            Action::SaveState { container } => container.status() == ContainerStatus::Creating,
            _ => false,
        })
        .unwrap();
    assert!(saved < backend);
    let config = actions.iter().position(|action| matches!(action, Action::SaveConfig { .. })).unwrap();
    assert_eq!(config + 1, backend);
}

#[test]
fn failed_build_repeats_its_error() {
    let first = drive(c1(), vec![Event::SpecLoaded(minimal("0.9"))]);
    let second = drive(c1(), vec![Event::SpecLoaded(minimal("0.9")), Event::DirAbsent]);
    let kind = |actions: &Vec<Action>| match actions.last().unwrap() {
        Action::Fail { error } => (error.kind, error.kind.class(), error.detail.clone()),
        other => panic!("{:?}", other),
    };
    assert_eq!(kind(&first.1), kind(&second.1));
    assert_eq!(kind(&first.1).1, ErrorClass::Configuration);
    assert_eq!(second.0.phase(), Phase::Failed);
}

#[test]
fn finished_container_matches_the_builder() {
    for use_systemd in [false, true] {
        let (_, actions) = drive(c1().with_systemd(use_systemd), smooth(minimal("1.0.2")));
        let container = match actions.last().unwrap() {
            Action::Finish { container } => container.clone(),
            other => panic!("{:?}", other),
        };
        assert_eq!(container.id(), "c1");
        assert_eq!(container.bundle_path(), "/bundles/c1");
        assert_eq!(container.systemd(), use_systemd);
        let mut pairs = container.annotations().to_pairs();
        pairs.sort();
        let mut wanted = minimal("1.0.2").annotations.to_pairs();
        wanted.sort();
        assert_eq!(pairs, wanted);
        assert_eq!(pairs.len(), 2);
        match &actions[actions.len() - 2] {
            Action::SaveState { container: written } => {
                assert_eq!(written.id(), container.id());
                assert_eq!(written.status(), container.status());
                assert_eq!(written.systemd(), container.systemd());
                assert_eq!(written.pid(), container.pid());
            }
            other => panic!("{:?}", other),
        }
    }
}

#[test]
fn console_socket_is_set_up_where_one_is_named() {
    let builder = InitContainerBuilder::new(
        ContainerBuilder {
            container_id: "c1".to_string(),
            root_path: "/run/containers".to_string(),
            syscall: SyscallType::Test,
            pid_file: Some("/run/c1.pid".to_string()),
            console_socket: Some("/tmp/console.sock".to_string()),
            preserve_fds: 3,
        },
        "/bundles/c1".to_string(),
    );
    let mut events = smooth(minimal("1.0.2"));
    events.insert(7, Event::ConsoleSocketReady(11));
    let (build, actions) = drive(builder, events);
    assert_eq!(build.phase(), Phase::Done);
    match &actions[7] {
        Action::SetUpConsoleSocket { dir, socket, name } => {
            assert_eq!(dir, "/run/containers/c1");
            assert_eq!(socket, "/tmp/console.sock");
            assert_eq!(*name, "console-socket");
        }
        other => panic!("{:?}", other),
    }
    match &actions[10] {
        Action::CreateContainer { inputs } => {
            assert_eq!(inputs.console_socket, Some(11));
            assert_eq!(inputs.pid_file, Some("/run/c1.pid".to_string()));
            assert_eq!(inputs.preserve_fds, 3);
            assert_eq!(inputs.syscall, SyscallType::Test);
        }
        other => panic!("{:?}", other),
    }
}

#[test]
fn rootless_decision_reaches_config_and_backend() {
    let mapping = IdMapping { container_id: 0, host_id: 1000, size: 1 };
    let mut events = smooth(minimal("1.0.2"));
    events[7] = Event::RootlessResolved(Some(RootlessConfig {
        uid_mappings: vec![mapping],
        gid_mappings: vec![mapping, IdMapping { container_id: 1, host_id: 100000, size: 65536 }],
    }));
    let (_, actions) = drive(c1(), events);
    match &actions[8] {
        Action::SaveConfig { rootless, .. } => assert!(*rootless),
        other => panic!("{:?}", other),
    }
    match &actions[9] {
        Action::CreateContainer { inputs } => {
            let rootless = inputs.rootless.as_ref().unwrap();
            assert_eq!(rootless.uid_mappings, vec![mapping]);
            assert_eq!(rootless.gid_mappings.len(), 2);
            assert_eq!(rootless.gid_mappings[1].host_id, 100000);
        }
        other => panic!("{:?}", other),
    }
}

#[test]
fn spec_without_root_fails_before_anything_is_created() {
    let mut spec = minimal("1.0.2");
    spec.root = None;
    let (build, actions) = drive(c1(), vec![Event::SpecLoaded(spec)]);
    assert_eq!(build.phase(), Phase::Failed);
    match actions.last().unwrap() {
        Action::Fail { error } => assert_eq!(error.kind, ErrorKind::MissingRoot),
        other => panic!("{:?}", other),
    }
    assert!(actions.iter().all(|action| !alters(action)));
}

#[test]
fn directory_that_appears_during_creation_is_a_conflict() {
    let (build, actions) = drive(
        c1(),
        vec![
            Event::SpecLoaded(minimal("1.0.2")),
            Event::RootfsCanonicalized("/bundles/c1/rootfs".to_string()),
            Event::DirAbsent,
            Event::DirExists,
        ],
    );
    assert_eq!(build.phase(), Phase::Failed);
    match actions.last().unwrap() {
        Action::Fail { error } => {
            assert_eq!(error.kind, ErrorKind::AlreadyExists);
            assert_eq!(error.detail, "c1");
        }
        other => panic!("{:?}", other),
    }
    assert!(actions.iter().all(|action| !matches!(action, Action::SaveState { .. })));
}

#[test]
fn refresh_that_stays_in_creating_fails_the_build() {
    let mut events = smooth(minimal("1.0.2"));
    events[10] =
        Event::StateRefreshed(Observed { status: ContainerStatus::Creating, pid: None, created_at: None });
    events.truncate(11);
    let (build, actions) = drive(c1(), events);
    assert_eq!(build.phase(), Phase::Failed);
    match actions.last().unwrap() {
        Action::Fail { error } => {
            assert_eq!(error.kind, ErrorKind::Refresh);
            assert_eq!(error.kind.class(), ErrorClass::Refresh);
        }
        other => panic!("{:?}", other),
    }
}

#[test]
fn each_step_fails_with_its_own_error() {
    let wanted = [
        ErrorKind::SpecLoad,
        ErrorKind::CanonicalizeRootfs,
        ErrorKind::CreateDir,
        ErrorKind::CreateDir,
        ErrorKind::SaveState,
        ErrorKind::ChangeDir,
        ErrorKind::ResolveRootfs,
        ErrorKind::Rootless,
        ErrorKind::SaveConfig,
        ErrorKind::Backend,
        ErrorKind::Refresh,
        ErrorKind::Refresh,
    ];
    for (n, kind) in wanted.iter().enumerate() {
        let mut events = smooth(minimal("1.0.2"));
        events.truncate(n);
        events.push(Event::Failed(format!("cause {}", n)));
        let (build, actions) = drive(c1(), events);
        assert_eq!(build.phase(), Phase::Failed);
        match actions.last().unwrap() {
            Action::Fail { error } => {
                assert_eq!(error.kind, *kind, "after {} outcomes", n);
                assert_eq!(error.detail, format!("cause {}", n));
            }
            other => panic!("{:?}", other),
        }
    }
}

#[test]
fn apparmor_and_console_failures_have_their_own_errors() {
    let (_, actions) = drive(
        c1(),
        vec![Event::SpecLoaded(with_profile("1.0.2", "p")), Event::Failed("no sysfs".to_string())],
    );
    match actions.last().unwrap() {
        Action::Fail { error } => {
            assert_eq!(error.kind, ErrorKind::ApparmorProbe);
            assert_eq!(error.detail, "no sysfs");
        }
        other => panic!("{:?}", other),
    }
    let builder = InitContainerBuilder::new(
        ContainerBuilder {
            container_id: "c1".to_string(),
            root_path: "/run/containers".to_string(),
            syscall: SyscallType::Test,
            pid_file: None,
            console_socket: Some("/tmp/console.sock".to_string()),
            preserve_fds: 0,
        },
        "/bundles/c1".to_string(),
    );
    let mut events = smooth(minimal("1.0.2"));
    events.truncate(7);
    events.push(Event::Failed("refused".to_string()));
    let (_, actions) = drive(builder, events);
    match actions.last().unwrap() {
        Action::Fail { error } => assert_eq!(error.kind, ErrorKind::ConsoleSocket),
        other => panic!("{:?}", other),
    }
}

#[test]
fn outcome_out_of_turn_ends_the_build() {
    let (build, actions) = drive(c1(), vec![Event::DirCreated]);
    assert_eq!(build.phase(), Phase::Failed);
    match actions.last().unwrap() {
        Action::Fail { error } => {
            assert_eq!(error.kind, ErrorKind::UnexpectedEvent);
            assert_eq!(error.kind.class(), ErrorClass::Protocol);
        }
        other => panic!("{:?}", other),
    }
}

#[test]
fn ended_build_stays_as_it_is() {
    let mut events = smooth(minimal("1.0.2"));
    events.push(Event::DirAbsent);
    events.push(Event::Failed("late".to_string()));
    let (build, actions) = drive(c1(), events);
    assert_eq!(build.phase(), Phase::Done);
    assert!(build.phase().is_final());
    for action in &actions[12..] {
        match action {
            Action::Finish { container } => assert_eq!(container.status(), ContainerStatus::Created),
            other => panic!("{:?}", other),
        }
    }
    assert!(!Phase::Refreshing.is_final());
}
