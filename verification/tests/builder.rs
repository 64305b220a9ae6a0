use libcontainer::annotations::Annotations;
use libcontainer::builder::{ContainerBuilder, InitContainerBuilder, SyscallType};
use libcontainer::error::ErrorKind;
use libcontainer::machine::Action;
use libcontainer::runtime::{version_supported, Process, Root, RuntimeSpec};
use libcontainer::status::ContainerStatus;

fn base_of(id: &str, root: &str) -> ContainerBuilder {
    ContainerBuilder {
        container_id: id.to_string(),
        root_path: root.to_string(),
        syscall: SyscallType::Test,
        pid_file: None,
        console_socket: None,
        preserve_fds: 0,
    }
}

fn spec_of(version: &str, profile: Option<&str>) -> RuntimeSpec {
    RuntimeSpec {
        version: version.to_string(),
        root: Some(Root { path: "rootfs".to_string(), readonly: false }),
        process: Some(Process { apparmor_profile: profile.map(|p| p.to_string()) }),
        annotations: Annotations::new(),
    }
}

#[test]
fn new_builder_uses_systemd() {
    let init = InitContainerBuilder::new(base_of("c1", "/run/containers"), "/bundles/c1".to_string());
    assert!(init.use_systemd());
    assert_eq!(init.bundle(), "/bundles/c1");
    assert_eq!(init.base().container_id, "c1");
    assert_eq!(init.base().root_path, "/run/containers");
    assert_eq!(init.base().preserve_fds, 0);
}

#[test]
fn with_systemd_sets_the_flag_and_nothing_else() {
    let init = InitContainerBuilder::new(base_of("c1", "/run/containers"), "/bundles/c1".to_string())
        .with_systemd(false);
    assert!(!init.use_systemd());
    assert_eq!(init.bundle(), "/bundles/c1");
    assert_eq!(init.base().container_id, "c1");
    let init = init.with_systemd(true);
    assert!(init.use_systemd());
}

#[test]
fn container_dir_is_the_id_under_the_root_path() {
    let init = InitContainerBuilder::new(base_of("c1", "/run/containers"), "/bundles/c1".to_string());
    assert_eq!(init.container_dir(), "/run/containers/c1");
    let slash = InitContainerBuilder::new(base_of("c2", "/run/containers/"), "/b".to_string());
    assert_eq!(slash.container_dir(), "/run/containers/c2");
}

#[test]
fn create_container_dir_rejects_a_container_that_exists() {
    let init = InitContainerBuilder::new(base_of("c1", "/run/containers"), "/bundles/c1".to_string());
    let error = init.create_container_dir(true).unwrap_err();
    assert_eq!(error.kind, ErrorKind::AlreadyExists);
    assert_eq!(error.detail, "c1");
}

#[test]
fn create_container_dir_names_the_directory_to_create() {
    let init = InitContainerBuilder::new(base_of("c1", "/run/containers"), "/bundles/c1".to_string());
    assert_eq!(init.create_container_dir(false).unwrap(), "/run/containers/c1");
}

#[test]
fn load_spec_asks_for_the_config_of_the_bundle() {
    let init = InitContainerBuilder::new(base_of("c1", "/run/containers"), "/bundles/c1".to_string());
    match init.load_spec() {
        Action::LoadSpec { path } => assert_eq!(path, "/bundles/c1/config.json"),
        other => panic!("{:?}", other),
    }
}

#[test]
fn versions_1_0_x_are_supported() {
    for version in ["1.0.0", "1.0.2", "1.0.10", "1.0.2-dev", "1.0.2+build", "1.0.x"] {
        assert!(version_supported(version), "{}", version);
    }
}

#[test]
fn other_versions_are_not_supported() {
    for version in [
        "", "1", "1.", "1.0", "1.0.", "1.00", "1.00.1", "1.05.0", "1.0-rc1", "0.9", "0.9.0",
        "1.1.0", "2.0.0", "01.0.1", " 1.0.2", "v1.0.2", "1,0.2", "10.0.1",
    ] {
        assert!(!version_supported(version), "{}", version);
    }
}

#[test]
fn validate_spec_rejects_versions_that_only_begin_with_1_0() {
    for version in ["1.05.0", "1.0", "1.00", "1.0-rc1", "1.0."] {
        for enabled in [false, true] {
            let spec = RuntimeSpec {
                version: version.to_string(),
                root: None,
                process: None,
                annotations: Annotations::new(),
            };
            let error = InitContainerBuilder::validate_spec(&spec, enabled).unwrap_err();
            assert_eq!(error.kind, ErrorKind::IncompatibleVersion);
            assert_eq!(error.detail, version);
        }
    }
}

#[test]
fn validate_spec_accepts_1_0_without_profile() {
    assert!(InitContainerBuilder::validate_spec(&spec_of("1.0.2", None), false).is_ok());
    assert!(InitContainerBuilder::validate_spec(&spec_of("1.0.2", None), true).is_ok());
}

#[test]
fn validate_spec_rejects_other_versions() {
    for enabled in [false, true] {
        let error = InitContainerBuilder::validate_spec(&spec_of("0.9", None), enabled).unwrap_err();
        assert_eq!(error.kind, ErrorKind::IncompatibleVersion);
        assert_eq!(error.detail, "0.9");
    }
}

#[test]
fn validate_spec_rejects_a_profile_without_apparmor() {
    let spec = spec_of("1.0.2", Some("docker-default"));
    let error = InitContainerBuilder::validate_spec(&spec, false).unwrap_err();
    assert_eq!(error.kind, ErrorKind::ApparmorNotActivated);
    assert_eq!(error.detail, "docker-default");
    assert!(InitContainerBuilder::validate_spec(&spec, true).is_ok());
}

#[test]
fn validate_spec_looks_at_the_version_first() {
    let spec = spec_of("2.0", Some("docker-default"));
    let error = InitContainerBuilder::validate_spec(&spec, false).unwrap_err();
    assert_eq!(error.kind, ErrorKind::IncompatibleVersion);
    assert_eq!(error.detail, "2.0");
}

#[test]
fn validate_spec_without_process_asks_for_no_profile() {
    let spec = RuntimeSpec {
        version: "1.0.0".to_string(),
        root: None,
        process: None,
        annotations: Annotations::new(),
    };
    assert!(spec.apparmor_profile().is_none());
    assert!(InitContainerBuilder::validate_spec(&spec, false).is_ok());
}

#[test]
fn create_container_state_is_creating_without_pid() {
    let init = InitContainerBuilder::new(base_of("c1", "/run/containers"), "/bundles/c1".to_string())
        .with_systemd(true);
    let container = init.create_container_state("/run/containers/c1");
    assert_eq!(container.id(), "c1");
    assert_eq!(container.status(), ContainerStatus::Creating);
    assert_eq!(container.pid(), None);
    assert_eq!(container.bundle_path(), "/bundles/c1");
    assert_eq!(container.state_dir(), "/run/containers/c1");
    assert!(!container.systemd());
    assert!(container.annotations().to_pairs().is_empty());
}
