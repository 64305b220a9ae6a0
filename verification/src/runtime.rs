//! What a build reads of a bundle's runtime configuration.

use crate::annotations::Annotations;
use vstd::prelude::*;

verus! {

/// The root file system of a container.
#[derive(Debug)]
pub struct Root {
    pub path: String,
    pub readonly: bool,
}

/// The process of a container, as far as a build looks at it.
#[derive(Debug)]
pub struct Process {
    pub apparmor_profile: Option<String>,
}

/// The runtime configuration of a bundle, as far as a build looks at it.
#[derive(Debug)]
pub struct RuntimeSpec {
    pub version: String,
    pub root: Option<Root>,
    pub process: Option<Process>,
    pub annotations: Annotations,
}

/// A root file system as a value of mathematics.
pub struct RootView {
    pub path: Seq<char>,
    pub readonly: bool,
}

/// A runtime configuration as a value of mathematics. The profile is the
/// process's AppArmor profile, where there is a process and it names one.
pub struct RuntimeSpecView {
    pub version: Seq<char>,
    pub root: Option<RootView>,
    pub apparmor_profile: Option<Seq<char>>,
    pub annotations: Map<Seq<char>, Seq<char>>,
}

impl View for Root {
    type V = RootView;

    open spec fn view(&self) -> RootView {
        RootView { path: self.path@, readonly: self.readonly }
    }
}

impl View for RuntimeSpec {
    type V = RuntimeSpecView;

    open spec fn view(&self) -> RuntimeSpecView {
        RuntimeSpecView {
            version: self.version@,
            root: match self.root {
                Some(root) => Some(root@),
                None => None,
            },
            apparmor_profile: match self.process {
                Some(process) => match process.apparmor_profile {
                    Some(profile) => Some(profile@),
                    None => None,
                },
                None => None,
            },
            annotations: self.annotations@,
        }
    }
}

/// Whether a version is one of 1.0.x: whether its text is `1.0.` followed by
/// at least one more character.
pub open spec fn spec_version_supported(version: Seq<char>) -> bool {
    version.len() > 4 && version[0] == '1' && version[1] == '.' && version[2] == '0'
        && version[3] == '.'
}

/// Whether a version is one of 1.0.x.
pub fn version_supported(version: &str) -> (supported: bool)
    ensures
        supported == spec_version_supported(version@),
{
    version.unicode_len() > 4 && version.get_char(0) == '1' && version.get_char(1) == '.'
        && version.get_char(2) == '0' && version.get_char(3) == '.'
}

/// The versions that are supported are those that are longer than their
/// prefix `1.0.`; so a version that does not begin with `1.0` is not
/// supported, and neither are `1.0` itself and `1.0.`.
pub proof fn lemma_supported_versions_are_1_0_x(version: Seq<char>)
    ensures
        spec_version_supported(version) <==> "1.0."@.is_prefix_of(version) && version != "1.0."@,
        !"1.0"@.is_prefix_of(version) ==> !spec_version_supported(version),
        !spec_version_supported("1.0"@),
{
    reveal_strlit("1.0.");
    reveal_strlit("1.0");
    let prefix = "1.0."@;
    if spec_version_supported(version) {
        assert(prefix =~= version.subrange(0, 4));
        assert("1.0"@ =~= version.subrange(0, 3));
    }
    if prefix.is_prefix_of(version) {
        assert(version.subrange(0, 4)[0] == prefix[0]);
        assert(version.subrange(0, 4)[1] == prefix[1]);
        assert(version.subrange(0, 4)[2] == prefix[2]);
        assert(version.subrange(0, 4)[3] == prefix[3]);
        if version.len() == 4 {
            assert(version =~= version.subrange(0, 4));
        }
    }
}

impl RuntimeSpec {
    /// The AppArmor profile that the process asks for, if there is a
    /// process and it asks for one.
    pub fn apparmor_profile(&self) -> (profile: Option<&String>)
        ensures
            profile.is_some() == self@.apparmor_profile.is_some(),
            profile matches Some(name) ==> Some(name@) == self@.apparmor_profile,
    {
        match &self.process {
            Some(process) => match &process.apparmor_profile {
                Some(profile) => Some(profile),
                None => None,
            },
            None => None,
        }
    }
}

} // verus!
