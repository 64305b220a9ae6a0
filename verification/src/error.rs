//! What can go wrong while a container is built.

use vstd::prelude::*;

verus! {

/// The step of a build that failed.
#[derive(Clone, Copy, Debug, PartialEq, Eq, Structural)]
pub enum ErrorKind {
    /// The runtime configuration of the bundle could not be read or parsed.
    SpecLoad,
    /// The runtime configuration has a version other than 1.0.x.
    IncompatibleVersion,
    /// Whether AppArmor is active on the host could not be found out.
    ApparmorProbe,
    /// An AppArmor profile is asked for and AppArmor is not active.
    ApparmorNotActivated,
    /// The runtime configuration names no root file system.
    MissingRoot,
    /// The root file system's path could not be made absolute.
    CanonicalizeRootfs,
    /// A container with this id exists already.
    AlreadyExists,
    /// The container's directory could not be created.
    CreateDir,
    /// The container's state could not be written.
    SaveState,
    /// The working directory could not be changed.
    ChangeDir,
    /// The root file system's path could not be resolved.
    ResolveRootfs,
    /// The console socket could not be set up.
    ConsoleSocket,
    /// Rootless mode could not be worked out.
    Rootless,
    /// The container's configuration could not be derived or written.
    SaveConfig,
    /// The init process could not be brought up.
    Backend,
    /// The container's state could not be read back, or had not left
    /// `Creating`.
    Refresh,
    /// An outcome was reported that the build was not waiting for.
    UnexpectedEvent,
}

/// The families of failures.
#[derive(Clone, Copy, Debug, PartialEq, Eq, Structural)]
pub enum ErrorClass {
    /// The runtime configuration cannot be used on this host.
    Configuration,
    /// The container id is taken.
    Conflict,
    /// A file, directory or socket could not be made or used.
    Resource,
    /// The init process could not be brought up.
    Backend,
    /// The state after the init process came up could not be established.
    Refresh,
    /// The build was driven out of turn.
    Protocol,
}

impl ErrorKind {
    /// The family that a failure belongs to.
    pub open spec fn spec_class(self) -> ErrorClass {
        match self {
            ErrorKind::SpecLoad
            | ErrorKind::IncompatibleVersion
            | ErrorKind::ApparmorProbe
            | ErrorKind::ApparmorNotActivated
            | ErrorKind::MissingRoot
            | ErrorKind::CanonicalizeRootfs
            | ErrorKind::Rootless => ErrorClass::Configuration,
            ErrorKind::AlreadyExists => ErrorClass::Conflict,
            ErrorKind::CreateDir
            | ErrorKind::SaveState
            | ErrorKind::ChangeDir
            | ErrorKind::ResolveRootfs
            | ErrorKind::ConsoleSocket
            | ErrorKind::SaveConfig => ErrorClass::Resource,
            ErrorKind::Backend => ErrorClass::Backend,
            ErrorKind::Refresh => ErrorClass::Refresh,
            ErrorKind::UnexpectedEvent => ErrorClass::Protocol,
        }
    }

    /// The family that a failure belongs to.
    #[verifier::when_used_as_spec(spec_class)]
    pub fn class(self) -> (class: ErrorClass)
        ensures
            class == self.spec_class(),
    {
        match self {
            ErrorKind::SpecLoad
            | ErrorKind::IncompatibleVersion
            | ErrorKind::ApparmorProbe
            | ErrorKind::ApparmorNotActivated
            | ErrorKind::MissingRoot
            | ErrorKind::CanonicalizeRootfs
            | ErrorKind::Rootless => ErrorClass::Configuration,
            ErrorKind::AlreadyExists => ErrorClass::Conflict,
            ErrorKind::CreateDir
            | ErrorKind::SaveState
            | ErrorKind::ChangeDir
            | ErrorKind::ResolveRootfs
            | ErrorKind::ConsoleSocket
            | ErrorKind::SaveConfig => ErrorClass::Resource,
            ErrorKind::Backend => ErrorClass::Backend,
            ErrorKind::Refresh => ErrorClass::Refresh,
            ErrorKind::UnexpectedEvent => ErrorClass::Protocol,
        }
    }

    /// The words that describe the failed step.
    pub open spec fn spec_description(self) -> Seq<char> {
        match self {
            ErrorKind::SpecLoad => "failed to load spec"@,
            ErrorKind::IncompatibleVersion => "runtime spec has incompatible version"@,
            ErrorKind::ApparmorProbe => "failed to validate runtime spec"@,
            ErrorKind::ApparmorNotActivated => "apparmor is not activated on this system"@,
            ErrorKind::MissingRoot => "no root in spec"@,
            ErrorKind::CanonicalizeRootfs => "failed to canonicalize rootfs"@,
            ErrorKind::AlreadyExists => "container already exists"@,
            ErrorKind::CreateDir => "failed to create container dir"@,
            ErrorKind::SaveState => "failed to create container state"@,
            ErrorKind::ChangeDir => "failed to change to the container dir"@,
            ErrorKind::ResolveRootfs => "failed to resolve rootfs"@,
            ErrorKind::ConsoleSocket => "failed to set up console socket"@,
            ErrorKind::Rootless => "failed to resolve rootless mode"@,
            ErrorKind::SaveConfig => "failed to save config"@,
            ErrorKind::Backend => "failed to create container"@,
            ErrorKind::Refresh => "failed to refresh container state"@,
            ErrorKind::UnexpectedEvent => "build was driven out of turn"@,
        }
    }

    /// The words that describe the failed step.
    pub fn description(self) -> (words: &'static str)
        ensures
            words@ == self.spec_description(),
    {
        match self {
            ErrorKind::SpecLoad => "failed to load spec",
            ErrorKind::IncompatibleVersion => "runtime spec has incompatible version",
            ErrorKind::ApparmorProbe => "failed to validate runtime spec",
            ErrorKind::ApparmorNotActivated => "apparmor is not activated on this system",
            ErrorKind::MissingRoot => "no root in spec",
            ErrorKind::CanonicalizeRootfs => "failed to canonicalize rootfs",
            ErrorKind::AlreadyExists => "container already exists",
            ErrorKind::CreateDir => "failed to create container dir",
            ErrorKind::SaveState => "failed to create container state",
            ErrorKind::ChangeDir => "failed to change to the container dir",
            ErrorKind::ResolveRootfs => "failed to resolve rootfs",
            ErrorKind::ConsoleSocket => "failed to set up console socket",
            ErrorKind::Rootless => "failed to resolve rootless mode",
            ErrorKind::SaveConfig => "failed to save config",
            ErrorKind::Backend => "failed to create container",
            ErrorKind::Refresh => "failed to refresh container state",
            ErrorKind::UnexpectedEvent => "build was driven out of turn",
        }
    }

    /// The words for the steps that the failed step is a part of, the
    /// outermost first.
    pub open spec fn spec_contexts(self) -> Seq<Seq<char>> {
        match self {
            ErrorKind::IncompatibleVersion | ErrorKind::ApparmorNotActivated => seq![
                "failed to load spec"@,
                "failed to validate runtime spec"@,
            ],
            ErrorKind::ApparmorProbe
            | ErrorKind::CanonicalizeRootfs
            | ErrorKind::MissingRoot => seq!["failed to load spec"@],
            ErrorKind::AlreadyExists | ErrorKind::CreateDir => seq![
                "failed to create container dir"@,
            ],
            _ => Seq::empty(),
        }
    }

    /// The words for the steps that the failed step is a part of, the
    /// outermost first.
    pub fn contexts(self) -> (words: Vec<&'static str>)
        ensures
            words@.len() == self.spec_contexts().len(),
            forall|i: int| 0 <= i < words@.len() ==> words@[i]@ == self.spec_contexts()[i],
    {
        match self {
            ErrorKind::IncompatibleVersion | ErrorKind::ApparmorNotActivated => {
                let mut words: Vec<&'static str> = Vec::new();
                words.push("failed to load spec");
                words.push("failed to validate runtime spec");
                words
            },
            ErrorKind::ApparmorProbe
            | ErrorKind::CanonicalizeRootfs
            | ErrorKind::MissingRoot => {
                let mut words: Vec<&'static str> = Vec::new();
                words.push("failed to load spec");
                words
            },
            ErrorKind::AlreadyExists | ErrorKind::CreateDir => {
                let mut words: Vec<&'static str> = Vec::new();
                words.push("failed to create container dir");
                words
            },
            _ => Vec::new(),
        }
    }
}

/// The words of a chain of steps as they stand before the sentence of a
/// failure: each followed by a colon and a space.
pub open spec fn lead(contexts: Seq<Seq<char>>) -> Seq<char>
    decreases contexts.len(),
{
    if contexts.len() == 0 {
        Seq::empty()
    } else {
        lead(contexts.drop_last()) + contexts.last() + ": "@
    }
}

/// A failed build: the step that failed, and what is known of the cause (the
/// rejected version, the profile, the container id, or the words of the
/// failure that was reported).
#[derive(Debug)]
pub struct BuildError {
    pub kind: ErrorKind,
    pub detail: String,
}

/// A failed build as a value of mathematics.
pub struct BuildErrorView {
    pub kind: ErrorKind,
    pub detail: Seq<char>,
}

impl View for BuildError {
    type V = BuildErrorView;

    open spec fn view(&self) -> BuildErrorView {
        BuildErrorView { kind: self.kind, detail: self.detail@ }
    }
}

impl BuildErrorView {
    /// The sentence that says what went wrong: for a rejected version, a
    /// profile without AppArmor and a container that exists, a sentence
    /// around the version, the profile or the id; for every other failure,
    /// the words for the step, and after a colon the cause where one is
    /// known.
    pub open spec fn sentence(self) -> Seq<char> {
        match self.kind {
            ErrorKind::IncompatibleVersion => "runtime spec has incompatible version '"@
                + self.detail + "'. Only 1.0.X is supported"@,
            ErrorKind::ApparmorNotActivated => "apparmor profile "@ + self.detail
                + " is specified in runtime spec, but apparmor is not activated on this system"@,
            ErrorKind::AlreadyExists => "container "@ + self.detail + " already exists"@,
            _ => if self.detail.len() == 0 {
                self.kind.spec_description()
            } else {
                self.kind.spec_description() + ": "@ + self.detail
            },
        }
    }

    /// The whole message: the steps that the failed step is a part of, the
    /// outermost first, and then the sentence, with a colon and a space
    /// between them.
    pub open spec fn message(self) -> Seq<char> {
        lead(self.kind.spec_contexts()) + self.sentence()
    }
}

impl BuildError {
    /// The sentence that says what went wrong.
    pub fn sentence(&self) -> (text: String)
        ensures
            text@ == self@.sentence(),
    {
        match self.kind {
            ErrorKind::IncompatibleVersion => {
                let mut text = String::from_str("runtime spec has incompatible version '");
                text.append(self.detail.as_str());
                text.append("'. Only 1.0.X is supported");
                text
            },
            ErrorKind::ApparmorNotActivated => {
                let mut text = String::from_str("apparmor profile ");
                text.append(self.detail.as_str());
                text.append(
                    " is specified in runtime spec, but apparmor is not activated on this system",
                );
                text
            },
            ErrorKind::AlreadyExists => {
                let mut text = String::from_str("container ");
                text.append(self.detail.as_str());
                text.append(" already exists");
                text
            },
            _ => {
                let mut text = String::from_str(self.kind.description());
                if !self.detail.as_str().is_empty() {
                    text.append(": ");
                    text.append(self.detail.as_str());
                }
                text
            },
        }
    }

    /// The whole message: the steps that the failed step is a part of, the
    /// outermost first, and then the sentence.
    pub fn message(&self) -> (text: String)
        ensures
            text@ == self@.message(),
    {
        let contexts = self.kind.contexts();
        let ghost wanted = self.kind.spec_contexts();
        let mut text = String::new();
        let mut i: usize = 0;
        assert(wanted.subrange(0, 0) =~= Seq::<Seq<char>>::empty());
        while i < contexts.len()
            invariant
                i <= contexts.len(),
                contexts@.len() == wanted.len(),
                forall|j: int| 0 <= j < contexts@.len() ==> contexts@[j]@ == wanted[j],
                text@ == lead(wanted.subrange(0, i as int)),
            decreases contexts.len() - i,
        {
            proof {
                let longer = wanted.subrange(0, i as int + 1);
                assert(longer.drop_last() =~= wanted.subrange(0, i as int));
                assert(longer.last() == wanted[i as int]);
            }
            text.append(contexts[i]);
            text.append(": ");
            i += 1;
        }
        assert(wanted.subrange(0, i as int) =~= wanted);
        let sentence = self.sentence();
        text.append(sentence.as_str());
        text
    }
}

impl Clone for BuildError {
    fn clone(&self) -> (copy: BuildError)
        ensures
            copy@ == self@,
    {
        BuildError { kind: self.kind, detail: self.detail.clone() }
    }
}

} // verus!
