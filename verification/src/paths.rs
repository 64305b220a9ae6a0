//! Paths, held as text.

use vstd::prelude::*;

verus! {

/// The file of a bundle that holds the runtime configuration.
pub const CONFIG_FILE: &'static str = "config.json";

/// The file in a container's directory over which the init process reports
/// that it is ready.
pub const NOTIFY_FILE: &'static str = "notify.sock";

/// The name under which a console socket is linked in a container's
/// directory.
pub const CONSOLE_SOCKET: &'static str = "console-socket";

/// The path that `std::path::Path::join` gives for `base` and `name`.
pub uninterp spec fn joined_path(base: Seq<char>, name: Seq<char>) -> Seq<char>;

/// Calls `std::path::Path::join`: the path `name` adjoined to `base`. The
/// result is a function of the two texts; nothing more is claimed of it.
#[verifier::external_body]
pub(crate) fn join_path(base: &str, name: &str) -> (joined: String)
    ensures
        joined@ == joined_path(base@, name@),
{
    std::path::Path::new(base).join(name).to_string_lossy().into_owned()
}

/// An optional text as a value of mathematics.
pub open spec fn text_of(value: Option<String>) -> Option<Seq<char>> {
    match value {
        Some(text) => Some(text@),
        None => None,
    }
}

/// A copy of an optional text.
pub fn copy_text(value: &Option<String>) -> (copy: Option<String>)
    ensures
        copy == *value,
{
    match value {
        Some(text) => Some(text.clone()),
        None => None,
    }
}

} // verus!
