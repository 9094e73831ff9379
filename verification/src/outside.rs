//! The calls this library makes into code it does not verify: the CPU count
//! (`num_cpus`), the user's home directory (`dirs`) and two path operations of
//! the standard library. Each item states what its source or documentation
//! promises, and nothing more.
use vstd::prelude::*;

verus! {

/// The path that `std::path::Path::join` produces from `base` and `part`,
/// both taken as text. Which separator is used, and whether `part` replaces
/// `base`, is the platform's rule; nothing here spells it out.
pub uninterp spec fn joined_path(base: Seq<char>, part: Seq<char>) -> Seq<char>;

/// Whether `std::path::Path::is_absolute` holds of the path spelled by `path`
/// on this platform.
pub uninterp spec fn path_is_absolute(path: Seq<char>) -> bool;

/// Calls `num_cpus::get`: the number of logical CPUs this process may use.
/// The crate documents that the value is always at least 1; the value itself
/// depends on the machine, its scheduler affinity and cgroup limits, so it is
/// left free.
#[verifier::external_body]
pub(crate) fn cpu_count() -> (count: usize)
    ensures
        count >= 1,
{
    num_cpus::get()
}

/// Calls `dirs::home_dir` and turns the path into text (lossily, should the
/// home directory not be valid UTF-8). The result depends on the environment
/// (`$HOME`, the password database), so nothing is said of it.
#[verifier::external_body]
pub(crate) fn home_dir() -> (home: Option<String>) {
    dirs::home_dir().map(|p| p.to_string_lossy().into_owned())
}

/// Calls `std::path::Path::join` on `base` and `part` and gives the result
/// back as text; both inputs are UTF-8, so the text is the path itself.
#[verifier::external_body]
pub(crate) fn join_path(base: &str, part: &str) -> (joined: String)
    ensures
        joined@ == joined_path(base@, part@),
{
    std::path::Path::new(base).join(part).to_string_lossy().into_owned()
}

/// Calls `std::path::Path::is_absolute` on the path spelled by `path`. Its
/// documentation asks of an absolute path that it start with the root (and,
/// on Windows, also have a prefix), so the empty path is never absolute.
#[verifier::external_body]
pub(crate) fn is_absolute_path(path: &str) -> (absolute: bool)
    ensures
        absolute == path_is_absolute(path@),
        path@.len() == 0 ==> !absolute,
{
    std::path::Path::new(path).is_absolute()
}

} // verus!
