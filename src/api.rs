//! The values the scripting runtime exposes to configuration scripts, and the
//! standard libraries a sandboxed runtime is allowed.
use vstd::prelude::*;

verus! {

/// The operating-system family of the host.
#[derive(Debug, Clone, Copy, PartialEq, Eq, Structural)]
pub enum OsFamily {
    Linux,
    MacOs,
    Windows,
    Other,
}

/// The global name under which the API table is installed.
pub const API_NAME: &'static str = "fancytree";

/// The standard libraries a runtime can be built with.
#[derive(Debug, Clone, Copy, PartialEq, Eq, Structural)]
pub enum StdLibrary {
    Table,
    String,
    Math,
    Utf8,
    Coroutine,
    Io,
    Os,
    Package,
    Debug,
}

/// Libraries that reach the file system, the process or the host.
pub open spec fn grants_host_access(lib: StdLibrary) -> bool {
    lib == StdLibrary::Io || lib == StdLibrary::Os || lib == StdLibrary::Package
        || lib == StdLibrary::Debug
}

/// The allow-list a sandboxed runtime is built with: tables and strings.
pub fn sandbox_libraries() -> (r: Vec<StdLibrary>)
    ensures
        r@ == seq![StdLibrary::Table, StdLibrary::String],
        forall|i: int| 0 <= i < r@.len() ==> !grants_host_access(#[trigger] r@[i]),
{
    vec![StdLibrary::Table, StdLibrary::String]
}

/// The name scripts see for an operating-system family.
pub open spec fn spec_os_name(os: OsFamily) -> Seq<char> {
    match os {
        OsFamily::Linux => "linux"@,
        OsFamily::MacOs => "macos"@,
        OsFamily::Windows => "windows"@,
        OsFamily::Other => "other"@,
    }
}

/// The name scripts see for an operating-system family.
pub fn os_name(os: OsFamily) -> (r: &'static str)
    ensures
        r@ == spec_os_name(os),
{
    match os {
        OsFamily::Linux => "linux",
        OsFamily::MacOs => "macos",
        OsFamily::Windows => "windows",
        OsFamily::Other => "other",
    }
}

/// The final component of a path, as `std::path::Path::file_name` gives it.
pub uninterp spec fn file_name_of(path: Seq<char>) -> Option<Seq<char>>;

/// Relies on std::path::Path::file_name: the final component of the path, or
/// none when the path ends in `..` or is a root or prefix.
#[verifier::external_body]
fn path_file_name(path: &str) -> (r: Option<String>)
    ensures
        match r {
            Some(n) => file_name_of(path@) == Some(n@),
            None => file_name_of(path@) is None,
        },
{
    std::path::Path::new(path).file_name().map(|n| n.to_string_lossy().into_owned())
}

/// The final component of a path, as the `path.filename` function gives it to
/// scripts.
pub fn filename(path: &str) -> (r: Option<String>)
    ensures
        match r {
            Some(n) => file_name_of(path@) == Some(n@),
            None => file_name_of(path@) is None,
        },
{
    path_file_name(path)
}

} // verus!
