//! Locating the externally installed copy of the sidecar binary and the
//! result of one install-script run.
//!
//! The install itself — writing the bundled script to a temporary path,
//! marking it executable, running it with the sidecar's path, removing it —
//! is filesystem and process work left to the caller; what is decided and
//! reported about it is here.
use vstd::prelude::*;

verus! {

/// Where the CLI copy is installed, relative to the user's home directory.
pub open spec fn cli_install_path_spec(home: Seq<char>) -> Seq<char> {
    home + "/.opencode/bin/opencode"@
}

/// The well-known install path, or `None` where no home directory is known
/// (treated everywhere as "not installed", never as an error).
pub fn cli_install_path(home: Option<&str>) -> (r: Option<String>)
    ensures
        match home {
            Some(h) => r matches Some(p) && p@ == cli_install_path_spec(h@),
            None => r is None,
        },
{
    match home {
        Some(h) => {
            let mut out = String::new();
            out.append(h);
            out.append("/.opencode/bin/opencode");
            Some(out)
        },
        None => None,
    }
}

/// Whether an installed copy exists: a home directory is known and the
/// install path is present on disk. `path_exists` is the filesystem's answer
/// for the path of [`cli_install_path`]; it is ignored where no home
/// directory is known.
pub fn is_cli_installed(home: Option<&str>, path_exists: bool) -> (r: bool)
    ensures
        r == (home is Some && path_exists),
{
    match home {
        Some(_) => path_exists,
        None => false,
    }
}

/// Gate on an install request: only POSIX platforms are supported, and the
/// sidecar binary must exist beside the running application.
pub fn install_precheck(unix: bool, sidecar_exists: bool) -> (r: Result<(), String>)
    ensures
        !unix ==> (r matches Err(m) && m@
            == "CLI installation is only supported on macOS & Linux"@),
        unix && !sidecar_exists ==> (r matches Err(m) && m@ == "Sidecar binary not found"@),
        unix && sidecar_exists ==> r is Ok,
{
    if !unix {
        let mut m = String::new();
        m.append("CLI installation is only supported on macOS & Linux");
        Err(m)
    } else if !sidecar_exists {
        let mut m = String::new();
        m.append("Sidecar binary not found");
        Err(m)
    } else {
        Ok(())
    }
}

/// Map the install script's exit to the operation's result: on success the
/// installed path, on a non-zero exit an error carrying the captured
/// standard-error text.
pub fn install_script_outcome(status_ok: bool, stderr: &str, install_path: Option<&str>) -> (r:
    Result<String, String>)
    ensures
        !status_ok ==> (r matches Err(m) && m@ == "Install script failed: "@ + stderr@),
        status_ok && install_path is None ==> (r matches Err(m) && m@
            == "Could not determine install path"@),
        (status_ok && install_path is Some) ==> (r is Ok && r->Ok_0@ == install_path->Some_0@),
{
    if !status_ok {
        let mut m = String::new();
        m.append("Install script failed: ");
        m.append(stderr);
        Err(m)
    } else {
        match install_path {
            None => {
                let mut m = String::new();
                m.append("Could not determine install path");
                Err(m)
            },
            Some(p) => {
                let mut q = String::new();
                q.append(p);
                Ok(q)
            },
        }
    }
}

} // verus!
