//! Keeping an externally installed copy of the sidecar binary version-synced
//! with the running application.
//!
//! The installed copy's version is read by invoking it with a version flag
//! (the caller's job) and parsing its output as a semantic version; the
//! installed copy is reinstalled exactly when that version is older than the
//! running application's. Parse failure is reported, never fatal.
use vstd::prelude::*;

verus! {

/// A semantic version as this logic reads it: the three numeric components,
/// and whether a pre-release identifier is attached. A version that carries
/// a pre-release precedes the plain release of the same triple; two distinct
/// pre-releases of one triple are not ordered here, and the sync decision
/// treats them as up to date.
#[derive(PartialEq, Eq, Structural, Clone, Copy, Debug)]
pub struct SemVer {
    pub major: u64,
    pub minor: u64,
    pub patch: u64,
    pub has_pre: bool,
}

/// Semantic-version precedence, as far as this model orders it.
pub open spec fn semver_lt(a: SemVer, b: SemVer) -> bool {
    ||| a.major < b.major
    ||| (a.major == b.major && a.minor < b.minor)
    ||| (a.major == b.major && a.minor == b.minor && a.patch < b.patch)
    ||| (a.major == b.major && a.minor == b.minor && a.patch == b.patch && a.has_pre
        && !b.has_pre)
}

/// What `semver::Version::parse` makes of a version string: `None` where it
/// reports an error, otherwise the numeric components and whether a
/// pre-release is attached.
pub uninterp spec fn semver_of(s: Seq<char>) -> Option<(u64, u64, u64, bool)>;

/// What `str::trim` leaves of a string.
pub uninterp spec fn trimmed_of(s: Seq<char>) -> Seq<char>;

/// Relies on `semver::Version::parse`: accepts exactly the SemVer grammar
/// (three dot-separated numeric components with optional pre-release and
/// build metadata); the result depends on the characters alone.
#[verifier::external_body]
fn parse_semver(s: &str) -> (r: Option<SemVer>)
    ensures
        match r {
            Some(v) => semver_of(s@) == Some((v.major, v.minor, v.patch, v.has_pre)),
            None => semver_of(s@) is None,
        },
{
    match semver::Version::parse(s) {
        Ok(v) => Some(
            SemVer { major: v.major, minor: v.minor, patch: v.patch, has_pre: !v.pre.is_empty() },
        ),
        Err(_) => None,
    }
}

/// Relies on `str::trim`: removes leading and trailing whitespace; the
/// result depends on the characters alone.
#[verifier::external_body]
fn trim_str(s: &str) -> (r: &str)
    ensures
        r@ == trimmed_of(s@),
{
    s.trim()
}

/// Whether the installed version is strictly older than the running one, the
/// sole trigger for a reinstall.
pub fn needs_reinstall(installed: &SemVer, running: &SemVer) -> (r: bool)
    ensures
        r == semver_lt(*installed, *running),
{
    if installed.major != running.major {
        installed.major < running.major
    } else if installed.minor != running.minor {
        installed.minor < running.minor
    } else if installed.patch != running.patch {
        installed.patch < running.patch
    } else {
        installed.has_pre && !running.has_pre
    }
}

/// Outcome of one sync check.
#[derive(PartialEq, Eq, Structural, Clone, Copy, Debug)]
pub enum SyncDecision {
    /// Development build: the whole check is skipped.
    SkipDebugBuild,
    /// No externally installed copy exists: nothing to sync.
    SkipNotInstalled,
    /// The installed copy's version could not be read (the invocation failed
    /// or exited non-zero): reported, no reinstall.
    VersionUnavailable,
    /// The version output is not a semantic version: reported, no reinstall.
    ParseFailed,
    /// The installed copy is current (or newer): no-op.
    UpToDate,
    /// The installed copy is older than the running application: reinstall.
    Reinstall,
}

/// The complete sync decision over the raw version output: trim it, parse it
/// as a semantic version, and reinstall exactly when it is older than the
/// running application's version.
pub open spec fn sync_decision_spec(
    debug_build: bool,
    installed: bool,
    version_stdout: Option<Seq<char>>,
    running: SemVer,
) -> SyncDecision {
    if debug_build {
        SyncDecision::SkipDebugBuild
    } else if !installed {
        SyncDecision::SkipNotInstalled
    } else {
        match version_stdout {
            None => SyncDecision::VersionUnavailable,
            Some(out) => match semver_of(trimmed_of(out)) {
                None => SyncDecision::ParseFailed,
                Some((major, minor, patch, has_pre)) => if semver_lt(
                    SemVer { major, minor, patch, has_pre },
                    running,
                ) {
                    SyncDecision::Reinstall
                } else {
                    SyncDecision::UpToDate
                },
            },
        }
    }
}

/// Decide what one sync run does. `version_stdout` is the raw standard
/// output of invoking the installed copy with its version flag, `None` where
/// that invocation failed or exited non-zero.
pub fn sync_plan(
    debug_build: bool,
    installed: bool,
    version_stdout: Option<&str>,
    running: &SemVer,
) -> (r: SyncDecision)
    ensures
        r == sync_decision_spec(
            debug_build,
            installed,
            match version_stdout {
                Some(s) => Some(s@),
                None => None,
            },
            *running,
        ),
{
    if debug_build {
        SyncDecision::SkipDebugBuild
    } else if !installed {
        SyncDecision::SkipNotInstalled
    } else {
        match version_stdout {
            None => SyncDecision::VersionUnavailable,
            Some(out) => {
                let trimmed = trim_str(out);
                match parse_semver(trimmed) {
                    None => SyncDecision::ParseFailed,
                    Some(installed_version) => {
                        if needs_reinstall(&installed_version, running) {
                            SyncDecision::Reinstall
                        } else {
                            SyncDecision::UpToDate
                        }
                    },
                }
            },
        }
    }
}

/// The sync law: for any two well-formed versions, a strictly older
/// installed copy is reinstalled and any other is left alone, and a version
/// string the parser rejects never triggers a reinstall.
pub proof fn lemma_sync_decision(out: Seq<char>, running: SemVer)
    ensures
        semver_of(trimmed_of(out)) matches Some((major, minor, patch, has_pre))
            ==> sync_decision_spec(false, true, Some(out), running) == (if semver_lt(
            SemVer { major, minor, patch, has_pre },
            running,
        ) {
            SyncDecision::Reinstall
        } else {
            SyncDecision::UpToDate
        }),
        semver_of(trimmed_of(out)) is None ==> sync_decision_spec(false, true, Some(out), running)
            == SyncDecision::ParseFailed,
{
}

} // verus!
