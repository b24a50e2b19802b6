//! The executable resolver: computes the filesystem path of the worker
//! binary for the current run mode and operating system.
//!
//! The resolver itself performs no filesystem queries. The embedding shell
//! probes the environment once — canonicalizing the development entry point,
//! locating the resource directory and checking whether the bundled binary
//! is present, finding the directory of the running executable — and hands
//! the answers in as a `ResolverProbe`; the selection logic below is then a
//! pure, fully specified function of those answers.

use vstd::prelude::*;
use vstd::string::StringExecFns;

verus! {

/// Whether the application runs from the source tree or as a packaged
/// deployment.
#[derive(Clone, Copy, Debug, PartialEq, Eq, Structural)]
pub enum RunMode {
    Development,
    Packaged,
}

/// The operating-system family, as far as it decides the binary's name and
/// the path separator.
#[derive(Clone, Copy, Debug, PartialEq, Eq, Structural)]
pub enum OsFamily {
    Windows,
    Other,
}

/// Why resolution failed: no candidate path exists for the current mode.
#[derive(Clone, Copy, Debug, PartialEq, Eq, Structural)]
pub enum ResolutionError {
    NotFound,
}

/// What the embedding shell found when it probed the environment.
pub struct ResolverProbe {
    /// The canonicalized path of the worker's source entry point, if
    /// canonicalization succeeded (development mode only).
    pub dev_entry_canonical: Option<String>,
    /// The platform-supplied resource directory, if the platform reports
    /// one (packaged mode only).
    pub resource_dir: Option<String>,
    /// Whether the per-OS binary exists on disk inside `resource_dir`.
    pub resource_binary_present: bool,
    /// The directory containing the currently running executable, if it
    /// could be determined.
    pub exe_dir: Option<String>,
}

/// The name of the worker binary under the per-OS convention.
pub open spec fn spec_binary_name(os: OsFamily) -> Seq<char> {
    match os {
        OsFamily::Windows => "chicken-core.exe"@,
        OsFamily::Other => "chicken-core"@,
    }
}

/// The path separator of the OS family.
pub open spec fn spec_separator(os: OsFamily) -> Seq<char> {
    match os {
        OsFamily::Windows => "\\"@,
        OsFamily::Other => "/"@,
    }
}

/// `dir` joined with the worker binary's name.
pub open spec fn spec_joined(dir: Seq<char>, os: OsFamily) -> Seq<char> {
    dir + spec_separator(os) + spec_binary_name(os)
}

/// The path the resolver must return for a given mode, OS and probe:
/// in development, the canonicalized source entry point or `NotFound`;
/// packaged, the bundled binary when the resource directory holds it,
/// otherwise the binary's name joined onto the executable's own directory
/// (without existence verification), and `NotFound` only when even that
/// directory is unknown.
pub open spec fn spec_resolve(mode: RunMode, os: OsFamily, probe: ResolverProbe) -> Result<
    Seq<char>,
    ResolutionError,
> {
    match mode {
        RunMode::Development => match probe.dev_entry_canonical {
            Some(p) => Ok(p@),
            None => Err(ResolutionError::NotFound),
        },
        RunMode::Packaged => match probe.resource_dir {
            Some(d) => if probe.resource_binary_present {
                Ok(spec_joined(d@, os))
            } else {
                spec_resolve_fallback(os, probe)
            },
            None => spec_resolve_fallback(os, probe),
        },
    }
}

/// The packaged-mode fallback: look next to the running executable.
pub open spec fn spec_resolve_fallback(os: OsFamily, probe: ResolverProbe) -> Result<
    Seq<char>,
    ResolutionError,
> {
    match probe.exe_dir {
        Some(d) => Ok(spec_joined(d@, os)),
        None => Err(ResolutionError::NotFound),
    }
}

/// A resolver result, abstracted to the text of the path it carries.
pub open spec fn spec_resolved_view(r: Result<String, ResolutionError>) -> Result<
    Seq<char>,
    ResolutionError,
> {
    match r {
        Ok(s) => Ok(s@),
        Err(e) => Err(e),
    }
}

/// The worker binary's file name for the given OS family: `chicken-core`
/// with the `.exe` suffix on Windows and without it elsewhere.
pub fn binary_name(os: OsFamily) -> (r: String)
    ensures
        r@ == spec_binary_name(os),
{
    match os {
        OsFamily::Windows => "chicken-core.exe".to_owned(),
        OsFamily::Other => "chicken-core".to_owned(),
    }
}

/// The path separator for the given OS family.
fn separator(os: OsFamily) -> (r: &'static str)
    ensures
        r@ == spec_separator(os),
{
    match os {
        OsFamily::Windows => "\\",
        OsFamily::Other => "/",
    }
}

/// `dir` with the worker binary's name appended after one separator.
fn joined(dir: &str, os: OsFamily) -> (r: String)
    ensures
        r@ == spec_joined(dir@, os),
{
    let mut r = dir.to_owned();
    r.append(separator(os));
    let name = binary_name(os);
    r.append(name.as_str());
    r
}

/// Resolves the worker executable's path for the given mode and OS from the
/// probed environment, exactly as `spec_resolve` lays down.
pub fn resolve(mode: RunMode, os: OsFamily, probe: &ResolverProbe) -> (r: Result<
    String,
    ResolutionError,
>)
    ensures
        spec_resolved_view(r) == spec_resolve(mode, os, *probe),
{
    match mode {
        RunMode::Development => match &probe.dev_entry_canonical {
            Some(p) => Ok(p.clone()),
            None => Err(ResolutionError::NotFound),
        },
        RunMode::Packaged => match &probe.resource_dir {
            Some(d) => if probe.resource_binary_present {
                Ok(joined(d.as_str(), os))
            } else {
                resolve_fallback(os, probe)
            },
            None => resolve_fallback(os, probe),
        },
    }
}

/// The packaged-mode fallback path, next to the running executable.
fn resolve_fallback(os: OsFamily, probe: &ResolverProbe) -> (r: Result<String, ResolutionError>)
    ensures
        spec_resolved_view(r) == spec_resolve_fallback(os, *probe),
{
    match &probe.exe_dir {
        Some(d) => Ok(joined(d.as_str(), os)),
        None => Err(ResolutionError::NotFound),
    }
}

} // verus!
