//! The worker locator: resolves the worker's candidate executable path.
//!
//! The path depends only on the run mode and the root directory of the
//! current run: a development root in development mode, a packaged
//! resource root otherwise. Whether the candidate exists on disk is the
//! host's observation; `locate` turns that observation into the target,
//! with no side effect of its own.

use vstd::prelude::*;
use vstd::string::StringExecFns;

verus! {

/// How the application is being run.
#[derive(Clone, Copy, Debug, PartialEq, Eq, Structural)]
pub enum RunMode {
    /// Running from a source checkout.
    Development,
    /// Running from an installed package.
    Packaged,
}

/// The worker executable's path relative to the run mode's root.
pub open spec fn spec_worker_relative_path(mode: RunMode) -> Seq<char> {
    match mode {
        RunMode::Development => "python/backend.py"@,
        RunMode::Packaged => "resources/python/backend.py"@,
    }
}

/// The relative path of the worker executable for a run mode.
pub fn worker_relative_path(mode: RunMode) -> (r: &'static str)
    ensures
        r@ == spec_worker_relative_path(mode),
{
    match mode {
        RunMode::Development => "python/backend.py",
        RunMode::Packaged => "resources/python/backend.py",
    }
}

/// The candidate worker path: the run mode's root, a separator, and the
/// worker's relative path.
pub open spec fn spec_candidate_path(mode: RunMode, root: Seq<char>) -> Seq<char> {
    root + "/"@ + spec_worker_relative_path(mode)
}

/// Joins the root directory with the worker's relative path.
pub fn candidate_path(mode: RunMode, root: &str) -> (r: String)
    ensures
        r@ == spec_candidate_path(mode, root@),
{
    let mut out = String::from_str(root);
    out.append("/");
    out.append(worker_relative_path(mode));
    out
}

/// Resolves the worker target: the candidate path when the host reports
/// that it exists on disk, and None — the worker is assumed started and
/// managed externally — when it does not.
pub fn locate(mode: RunMode, root: &str, candidate_exists: bool) -> (r: Option<String>)
    ensures
        candidate_exists ==> (r matches Some(p) && p@ == spec_candidate_path(mode, root@)),
        !candidate_exists ==> r is None,
{
    if candidate_exists {
        Some(candidate_path(mode, root))
    } else {
        None
    }
}

} // verus!
