//! Decisions of a manual cluster about its nodes' working directories and
//! about which node binary to run.

use vstd::prelude::*;

verus! {

/// Whether working directories outlive the cluster: while unwinding from
/// a failure, for a post-mortem, or when asked to keep them.
pub fn should_persist_tempdir(panicking: bool, keep_tempdirs: bool) -> (r: bool)
    ensures
        r == (panicking || keep_tempdirs),
{
    panicking || keep_tempdirs
}

/// What becomes of one stopped node's storage.
#[derive(Clone, Debug, PartialEq, Eq)]
pub struct TeardownPlan {
    /// Where the node's state is copied before its working directory goes.
    pub copy_to: Option<String>,
    /// The working directory itself is kept rather than deleted.
    pub keep_workdir: bool,
}

/// The teardown of a node started with `persist_dir`: its state goes to
/// that directory whenever one was given, and its working directory is
/// kept only under `should_persist_tempdir`.
pub fn node_teardown_plan(persist_dir: Option<String>, panicking: bool, keep_tempdirs: bool) -> (r: TeardownPlan)
    ensures
        r.copy_to == persist_dir,
        r.keep_workdir == (panicking || keep_tempdirs),
{
    TeardownPlan { copy_to: persist_dir, keep_workdir: should_persist_tempdir(panicking, keep_tempdirs) }
}

/// A node that was given a directory for its state has that state copied
/// there on teardown, whatever becomes of its working directory.
pub proof fn persisted_state_survives_teardown(persist_dir: Option<String>, panicking: bool, keep_tempdirs: bool, r: TeardownPlan)
    requires
        r.copy_to == persist_dir,
        r.keep_workdir == (panicking || keep_tempdirs),
    ensures
        persist_dir matches Some(d) ==> r.copy_to == Some(d),
        !r.keep_workdir ==> !panicking && !keep_tempdirs,
{
}

/// Where a node binary is looked for.
#[derive(Clone, Debug, PartialEq, Eq)]
pub struct BinaryConfig {
    /// The environment variable that names the binary explicitly.
    pub env_var: String,
    pub binary_name: String,
    pub fallback_path: String,
    pub shared_bin_subpath: String,
}

pub struct BinaryResolver;

impl BinaryResolver {
    /// The binary to run: the one named by the environment variable, else
    /// the first found on the search path, else the shared binary if it
    /// exists, else the fallback.
    pub fn resolve_path(
        env_value: Option<String>,
        on_path: Option<String>,
        shared_bin: String,
        shared_bin_exists: bool,
        fallback: String,
    ) -> (r: String)
        ensures
            env_value matches Some(p) ==> r == p,
            env_value is None && on_path is Some ==> r == on_path->Some_0,
            env_value is None && on_path is None && shared_bin_exists ==> r == shared_bin,
            env_value is None && on_path is None && !shared_bin_exists ==> r == fallback,
    {
        match env_value {
            Some(p) => p,
            None => match on_path {
                Some(p) => p,
                None => if shared_bin_exists {
                    shared_bin
                } else {
                    fallback
                },
            },
        }
    }
}

} // verus!
