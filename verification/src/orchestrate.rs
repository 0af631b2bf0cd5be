use crate::config::ConfigError;
use crate::fetch::{FetchModel, SecretFetcher};
use crate::launch::{LaunchModel, Launcher};
use crate::project::ProjectId;
use crate::secrets::SecretsMap;
use vstd::prelude::*;

verus! {

/// The fixed non-zero exit code for any failure of the launcher's own:
/// configuration, resolution, authentication, fetch, or the spawn itself. A
/// child that ran reports its own code instead.
pub const FAILURE_EXIT_CODE: i32 = 1;

/// What to do once resolution has been attempted.
pub enum ResolveDecision {
    /// Fetch the secrets of this project.
    Fetch(ProjectId),
    /// Quit with this exit code before the secret store is ever contacted.
    Quit(i32),
}

/// What to do once the fetch has ended.
pub enum FetchDecision {
    /// Spawn the child with these secrets in its environment.
    Launch(SecretsMap),
    /// Quit with this exit code; no child process is spawned.
    Quit(i32),
}

/// Sequence resolution into the fetch: only a resolved project is fetched
/// for; any resolution failure quits with the fixed failure code, before the
/// secret store is contacted.
pub fn after_resolution(r: Result<ProjectId, ConfigError>) -> (d: ResolveDecision)
    ensures
        r matches Ok(p) ==> d == ResolveDecision::Fetch(p),
        r is Err ==> d == ResolveDecision::Quit(FAILURE_EXIT_CODE),
{
    match r {
        Ok(p) => ResolveDecision::Fetch(p),
        Err(_) => ResolveDecision::Quit(FAILURE_EXIT_CODE),
    }
}

/// Sequence the fetch into the launch: only a fetch that completed hands its
/// secrets to a launch; a failed fetch quits with the fixed failure code and
/// no child process is ever spawned with a partial secret set.
pub fn after_fetch(fetcher: SecretFetcher) -> (d: FetchDecision)
    requires
        fetcher@ is Done || fetcher@ is Failed,
    ensures
        fetcher@ matches FetchModel::Done { secrets } ==> (d matches FetchDecision::Launch(m)
            && m@ == secrets),
        fetcher@ is Failed ==> d == FetchDecision::Quit(FAILURE_EXIT_CODE),
{
    if fetcher.is_done() {
        FetchDecision::Launch(fetcher.take_secrets())
    } else {
        FetchDecision::Quit(FAILURE_EXIT_CODE)
    }
}

/// The process's own exit code: the child's code verbatim when the child ran,
/// the fixed failure code when it could not be spawned at all.
pub fn final_exit_code(launcher: &Launcher) -> (code: i32)
    requires
        launcher@ is Exited || launcher@ is Failed,
    ensures
        launcher@ matches LaunchModel::Exited { code: c } ==> code == c,
        launcher@ is Failed ==> code == FAILURE_EXIT_CODE,
{
    if launcher.is_exited() {
        launcher.exit_code()
    } else {
        FAILURE_EXIT_CODE
    }
}

} // verus!
