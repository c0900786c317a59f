//! Where the pipeline cache lives.
use vstd::prelude::*;

use crate::paths::AppPath;

verus! {

/// The environment variable that overrides the location.
pub const DIRECTORY_ENV: &'static str = "TERRA_PIPELINE_CACHE_DIR";

/// The cache directory below the per-user data directory.
pub fn directory_from_local_data(local_data: &AppPath) -> (r: AppPath)
    ensures
        r@ == local_data@.push(crate::paths::Part::Normal("Terra"@)).push(
            crate::paths::Part::Normal("cache"@),
        ).push(crate::paths::Part::Normal("pipelines"@)),
{
    local_data.join("Terra").join("cache").join("pipelines")
}

/// The cache directory: the configured one, else the one below the per-user
/// data directory, if there is such a directory.
pub fn directory(configured: Option<AppPath>, local_data: Option<&AppPath>) -> (r: Option<AppPath>)
    ensures
        match (configured, local_data) {
            (Some(path), _) => r == Some(path),
            (None, Some(local)) => r matches Some(path) && path@ == local@.push(
                crate::paths::Part::Normal("Terra"@),
            ).push(crate::paths::Part::Normal("cache"@)).push(
                crate::paths::Part::Normal("pipelines"@),
            ),
            (None, None) => r is None,
        },
{
    match configured {
        Some(path) => Some(path),
        None => match local_data {
            Some(local) => Some(directory_from_local_data(local)),
            None => None,
        },
    }
}

/// A configured directory wins; otherwise the cache lies below the data of the user,
/// and without either there is none.
pub proof fn a_configured_cache_wins(
    configured: Option<AppPath>,
    local_data: Option<&AppPath>,
    found: Option<AppPath>,
)
    requires
        call_ensures(directory, (configured, local_data), found),
    ensures
        configured is Some ==> found == configured,
        configured is None ==> (local_data is None <==> found is None),
        configured is None ==> (local_data matches Some(local) ==> (found matches Some(path)
            && path@ == local@ + seq![
            crate::paths::Part::Normal("Terra"@),
            crate::paths::Part::Normal("cache"@),
            crate::paths::Part::Normal("pipelines"@),
        ])),
{
}

} // verus!
