//! What storage the service opens for its configuration.

use vstd::prelude::*;

use crate::config::{AppConfig, StorageBackend};
use crate::error::AppError;

verus! {

/// The connection URL of the SQLite file `sqlite_path`, created when missing.
pub fn sqlite_url(sqlite_path: &str) -> (u: String)
    ensures
        u@ == "sqlite://"@ + sqlite_path@ + "?mode=rwc"@,
{
    let mut u = String::from_str("sqlite://");
    u.append(sqlite_path);
    u.append("?mode=rwc");
    u
}

/// The PostgreSQL URL the configuration names; a PostgreSQL backend cannot start without one.
pub fn require_database_url(config: &AppConfig) -> (r: Result<String, AppError>)
    ensures
        match config.database_url {
            Some(u) => r == Ok::<String, AppError>(u),
            None => r matches Err(e) && e.status == 500 && e.code == 5000 && e.message@
                == "STORAGE_BACKEND=postgres 时必须配置 DATABASE_URL"@,
        },
{
    match &config.database_url {
        Some(u) => Ok(u.clone()),
        None => Err(AppError::internal(String::from_str("STORAGE_BACKEND=postgres 时必须配置 DATABASE_URL"))),
    }
}

/// Whether starting with `config` deserves the warning that idempotency records stay in
/// memory: a PostgreSQL backend without Redis.
pub fn redis_missing_for_postgres(config: &AppConfig) -> (b: bool)
    ensures
        b == (config.redis_url is None && config.storage_backend == StorageBackend::Postgres),
{
    config.redis_url.is_none() && matches!(config.storage_backend, StorageBackend::Postgres)
}

/// Which of the migrations, in their order, still have to be applied, given which are
/// recorded as applied already.
pub fn pending_migrations(applied: &Vec<bool>) -> (p: Vec<usize>)
    ensures
        forall|k: int| 0 <= k < p@.len() ==> #[trigger] p@[k] < applied@.len() && !applied@[p@[k] as int],
        forall|i: int| 0 <= i < applied@.len() && !applied@[i] ==> p@.contains(i as usize),
        forall|a: int, b: int| 0 <= a < b < p@.len() ==> p@[a] < p@[b],
{
    let mut p: Vec<usize> = Vec::new();
    let mut i: usize = 0;
    while i < applied.len()
        invariant
            i <= applied@.len(),
            forall|k: int| 0 <= k < p@.len() ==> #[trigger] p@[k] < i && !applied@[p@[k] as int],
            forall|j: int| 0 <= j < i && !applied@[j] ==> p@.contains(j as usize),
            forall|a: int, b: int| 0 <= a < b < p@.len() ==> p@[a] < p@[b],
        decreases applied@.len() - i,
    {
        if !applied[i] {
            proof {
                let old_p = p@;
                assert forall|j: int| 0 <= j < i && !applied@[j] implies old_p.push(i).contains(j as usize) by {
                    let w = choose|w: int| 0 <= w < old_p.len() && old_p[w] == j as usize;
                    assert(old_p.push(i)[w] == j as usize);
                }
                assert(old_p.push(i)[old_p.len() as int] == i);
            }
            p.push(i);
        }
        i = i + 1;
    }
    p
}

} // verus!
