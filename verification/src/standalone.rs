//! The standalone (single-shop) mode: a local SQLite file, one local tenant and its first
//! administrator, and the server embedded in the host application.

use uuid::Uuid;
use vstd::prelude::*;
use vstd::string::StringSliceAdditionalSpecFns;

use crate::config::{AppConfig, StorageBackend};
use crate::models::{hash_password, lower_hex_spec, sha256_spec, Tenant, User, UserRole};

verus! {

/// The id of the local tenant, `00000000-0000-0000-0000-000000000001`.
pub const LOCAL_TENANT_ID: u128 = 1;

/// The tenant of the standalone mode.
pub fn local_tenant() -> (t: Tenant)
    ensures
        t.id == LOCAL_TENANT_ID,
        t.code@ == "local"@,
        t.name@ == "本地企业"@,
{
    Tenant { id: LOCAL_TENANT_ID, code: String::from_str("local"), name: String::from_str("本地企业") }
}

/// A fresh random (version 4) UUID, `Uuid::new_v4()`, as its 128-bit value; the contract
/// states nothing of the value, which is random.
#[verifier::external_body]
fn random_uuid() -> (id: u128) {
    Uuid::new_v4().as_u128()
}

/// The first administrator of tenant `tenant_id` in the standalone mode: user `admin`, named
/// `管理员`, role `ADMIN`, password `admin123`, with a fresh random id.
pub fn default_admin(tenant_id: u128) -> (u: User)
    ensures
        u.tenant_id == tenant_id,
        u.username@ == "admin"@,
        u.name@ == "管理员"@,
        u.role == UserRole::Admin,
        u.password_hash@ == lower_hex_spec(sha256_spec("admin123".spec_bytes())),
{
    User {
        id: random_uuid(),
        tenant_id,
        username: String::from_str("admin"),
        name: String::from_str("管理员"),
        role: UserRole::Admin,
        password_hash: hash_password("admin123"),
    }
}

impl AppConfig {
    /// The configuration `self` turned to the embedded standalone mode: SQLite in
    /// `<data_dir>/jxc.db`, listening on the loopback address on a port the system picks,
    /// with neither PostgreSQL nor Redis.
    pub fn standalone(self, data_dir: &str) -> (c: AppConfig)
        ensures
            c.storage_backend == StorageBackend::Sqlite,
            c.sqlite_path@ == data_dir@ + "/jxc.db"@,
            c.host@ == "127.0.0.1"@,
            c.port == 0,
            c.redis_url is None,
            c.database_url is None,
            c.jwt_secret == self.jwt_secret,
            c.access_token_exp_secs == self.access_token_exp_secs,
            c.refresh_token_exp_secs == self.refresh_token_exp_secs,
            c.allow_negative_stock == self.allow_negative_stock,
            c.postgres_max_connections == self.postgres_max_connections,
            c.barcode_lookup_api_url == self.barcode_lookup_api_url,
            c.barcode_lookup_api_key == self.barcode_lookup_api_key,
            c.barcode_lookup_timeout_ms == self.barcode_lookup_timeout_ms,
            c.barcode_lookup_found_ttl_secs == self.barcode_lookup_found_ttl_secs,
            c.barcode_lookup_not_found_ttl_secs == self.barcode_lookup_not_found_ttl_secs,
    {
        let mut path = String::from_str(data_dir);
        path.append("/jxc.db");
        let mut c = self;
        c.storage_backend = StorageBackend::Sqlite;
        c.sqlite_path = path;
        c.host = String::from_str("127.0.0.1");
        c.port = 0;
        c.redis_url = None;
        c.database_url = None;
        c
    }
}

/// How starting the embedded server ended.
#[derive(Debug, Clone, Copy, PartialEq, Eq, Structural)]
pub enum StartOutcome {
    /// It listens on this port.
    Listening(u16),
    /// It failed to start, or the data directory could not be read.
    Failed,
    /// It did not report in time.
    TimedOut,
}

/// The number the embedded server's start function hands back to its host: the port it
/// listens on, `-1` when it failed and `-2` when it timed out.
pub fn start_result_code(outcome: StartOutcome) -> (code: i32)
    ensures
        match outcome {
            StartOutcome::Listening(p) => code == p as i32,
            StartOutcome::Failed => code == -1,
            StartOutcome::TimedOut => code == -2,
        },
{
    match outcome {
        StartOutcome::Listening(p) => p as i32,
        StartOutcome::Failed => -1,
        StartOutcome::TimedOut => -2,
    }
}

/// The port of the desktop client's embedded server, once it has been chosen.
#[derive(Debug, Clone, Copy)]
pub struct ServerPort(pub Option<u16>);

/// What the desktop client's front end is told when it asks for the server's port.
pub fn get_server_port(state: &ServerPort) -> (r: Result<u16, String>)
    ensures
        match state.0 {
            Some(p) => r == Ok::<u16, String>(p),
            None => r matches Err(m) && m@ == "server not yet started"@,
        },
{
    match state.0 {
        Some(p) => Ok(p),
        None => Err(String::from_str("server not yet started")),
    }
}

} // verus!
