//! The storage backends, and how stored values read back from the PostgreSQL store become
//! the service's own values.

use vstd::prelude::*;

use crate::config::StorageBackend;
use crate::error::{DocKind, RepoError, Resource, StoredValueKind};
use crate::models::{BarcodeLookupStatus, PurchaseOrderStatus, SalesOrderStatus, StockCheckStatus, UserRole};
use crate::repository_sqlite::SqliteRepository;
use crate::text::str_eq;

verus! {

/// The repository that keeps everything in process memory.
#[derive(Debug, Clone, Copy, Default)]
pub struct MemoryRepository;

/// The repository backed by PostgreSQL.
#[derive(Debug, Clone, Copy, Default)]
pub struct PostgresRepository;

/// The repository the service runs on.
#[derive(Debug, Clone, Copy)]
pub enum RepositoryProvider {
    Memory(MemoryRepository),
    Postgres(PostgresRepository),
    Sqlite(SqliteRepository),
}

/// The repository for storage backend `backend`.
pub fn build_repository_provider(backend: StorageBackend) -> (r: RepositoryProvider)
    ensures
        backend is Memory <==> r is Memory,
        backend is Postgres <==> r is Postgres,
        backend is Sqlite <==> r is Sqlite,
{
    match backend {
        StorageBackend::Memory => RepositoryProvider::Memory(MemoryRepository),
        StorageBackend::Postgres => RepositoryProvider::Postgres(PostgresRepository),
        StorageBackend::Sqlite => RepositoryProvider::Sqlite(SqliteRepository),
    }
}

impl RepositoryProvider {
    pub open spec fn name_spec(self) -> Seq<char> {
        match self {
            RepositoryProvider::Memory(_) => "memory"@,
            RepositoryProvider::Postgres(_) => "postgres"@,
            RepositoryProvider::Sqlite(_) => "sqlite"@,
        }
    }

    /// The repository's name.
    pub fn name(&self) -> (s: &'static str)
        ensures
            s@ == self.name_spec(),
    {
        match self {
            RepositoryProvider::Memory(_) => "memory",
            RepositoryProvider::Postgres(_) => "postgres",
            RepositoryProvider::Sqlite(_) => "sqlite",
        }
    }

    /// Whether the repository is the PostgreSQL one.
    pub fn is_postgres(&self) -> (b: bool)
        ensures
            b == (*self is Postgres),
    {
        match self {
            RepositoryProvider::Postgres(_) => true,
            _ => false,
        }
    }
}

/// The failure reported for the stored value `raw` of kind `kind` that means nothing.
pub fn unknown_stored_value(kind: StoredValueKind, raw: &str) -> (e: RepoError)
    ensures
        e matches RepoError::UnknownStoredValue { kind: k, raw: t } && k == kind && t@ == raw@,
{
    RepoError::UnknownStoredValue { kind, raw: String::from_str(raw) }
}

/// The role a stored role name means in the PostgreSQL store, which knows no `ADMIN`.
pub open spec fn parse_user_role_spec(raw: Seq<char>) -> Option<UserRole> {
    if raw == "OWNER"@ {
        Some(UserRole::Owner)
    } else if raw == "PURCHASER"@ {
        Some(UserRole::Purchaser)
    } else if raw == "SALES"@ {
        Some(UserRole::Sales)
    } else {
        None
    }
}

/// Reads a stored role name.
pub fn parse_user_role(raw: &str) -> (r: Result<UserRole, RepoError>)
    ensures
        match parse_user_role_spec(raw@) {
            Some(v) => r == Ok::<UserRole, RepoError>(v),
            None => r matches Err(RepoError::UnknownStoredValue { kind, raw: t }) && kind == StoredValueKind::UserRole && t@
                == raw@,
        },
{
    if str_eq(raw, "OWNER") {
        Ok(UserRole::Owner)
    } else if str_eq(raw, "PURCHASER") {
        Ok(UserRole::Purchaser)
    } else if str_eq(raw, "SALES") {
        Ok(UserRole::Sales)
    } else {
        Err(unknown_stored_value(StoredValueKind::UserRole, raw))
    }
}

/// The lookup status a stored name means.
pub open spec fn parse_barcode_lookup_status_spec(raw: Seq<char>) -> Option<BarcodeLookupStatus> {
    if raw == "FOUND"@ {
        Some(BarcodeLookupStatus::Found)
    } else if raw == "NOT_FOUND"@ {
        Some(BarcodeLookupStatus::NotFound)
    } else {
        None
    }
}

/// Reads a stored barcode lookup status.
pub fn parse_barcode_lookup_status(raw: &str) -> (r: Result<BarcodeLookupStatus, RepoError>)
    ensures
        match parse_barcode_lookup_status_spec(raw@) {
            Some(v) => r == Ok::<BarcodeLookupStatus, RepoError>(v),
            None => r matches Err(RepoError::UnknownStoredValue { kind, raw: t }) && kind
                == StoredValueKind::BarcodeLookupStatus && t@ == raw@,
        },
{
    if str_eq(raw, "FOUND") {
        Ok(BarcodeLookupStatus::Found)
    } else if str_eq(raw, "NOT_FOUND") {
        Ok(BarcodeLookupStatus::NotFound)
    } else {
        Err(unknown_stored_value(StoredValueKind::BarcodeLookupStatus, raw))
    }
}

/// The purchase-order status a stored name means.
pub open spec fn parse_purchase_order_status_spec(raw: Seq<char>) -> Option<PurchaseOrderStatus> {
    if raw == "DRAFT"@ {
        Some(PurchaseOrderStatus::Draft)
    } else if raw == "CONFIRMED"@ {
        Some(PurchaseOrderStatus::Confirmed)
    } else if raw == "VOIDED"@ {
        Some(PurchaseOrderStatus::Voided)
    } else {
        None
    }
}

/// Reads a stored purchase-order status.
pub fn parse_purchase_order_status(raw: &str) -> (r: Result<PurchaseOrderStatus, RepoError>)
    ensures
        match parse_purchase_order_status_spec(raw@) {
            Some(v) => r == Ok::<PurchaseOrderStatus, RepoError>(v),
            None => r matches Err(RepoError::UnknownStoredValue { kind, raw: t }) && kind
                == StoredValueKind::PurchaseOrderStatus && t@ == raw@,
        },
{
    if str_eq(raw, "DRAFT") {
        Ok(PurchaseOrderStatus::Draft)
    } else if str_eq(raw, "CONFIRMED") {
        Ok(PurchaseOrderStatus::Confirmed)
    } else if str_eq(raw, "VOIDED") {
        Ok(PurchaseOrderStatus::Voided)
    } else {
        Err(unknown_stored_value(StoredValueKind::PurchaseOrderStatus, raw))
    }
}

/// The sales-order status a stored name means.
pub open spec fn parse_sales_order_status_spec(raw: Seq<char>) -> Option<SalesOrderStatus> {
    if raw == "DRAFT"@ {
        Some(SalesOrderStatus::Draft)
    } else if raw == "CONFIRMED"@ {
        Some(SalesOrderStatus::Confirmed)
    } else if raw == "RETURNED_PARTIAL"@ {
        Some(SalesOrderStatus::ReturnedPartial)
    } else if raw == "RETURNED_FULL"@ {
        Some(SalesOrderStatus::ReturnedFull)
    } else if raw == "VOIDED"@ {
        Some(SalesOrderStatus::Voided)
    } else {
        None
    }
}

/// Reads a stored sales-order status.
pub fn parse_sales_order_status(raw: &str) -> (r: Result<SalesOrderStatus, RepoError>)
    ensures
        match parse_sales_order_status_spec(raw@) {
            Some(v) => r == Ok::<SalesOrderStatus, RepoError>(v),
            None => r matches Err(RepoError::UnknownStoredValue { kind, raw: t }) && kind
                == StoredValueKind::SalesOrderStatus && t@ == raw@,
        },
{
    if str_eq(raw, "DRAFT") {
        Ok(SalesOrderStatus::Draft)
    } else if str_eq(raw, "CONFIRMED") {
        Ok(SalesOrderStatus::Confirmed)
    } else if str_eq(raw, "RETURNED_PARTIAL") {
        Ok(SalesOrderStatus::ReturnedPartial)
    } else if str_eq(raw, "RETURNED_FULL") {
        Ok(SalesOrderStatus::ReturnedFull)
    } else if str_eq(raw, "VOIDED") {
        Ok(SalesOrderStatus::Voided)
    } else {
        Err(unknown_stored_value(StoredValueKind::SalesOrderStatus, raw))
    }
}

/// The stock-check status a stored name means.
pub open spec fn parse_stock_check_status_spec(raw: Seq<char>) -> Option<StockCheckStatus> {
    if raw == "DRAFT"@ {
        Some(StockCheckStatus::Draft)
    } else if raw == "COUNTING"@ {
        Some(StockCheckStatus::Counting)
    } else if raw == "CONFIRMED"@ {
        Some(StockCheckStatus::Confirmed)
    } else {
        None
    }
}

/// Reads a stored stock-check status.
pub fn parse_stock_check_status(raw: &str) -> (r: Result<StockCheckStatus, RepoError>)
    ensures
        match parse_stock_check_status_spec(raw@) {
            Some(v) => r == Ok::<StockCheckStatus, RepoError>(v),
            None => r matches Err(RepoError::UnknownStoredValue { kind, raw: t }) && kind
                == StoredValueKind::StockCheckStatus && t@ == raw@,
        },
{
    if str_eq(raw, "DRAFT") {
        Ok(StockCheckStatus::Draft)
    } else if str_eq(raw, "COUNTING") {
        Ok(StockCheckStatus::Counting)
    } else if str_eq(raw, "CONFIRMED") {
        Ok(StockCheckStatus::Confirmed)
    } else {
        Err(unknown_stored_value(StoredValueKind::StockCheckStatus, raw))
    }
}

/// Whether the database reported the SQLSTATE `sql_state` (`code` is the state it reported,
/// `None` for a failure that is not the database's).
pub fn is_sql_state(code: Option<&str>, sql_state: &str) -> (b: bool)
    ensures
        b == (code matches Some(c) && c@ == sql_state@),
{
    match code {
        Some(c) => str_eq(c, sql_state),
        None => false,
    }
}

/// Which write of a new document failed.
#[derive(Debug, Clone, Copy, PartialEq, Eq, Structural)]
pub enum InsertStage {
    /// The document's own row.
    Header,
    /// One of its lines.
    Line,
}

/// The failure to report when inserting a new document of kind `kind` numbered `biz_no`
/// failed at `stage` with SQLSTATE `code`: a taken number (unique violation `23505` on the
/// document's row) or a missing product (foreign-key violation `23503` on a line). `None`
/// for any other failure, which is reported as a database error.
pub fn insert_failure(kind: DocKind, biz_no: &String, stage: InsertStage, code: Option<&str>) -> (r: Option<RepoError>)
    ensures
        stage is Header && (code matches Some(c) && c@ == "23505"@) ==> (r matches Some(RepoError::BizNoTaken { kind: k, biz_no: b })
            && k == kind && b == *biz_no),
        stage is Line && (code matches Some(c) && c@ == "23503"@) ==> r == Some(RepoError::NotFound(Resource::Product)),
        !(stage is Header && (code matches Some(c) && c@ == "23505"@)) && !(stage is Line && (code matches Some(c) && c@
            == "23503"@)) ==> r is None,
{
    match stage {
        InsertStage::Header => {
            if is_sql_state(code, "23505") {
                Some(RepoError::BizNoTaken { kind, biz_no: biz_no.clone() })
            } else {
                None
            }
        },
        InsertStage::Line => {
            if is_sql_state(code, "23503") {
                Some(RepoError::NotFound(Resource::Product))
            } else {
                None
            }
        },
    }
}

/// The failure to report when inserting user `username` failed with SQLSTATE `code`: a
/// taken user name (unique violation `23505`); `None` for any other failure, which is
/// reported as a database error.
pub fn user_insert_failure(username: &String, code: Option<&str>) -> (r: Option<RepoError>)
    ensures
        (code matches Some(c) && c@ == "23505"@) ==> (r matches Some(RepoError::UsernameTaken { username: u }) && u
            == *username),
        !(code matches Some(c) && c@ == "23505"@) ==> r is None,
{
    if is_sql_state(code, "23505") {
        Some(RepoError::UsernameTaken { username: username.clone() })
    } else {
        None
    }
}

} // verus!
