//! What every document transition hands back: the document as it is to be written, the
//! products it moved, the stock-log entries, and the audit entry.

use vstd::prelude::*;

use crate::error::{DocSnapshot, RepoError, Resource, Snapshot};
use crate::inventory::{log_is, make_log, StockBizType, StockLogDraft};
use crate::models::{DocStatus, Product};
use crate::money::Money;

verus! {

/// The audited action of a document transition.
#[derive(Debug, Clone, Copy, PartialEq, Eq, Structural)]
pub enum AuditAction {
    PurchaseOrderConfirm,
    PurchaseOrderVoid,
    SalesOrderConfirm,
    SalesOrderVoid,
    SalesOrderReturn,
    StockCheckStart,
    StockCheckConfirm,
}

impl AuditAction {
    pub open spec fn name_spec(self) -> Seq<char> {
        match self {
            AuditAction::PurchaseOrderConfirm => "PURCHASE_ORDER_CONFIRM"@,
            AuditAction::PurchaseOrderVoid => "PURCHASE_ORDER_VOID"@,
            AuditAction::SalesOrderConfirm => "SALES_ORDER_CONFIRM"@,
            AuditAction::SalesOrderVoid => "SALES_ORDER_VOID"@,
            AuditAction::SalesOrderReturn => "SALES_ORDER_RETURN"@,
            AuditAction::StockCheckStart => "STOCK_CHECK_START"@,
            AuditAction::StockCheckConfirm => "STOCK_CHECK_CONFIRM"@,
        }
    }

    pub fn as_str(&self) -> (s: &'static str)
        ensures
            s@ == self.name_spec(),
    {
        match self {
            AuditAction::PurchaseOrderConfirm => "PURCHASE_ORDER_CONFIRM",
            AuditAction::PurchaseOrderVoid => "PURCHASE_ORDER_VOID",
            AuditAction::SalesOrderConfirm => "SALES_ORDER_CONFIRM",
            AuditAction::SalesOrderVoid => "SALES_ORDER_VOID",
            AuditAction::SalesOrderReturn => "SALES_ORDER_RETURN",
            AuditAction::StockCheckStart => "STOCK_CHECK_START",
            AuditAction::StockCheckConfirm => "STOCK_CHECK_CONFIRM",
        }
    }
}

/// An audit entry to insert: who did what to which document, and the document before and
/// after.
#[derive(Debug)]
pub struct AuditDraft {
    pub action: AuditAction,
    pub target_type: Resource,
    pub target_id: i64,
    pub before: DocSnapshot,
    pub after: DocSnapshot,
}

pub open spec fn audit_is(
    a: AuditDraft,
    action: AuditAction,
    target_type: Resource,
    target_id: i64,
    before: DocSnapshot,
    after: DocSnapshot,
) -> bool {
    &&& a.action == action
    &&& a.target_type == target_type
    &&& a.target_id == target_id
    &&& a.before == before
    &&& a.after == after
}

/// Everything a successful document transition writes, in one transaction.
#[derive(Debug)]
pub struct DocumentPlan<D> {
    pub document: D,
    pub products: Vec<Product>,
    pub stock_logs: Vec<StockLogDraft>,
    pub audit: AuditDraft,
}

/// The version conflict reported for document `snapshot` when `expected` was expected.
pub open spec fn doc_version_conflict(resource: Resource, snapshot: DocSnapshot, expected: i32) -> RepoError {
    RepoError::VersionConflict {
        resource,
        resource_id: snapshot.id,
        expected_version: expected,
        current_version: snapshot.version,
        latest: Snapshot::Doc(snapshot),
    }
}

pub fn doc_snapshot(id: i64, biz_no: &String, status: DocStatus, version: i32, updated_at: &String) -> (s: DocSnapshot)
    ensures
        s == (DocSnapshot { id, biz_no: *biz_no, status, version, updated_at: *updated_at }),
{
    DocSnapshot { id, biz_no: biz_no.clone(), status, version, updated_at: updated_at.clone() }
}

/// The per-line part of a stock-log entry: change of stock and the prices to record.
#[derive(Debug, Clone, Copy, PartialEq, Eq, Structural)]
pub struct LogLine {
    pub delta_qty: i32,
    pub snapshot_sell_price: Option<Money>,
    pub snapshot_inbound_unit_cost: Option<Money>,
}

/// Whether `logs` records line `k` of `lines` against product `ups[k]`, with ids from `first_id`.
pub open spec fn logs_are(
    logs: Seq<StockLogDraft>,
    ups: Seq<Product>,
    lines: Seq<LogLine>,
    biz_type: StockBizType,
    biz_no: Seq<char>,
    first_id: int,
) -> bool {
    &&& logs.len() == ups.len()
    &&& forall|k: int|
        0 <= k < ups.len() ==> log_is(
            #[trigger] logs[k],
            first_id + k,
            ups[k].id,
            biz_type,
            biz_no,
            lines[k].delta_qty as int,
            ups[k].current_stock as int,
            ups[k].cost_price,
            lines[k].snapshot_sell_price,
            lines[k].snapshot_inbound_unit_cost,
        )
}

/// The stock-log entries for the products `ups` moved by `lines`.
pub fn build_logs(
    ups: &Vec<Product>,
    lines: &Vec<LogLine>,
    biz_type: StockBizType,
    biz_no: &str,
    first_id: i64,
) -> (r: Vec<StockLogDraft>)
    requires
        ups@.len() == lines@.len(),
        first_id + ups@.len() <= i64::MAX,
    ensures
        logs_are(r@, ups@, lines@, biz_type, biz_no@, first_id as int),
{
    let mut logs: Vec<StockLogDraft> = Vec::new();
    let mut i: usize = 0;
    let mut id: i64 = first_id;
    while i < ups.len()
        invariant
            i <= ups@.len(),
            ups@.len() == lines@.len(),
            first_id + ups@.len() <= i64::MAX,
            id == first_id + i,
            logs@.len() == i,
            forall|k: int|
                0 <= k < i ==> log_is(
                    #[trigger] logs@[k],
                    first_id + k,
                    ups@[k].id,
                    biz_type,
                    biz_no@,
                    lines@[k].delta_qty as int,
                    ups@[k].current_stock as int,
                    ups@[k].cost_price,
                    lines@[k].snapshot_sell_price,
                    lines@[k].snapshot_inbound_unit_cost,
                ),
        decreases ups@.len() - i,
    {
        let line = lines[i];
        logs.push(
            make_log(
                id,
                ups[i].id,
                biz_type,
                biz_no,
                line.delta_qty,
                ups[i].current_stock,
                ups[i].cost_price,
                line.snapshot_sell_price,
                line.snapshot_inbound_unit_cost,
            ),
        );
        i = i + 1;
        id = id + 1;
    }
    logs
}

} // verus!
