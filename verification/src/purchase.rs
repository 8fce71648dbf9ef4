//! Purchase orders: confirming receives the goods, voiding a confirmed order takes them back.

use vstd::prelude::*;

use crate::documents::{
    build_logs, doc_snapshot, doc_version_conflict, logs_are, audit_is, AuditAction, AuditDraft,
    DocumentPlan, LogLine,
};
use crate::error::{DocSnapshot, RepoError, Resource, Snapshot, StatusRule};
use crate::inventory::StockBizType;
use crate::models::{DocStatus, Product, PurchaseOrder, PurchaseOrderItem, PurchaseOrderStatus, PurchaseOrderView};
use crate::moves::{apply_moves, lemma_moves_fold_len, lemma_take_fold_qty, moves_fold, MoveKind, StockMove};

verus! {

/// What an audit entry or a conflict reports of a purchase order.
pub open spec fn po_snapshot_spec(o: PurchaseOrderView) -> DocSnapshot {
    DocSnapshot {
        id: o.id,
        biz_no: o.biz_no,
        status: DocStatus::Purchase(o.status),
        version: o.version,
        updated_at: o.updated_at,
    }
}

fn po_snapshot(o: &PurchaseOrder) -> (s: DocSnapshot)
    ensures
        s == po_snapshot_spec(o@),
{
    doc_snapshot(o.id, &o.biz_no, DocStatus::Purchase(o.status), o.version, &o.updated_at)
}

/// The stock movement of each line of a purchase order.
pub open spec fn purchase_moves_spec(items: Seq<PurchaseOrderItem>) -> Seq<StockMove> {
    items.map_values(|it: PurchaseOrderItem| StockMove { product_id: it.product_id, qty: it.qty, unit_cost: it.unit_cost })
}

fn purchase_moves(items: &Vec<PurchaseOrderItem>) -> (r: Vec<StockMove>)
    ensures
        r@ == purchase_moves_spec(items@),
{
    let mut r: Vec<StockMove> = Vec::new();
    let mut i: usize = 0;
    while i < items.len()
        invariant
            i <= items@.len(),
            r@ == purchase_moves_spec(items@.subrange(0, i as int)),
        decreases items@.len() - i,
    {
        r.push(StockMove { product_id: items[i].product_id, qty: items[i].qty, unit_cost: items[i].unit_cost });
        proof {
            assert(items@.subrange(0, i + 1) =~= items@.subrange(0, i as int).push(items@[i as int]));
        }
        i = i + 1;
    }
    proof {
        assert(items@.subrange(0, items@.len() as int) =~= items@);
    }
    r
}

/// The stock-log data of each line when a purchase order is confirmed.
pub open spec fn receive_lines_spec(items: Seq<PurchaseOrderItem>) -> Seq<LogLine> {
    items.map_values(|it: PurchaseOrderItem| LogLine { delta_qty: it.qty, snapshot_sell_price: None, snapshot_inbound_unit_cost: Some(it.unit_cost) })
}

/// The stock-log data of each line when a confirmed purchase order is voided.
pub open spec fn void_lines_spec(items: Seq<PurchaseOrderItem>) -> Seq<LogLine> {
    items.map_values(|it: PurchaseOrderItem| LogLine { delta_qty: (-it.qty) as i32, snapshot_sell_price: None, snapshot_inbound_unit_cost: None })
}

fn purchase_log_lines(items: &Vec<PurchaseOrderItem>, void: bool) -> (r: Vec<LogLine>)
    requires
        void ==> forall|k: int| 0 <= k < items@.len() ==> #[trigger] items@[k].qty != i32::MIN,
    ensures
        !void ==> r@ == receive_lines_spec(items@),
        void ==> r@ == void_lines_spec(items@),
{
    let mut r: Vec<LogLine> = Vec::new();
    let mut i: usize = 0;
    while i < items.len()
        invariant
            i <= items@.len(),
            void ==> forall|k: int| 0 <= k < items@.len() ==> #[trigger] items@[k].qty != i32::MIN,
            !void ==> r@ == receive_lines_spec(items@.subrange(0, i as int)),
            void ==> r@ == void_lines_spec(items@.subrange(0, i as int)),
        decreases items@.len() - i,
    {
        let it = &items[i];
        if void {
            assert(items@[i as int].qty != i32::MIN);
            r.push(LogLine { delta_qty: -it.qty, snapshot_sell_price: None, snapshot_inbound_unit_cost: None });
        } else {
            r.push(LogLine { delta_qty: it.qty, snapshot_sell_price: None, snapshot_inbound_unit_cost: Some(it.unit_cost) });
        }
        proof {
            assert(items@.subrange(0, i + 1) =~= items@.subrange(0, i as int).push(items@[i as int]));
        }
        i = i + 1;
    }
    proof {
        assert(items@.subrange(0, items@.len() as int) =~= items@);
    }
    r
}

/// Confirming purchase order `o` against the locked rows `table` at time `now`: the order
/// as it is to be written and, line by line, the products as they are to be written.
pub open spec fn confirm_purchase_order_spec(o: PurchaseOrderView, expected_version: Option<i32>, table: Seq<Product>, now: String) -> Result<
    (PurchaseOrderView, Seq<Product>),
    RepoError,
> {
    if expected_version matches Some(ev) && ev != o.version {
        Err(doc_version_conflict(Resource::PurchaseOrder, po_snapshot_spec(o), expected_version->0))
    } else if o.status != PurchaseOrderStatus::Draft {
        Err(RepoError::StatusNotAllowed { rule: StatusRule::ConfirmPurchaseOrderNeedsDraft, status: DocStatus::Purchase(o.status) })
    } else {
        match moves_fold(table, purchase_moves_spec(o.items), MoveKind::Receive, o.items.len()) {
            Err(e) => Err(e),
            Ok((t, ups)) => if o.version == i32::MAX {
                Err(RepoError::NumericOverflow)
            } else {
                Ok((
                    PurchaseOrderView {
                        status: PurchaseOrderStatus::Confirmed,
                        version: (o.version + 1) as i32,
                        confirmed_at: Some(now),
                        updated_at: now,
                        ..o
                    },
                    ups,
                ))
            },
        }
    }
}

/// Confirms the purchase order locked as `locked` (`None` when it does not exist): each line
/// receives its goods at its unit cost into the locked product rows `table`, averaging the
/// cost, and the order becomes `CONFIRMED`. Log entries get consecutive ids from
/// `next_stock_log_id`; `now` is the time of the transition.
pub fn plan_confirm_purchase_order(
    locked: Option<PurchaseOrder>,
    expected_version: Option<i32>,
    table: Vec<Product>,
    next_stock_log_id: i64,
    now: String,
) -> (r: Result<DocumentPlan<PurchaseOrder>, RepoError>)
    requires
        locked matches Some(o) ==> next_stock_log_id + o.items@.len() <= i64::MAX,
    ensures
        match locked {
            None => r == Err::<DocumentPlan<PurchaseOrder>, RepoError>(RepoError::NotFound(Resource::PurchaseOrder)),
            Some(o) => match confirm_purchase_order_spec(o@, expected_version, table@, now) {
                Err(e) => r == Err::<DocumentPlan<PurchaseOrder>, RepoError>(e),
                Ok((doc, ups)) => r matches Ok(plan) && plan.document@ == doc && plan.products@ == ups
                    && logs_are(plan.stock_logs@, ups, receive_lines_spec(o.items@), StockBizType::InPurchase, o.biz_no@, next_stock_log_id as int)
                    && audit_is(plan.audit, AuditAction::PurchaseOrderConfirm, Resource::PurchaseOrder, o.id, po_snapshot_spec(o@), po_snapshot_spec(doc)),
            },
        },
{
    let o = match locked {
        Some(o) => o,
        None => {
            return Err(RepoError::NotFound(Resource::PurchaseOrder));
        },
    };
    if let Some(ev) = expected_version {
        if ev != o.version {
            return Err(RepoError::VersionConflict {
                resource: Resource::PurchaseOrder,
                resource_id: o.id,
                expected_version: ev,
                current_version: o.version,
                latest: Snapshot::Doc(po_snapshot(&o)),
            });
        }
    }
    match o.status {
        PurchaseOrderStatus::Draft => {},
        _ => {
            return Err(RepoError::StatusNotAllowed {
                rule: StatusRule::ConfirmPurchaseOrderNeedsDraft,
                status: DocStatus::Purchase(o.status),
            });
        },
    }
    let moves = purchase_moves(&o.items);
    let ups = match apply_moves(table, &moves, MoveKind::Receive) {
        Ok(ups) => ups,
        Err(e) => {
            return Err(e);
        },
    };
    proof {
        lemma_moves_fold_len(table@, moves@, MoveKind::Receive, moves@.len());
    }
    if o.version == i32::MAX {
        return Err(RepoError::NumericOverflow);
    }
    let lines = purchase_log_lines(&o.items, false);
    let logs = build_logs(&ups, &lines, StockBizType::InPurchase, o.biz_no.as_str(), next_stock_log_id);
    let before = po_snapshot(&o);
    let mut updated = o.clone();
    updated.status = PurchaseOrderStatus::Confirmed;
    updated.version = o.version + 1;
    updated.confirmed_at = Some(now.clone());
    updated.updated_at = now;
    let after = po_snapshot(&updated);
    Ok(DocumentPlan {
        document: updated,
        products: ups,
        stock_logs: logs,
        audit: AuditDraft {
            action: AuditAction::PurchaseOrderConfirm,
            target_type: Resource::PurchaseOrder,
            target_id: o.id,
            before,
            after,
        },
    })
}

/// Voiding purchase order `o` at time `now`: a confirmed order takes its goods back out of
/// the locked rows `table` (unless `allow_negative_stock`, not below zero); a draft moves no
/// stock. Returns the order as it is to be written and the products as they are to be written.
pub open spec fn void_purchase_order_spec(
    o: PurchaseOrderView,
    expected_version: Option<i32>,
    table: Seq<Product>,
    allow_negative_stock: bool,
    now: String,
) -> Result<(PurchaseOrderView, Seq<Product>), RepoError> {
    if expected_version matches Some(ev) && ev != o.version {
        Err(doc_version_conflict(Resource::PurchaseOrder, po_snapshot_spec(o), expected_version->0))
    } else if o.status == PurchaseOrderStatus::Voided {
        Err(RepoError::PurchaseOrderAlreadyVoided)
    } else {
        let moved = if o.status == PurchaseOrderStatus::Confirmed {
            moves_fold(
                table,
                purchase_moves_spec(o.items),
                MoveKind::Take { allow_negative_stock, for_void: true },
                o.items.len(),
            )
        } else {
            Ok((table, Seq::empty()))
        };
        match moved {
            Err(e) => Err(e),
            Ok((t, ups)) => if o.version == i32::MAX {
                Err(RepoError::NumericOverflow)
            } else {
                Ok((
                    PurchaseOrderView {
                        status: PurchaseOrderStatus::Voided,
                        version: (o.version + 1) as i32,
                        voided_at: Some(now),
                        updated_at: now,
                        ..o
                    },
                    ups,
                ))
            },
        }
    }
}

/// Voids the purchase order locked as `locked` (`None` when it does not exist). A confirmed
/// order takes each line's goods back out of the locked product rows `table`; unless
/// `allow_negative_stock`, no product may go below zero. The order becomes `VOIDED`.
pub fn plan_void_purchase_order(
    locked: Option<PurchaseOrder>,
    expected_version: Option<i32>,
    table: Vec<Product>,
    allow_negative_stock: bool,
    next_stock_log_id: i64,
    now: String,
) -> (r: Result<DocumentPlan<PurchaseOrder>, RepoError>)
    requires
        locked matches Some(o) ==> next_stock_log_id + o.items@.len() <= i64::MAX,
    ensures
        match locked {
            None => r == Err::<DocumentPlan<PurchaseOrder>, RepoError>(RepoError::NotFound(Resource::PurchaseOrder)),
            Some(o) => match void_purchase_order_spec(o@, expected_version, table@, allow_negative_stock, now) {
                Err(e) => r == Err::<DocumentPlan<PurchaseOrder>, RepoError>(e),
                Ok((doc, ups)) => r matches Ok(plan) && plan.document@ == doc && plan.products@ == ups
                    && logs_are(plan.stock_logs@, ups, void_lines_spec(o.items@), StockBizType::VoidPurchase, o.biz_no@, next_stock_log_id as int)
                    && audit_is(plan.audit, AuditAction::PurchaseOrderVoid, Resource::PurchaseOrder, o.id, po_snapshot_spec(o@), po_snapshot_spec(doc)),
            },
        },
{
    let o = match locked {
        Some(o) => o,
        None => {
            return Err(RepoError::NotFound(Resource::PurchaseOrder));
        },
    };
    if let Some(ev) = expected_version {
        if ev != o.version {
            return Err(RepoError::VersionConflict {
                resource: Resource::PurchaseOrder,
                resource_id: o.id,
                expected_version: ev,
                current_version: o.version,
                latest: Snapshot::Doc(po_snapshot(&o)),
            });
        }
    }
    let confirmed = match o.status {
        PurchaseOrderStatus::Voided => {
            return Err(RepoError::PurchaseOrderAlreadyVoided);
        },
        PurchaseOrderStatus::Confirmed => true,
        PurchaseOrderStatus::Draft => false,
    };
    let mut ups: Vec<Product> = Vec::new();
    let mut logs = Vec::new();
    if confirmed {
        let moves = purchase_moves(&o.items);
        let kind = MoveKind::Take { allow_negative_stock, for_void: true };
        ups = match apply_moves(table, &moves, kind) {
            Ok(ups) => ups,
            Err(e) => {
                return Err(e);
            },
        };
        proof {
            lemma_moves_fold_len(table@, moves@, kind, moves@.len());
            lemma_take_fold_qty(table@, moves@, allow_negative_stock, true, moves@.len());
            assert forall|k: int| 0 <= k < o.items@.len() implies #[trigger] o.items@[k].qty != i32::MIN by {
                assert(moves@[k].qty == o.items@[k].qty);
            }
        }
        if o.version == i32::MAX {
            return Err(RepoError::NumericOverflow);
        }
        let lines = purchase_log_lines(&o.items, true);
        logs = build_logs(&ups, &lines, StockBizType::VoidPurchase, o.biz_no.as_str(), next_stock_log_id);
    } else {
        if o.version == i32::MAX {
            return Err(RepoError::NumericOverflow);
        }
    }
    let before = po_snapshot(&o);
    let mut updated = o.clone();
    updated.status = PurchaseOrderStatus::Voided;
    updated.version = o.version + 1;
    updated.voided_at = Some(now.clone());
    updated.updated_at = now;
    let after = po_snapshot(&updated);
    Ok(DocumentPlan {
        document: updated,
        products: ups,
        stock_logs: logs,
        audit: AuditDraft {
            action: AuditAction::PurchaseOrderVoid,
            target_type: Resource::PurchaseOrder,
            target_id: o.id,
            before,
            after,
        },
    })
}

} // verus!
