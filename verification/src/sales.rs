//! Sales orders: confirming ships the goods, a draft can be voided, a confirmed order can be
//! returned in part or in full.

use vstd::prelude::*;

use crate::documents::{
    audit_is, build_logs, doc_snapshot, doc_version_conflict, logs_are, AuditAction, AuditDraft,
    DocumentPlan, LogLine,
};
use crate::error::{DocSnapshot, RepoError, Resource, Snapshot, StatusRule};
use crate::inventory::StockBizType;
use crate::models::{DocStatus, Product, SalesOrder, SalesOrderItem, SalesOrderStatus, SalesOrderView};
use crate::money::Money;
use crate::moves::{apply_moves, lemma_moves_fold_len, lemma_take_fold_qty, moves_fold, MoveKind, StockMove};
use crate::text::clone_opt_string;

verus! {

/// What an audit entry or a conflict reports of a sales order.
pub open spec fn so_snapshot_spec(o: SalesOrderView) -> DocSnapshot {
    DocSnapshot {
        id: o.id,
        biz_no: o.biz_no,
        status: DocStatus::Sales(o.status),
        version: o.version,
        updated_at: o.updated_at,
    }
}

fn so_snapshot(o: &SalesOrder) -> (s: DocSnapshot)
    ensures
        s == so_snapshot_spec(o@),
{
    doc_snapshot(o.id, &o.biz_no, DocStatus::Sales(o.status), o.version, &o.updated_at)
}

fn so_version_conflict(o: &SalesOrder, ev: i32) -> (e: RepoError)
    ensures
        e == doc_version_conflict(Resource::SalesOrder, so_snapshot_spec(o@), ev),
{
    RepoError::VersionConflict {
        resource: Resource::SalesOrder,
        resource_id: o.id,
        expected_version: ev,
        current_version: o.version,
        latest: Snapshot::Doc(so_snapshot(o)),
    }
}

/// The stock movement of each line of a sales order.
pub open spec fn sales_moves_spec(items: Seq<SalesOrderItem>) -> Seq<StockMove> {
    items.map_values(|it: SalesOrderItem| StockMove { product_id: it.product_id, qty: it.qty, unit_cost: it.sell_price })
}

/// The stock-log data of each line when a sales order is confirmed.
pub open spec fn ship_lines_spec(items: Seq<SalesOrderItem>) -> Seq<LogLine> {
    items.map_values(|it: SalesOrderItem| LogLine { delta_qty: (-it.qty) as i32, snapshot_sell_price: Some(it.sell_price), snapshot_inbound_unit_cost: None })
}

fn sales_moves_and_lines(items: &Vec<SalesOrderItem>) -> (r: (Vec<StockMove>, Vec<LogLine>))
    requires
        forall|k: int| 0 <= k < items@.len() ==> #[trigger] items@[k].qty != i32::MIN,
    ensures
        r.0@ == sales_moves_spec(items@),
        r.1@ == ship_lines_spec(items@),
{
    let mut moves: Vec<StockMove> = Vec::new();
    let mut lines: Vec<LogLine> = Vec::new();
    let mut i: usize = 0;
    while i < items.len()
        invariant
            i <= items@.len(),
            forall|k: int| 0 <= k < items@.len() ==> #[trigger] items@[k].qty != i32::MIN,
            moves@ == sales_moves_spec(items@.subrange(0, i as int)),
            lines@ == ship_lines_spec(items@.subrange(0, i as int)),
        decreases items@.len() - i,
    {
        let it = &items[i];
        assert(items@[i as int].qty != i32::MIN);
        moves.push(StockMove { product_id: it.product_id, qty: it.qty, unit_cost: it.sell_price });
        lines.push(LogLine { delta_qty: -it.qty, snapshot_sell_price: Some(it.sell_price), snapshot_inbound_unit_cost: None });
        proof {
            assert(items@.subrange(0, i + 1) =~= items@.subrange(0, i as int).push(items@[i as int]));
        }
        i = i + 1;
    }
    proof {
        assert(items@.subrange(0, items@.len() as int) =~= items@);
    }
    (moves, lines)
}

fn sales_moves(items: &Vec<SalesOrderItem>) -> (r: Vec<StockMove>)
    ensures
        r@ == sales_moves_spec(items@),
{
    let mut moves: Vec<StockMove> = Vec::new();
    let mut i: usize = 0;
    while i < items.len()
        invariant
            i <= items@.len(),
            moves@ == sales_moves_spec(items@.subrange(0, i as int)),
        decreases items@.len() - i,
    {
        let it = &items[i];
        moves.push(StockMove { product_id: it.product_id, qty: it.qty, unit_cost: it.sell_price });
        proof {
            assert(items@.subrange(0, i + 1) =~= items@.subrange(0, i as int).push(items@[i as int]));
        }
        i = i + 1;
    }
    proof {
        assert(items@.subrange(0, items@.len() as int) =~= items@);
    }
    moves
}

/// Confirming sales order `o` against the locked rows `table` at time `now`: each line takes
/// its goods out (unless `allow_negative_stock`, not below zero).
pub open spec fn confirm_sales_order_spec(
    o: SalesOrderView,
    expected_version: Option<i32>,
    table: Seq<Product>,
    allow_negative_stock: bool,
    now: String,
) -> Result<(SalesOrderView, Seq<Product>), RepoError> {
    if expected_version matches Some(ev) && ev != o.version {
        Err(doc_version_conflict(Resource::SalesOrder, so_snapshot_spec(o), expected_version->0))
    } else if o.status != SalesOrderStatus::Draft {
        Err(RepoError::StatusNotAllowed { rule: StatusRule::ConfirmSalesOrderNeedsDraft, status: DocStatus::Sales(o.status) })
    } else {
        match moves_fold(
            table,
            sales_moves_spec(o.items),
            MoveKind::Take { allow_negative_stock, for_void: false },
            o.items.len(),
        ) {
            Err(e) => Err(e),
            Ok((t, ups)) => if o.version == i32::MAX {
                Err(RepoError::NumericOverflow)
            } else {
                Ok((
                    SalesOrderView {
                        status: SalesOrderStatus::Confirmed,
                        version: (o.version + 1) as i32,
                        confirmed_at: Some(now),
                        updated_at: now,
                        ..o
                    },
                    ups,
                ))
            },
        }
    }
}

/// Confirms the sales order locked as `locked` (`None` when it does not exist): each line
/// takes its goods out of the locked product rows `table`; unless `allow_negative_stock`, no
/// product may go below zero. The order becomes `CONFIRMED`.
pub fn plan_confirm_sales_order(
    locked: Option<SalesOrder>,
    expected_version: Option<i32>,
    table: Vec<Product>,
    allow_negative_stock: bool,
    next_stock_log_id: i64,
    now: String,
) -> (r: Result<DocumentPlan<SalesOrder>, RepoError>)
    requires
        locked matches Some(o) ==> next_stock_log_id + o.items@.len() <= i64::MAX,
    ensures
        match locked {
            None => r == Err::<DocumentPlan<SalesOrder>, RepoError>(RepoError::NotFound(Resource::SalesOrder)),
            Some(o) => match confirm_sales_order_spec(o@, expected_version, table@, allow_negative_stock, now) {
                Err(e) => r == Err::<DocumentPlan<SalesOrder>, RepoError>(e),
                Ok((doc, ups)) => r matches Ok(plan) && plan.document@ == doc && plan.products@ == ups
                    && logs_are(plan.stock_logs@, ups, ship_lines_spec(o.items@), StockBizType::OutSale, o.biz_no@, next_stock_log_id as int)
                    && audit_is(plan.audit, AuditAction::SalesOrderConfirm, Resource::SalesOrder, o.id, so_snapshot_spec(o@), so_snapshot_spec(doc)),
            },
        },
{
    let o = match locked {
        Some(o) => o,
        None => {
            return Err(RepoError::NotFound(Resource::SalesOrder));
        },
    };
    if let Some(ev) = expected_version {
        if ev != o.version {
            return Err(so_version_conflict(&o, ev));
        }
    }
    match o.status {
        SalesOrderStatus::Draft => {},
        _ => {
            return Err(RepoError::StatusNotAllowed {
                rule: StatusRule::ConfirmSalesOrderNeedsDraft,
                status: DocStatus::Sales(o.status),
            });
        },
    }
    let moves = sales_moves(&o.items);
    let kind = MoveKind::Take { allow_negative_stock, for_void: false };
    let ups = match apply_moves(table, &moves, kind) {
        Ok(ups) => ups,
        Err(e) => {
            return Err(e);
        },
    };
    proof {
        lemma_moves_fold_len(table@, moves@, kind, moves@.len());
        lemma_take_fold_qty(table@, moves@, allow_negative_stock, false, moves@.len());
        assert forall|k: int| 0 <= k < o.items@.len() implies #[trigger] o.items@[k].qty != i32::MIN by {
            assert(moves@[k].qty == o.items@[k].qty);
        }
    }
    if o.version == i32::MAX {
        return Err(RepoError::NumericOverflow);
    }
    let (_, lines) = sales_moves_and_lines(&o.items);
    let logs = build_logs(&ups, &lines, StockBizType::OutSale, o.biz_no.as_str(), next_stock_log_id);
    let before = so_snapshot(&o);
    let mut updated = o.clone();
    updated.status = SalesOrderStatus::Confirmed;
    updated.version = o.version + 1;
    updated.confirmed_at = Some(now.clone());
    updated.updated_at = now;
    let after = so_snapshot(&updated);
    Ok(DocumentPlan {
        document: updated,
        products: ups,
        stock_logs: logs,
        audit: AuditDraft {
            action: AuditAction::SalesOrderConfirm,
            target_type: Resource::SalesOrder,
            target_id: o.id,
            before,
            after,
        },
    })
}

/// Voiding draft sales order `o` at time `now`.
pub open spec fn void_sales_order_spec(o: SalesOrderView, expected_version: Option<i32>, now: String) -> Result<SalesOrderView, RepoError> {
    if expected_version matches Some(ev) && ev != o.version {
        Err(doc_version_conflict(Resource::SalesOrder, so_snapshot_spec(o), expected_version->0))
    } else if o.status != SalesOrderStatus::Draft {
        Err(RepoError::StatusNotAllowed { rule: StatusRule::VoidSalesOrderNeedsDraft, status: DocStatus::Sales(o.status) })
    } else if o.version == i32::MAX {
        Err(RepoError::NumericOverflow)
    } else {
        Ok(SalesOrderView {
            status: SalesOrderStatus::Voided,
            version: (o.version + 1) as i32,
            voided_at: Some(now),
            updated_at: now,
            ..o
        })
    }
}

/// Voids the draft sales order locked as `locked` (`None` when it does not exist); no stock
/// moves. The order becomes `VOIDED`.
pub fn plan_void_sales_order(locked: Option<SalesOrder>, expected_version: Option<i32>, now: String) -> (r: Result<DocumentPlan<SalesOrder>, RepoError>)
    ensures
        match locked {
            None => r == Err::<DocumentPlan<SalesOrder>, RepoError>(RepoError::NotFound(Resource::SalesOrder)),
            Some(o) => match void_sales_order_spec(o@, expected_version, now) {
                Err(e) => r == Err::<DocumentPlan<SalesOrder>, RepoError>(e),
                Ok(doc) => r matches Ok(plan) && plan.document@ == doc && plan.products@.len() == 0
                    && plan.stock_logs@.len() == 0
                    && audit_is(plan.audit, AuditAction::SalesOrderVoid, Resource::SalesOrder, o.id, so_snapshot_spec(o@), so_snapshot_spec(doc)),
            },
        },
{
    let o = match locked {
        Some(o) => o,
        None => {
            return Err(RepoError::NotFound(Resource::SalesOrder));
        },
    };
    if let Some(ev) = expected_version {
        if ev != o.version {
            return Err(so_version_conflict(&o, ev));
        }
    }
    match o.status {
        SalesOrderStatus::Draft => {},
        _ => {
            return Err(RepoError::StatusNotAllowed {
                rule: StatusRule::VoidSalesOrderNeedsDraft,
                status: DocStatus::Sales(o.status),
            });
        },
    }
    if o.version == i32::MAX {
        return Err(RepoError::NumericOverflow);
    }
    let before = so_snapshot(&o);
    let mut updated = o.clone();
    updated.status = SalesOrderStatus::Voided;
    updated.version = o.version + 1;
    updated.voided_at = Some(now.clone());
    updated.updated_at = now;
    let after = so_snapshot(&updated);
    Ok(DocumentPlan {
        document: updated,
        products: Vec::new(),
        stock_logs: Vec::new(),
        audit: AuditDraft {
            action: AuditAction::SalesOrderVoid,
            target_type: Resource::SalesOrder,
            target_id: o.id,
            before,
            after,
        },
    })
}

/// One line of a return: which product comes back, and how many.
#[derive(Debug, Clone, Copy, PartialEq, Eq, Structural)]
pub struct ReturnLine {
    pub product_id: i64,
    pub qty: i32,
}

/// Index of the first line of `items` from position `i` on that sold product `pid`, or -1.
pub open spec fn item_index_from(items: Seq<SalesOrderItem>, pid: i64, i: int) -> int
    decreases items.len() - i,
{
    if i < 0 || i >= items.len() {
        -1
    } else if items[i].product_id == pid {
        i
    } else {
        item_index_from(items, pid, i + 1)
    }
}

/// Index of the first line of `items` that sold product `pid`, or -1.
pub open spec fn sales_item_index(items: Seq<SalesOrderItem>, pid: i64) -> int {
    item_index_from(items, pid, 0)
}

pub proof fn lemma_item_index_from(items: Seq<SalesOrderItem>, pid: i64, i: int)
    requires
        0 <= i,
    ensures
        item_index_from(items, pid, i) == -1 || (i <= item_index_from(items, pid, i) < items.len()
            && items[item_index_from(items, pid, i)].product_id == pid),
    decreases items.len() - i,
{
    if i < items.len() && items[i].product_id != pid {
        lemma_item_index_from(items, pid, i + 1);
    }
}

/// The product ids of the lines, position by position, are the same in `a` and `b`.
pub open spec fn same_products(a: Seq<SalesOrderItem>, b: Seq<SalesOrderItem>) -> bool {
    a.len() == b.len() && forall|k: int| 0 <= k < a.len() ==> #[trigger] a[k].product_id == b[k].product_id
}

pub proof fn lemma_same_products_index(a: Seq<SalesOrderItem>, b: Seq<SalesOrderItem>, pid: i64, i: int)
    requires
        same_products(a, b),
        0 <= i,
    ensures
        item_index_from(a, pid, i) == item_index_from(b, pid, i),
    decreases a.len() - i,
{
    if i < a.len() {
        assert(a[i].product_id == b[i].product_id);
        lemma_same_products_index(a, b, pid, i + 1);
    }
}

fn find_sales_item(items: &Vec<SalesOrderItem>, pid: i64) -> (r: Option<usize>)
    ensures
        match r {
            Some(j) => j < items@.len() && sales_item_index(items@, pid) == j && items@[j as int].product_id == pid,
            None => sales_item_index(items@, pid) == -1,
        },
{
    let mut i: usize = 0;
    while i < items.len()
        invariant
            i <= items@.len(),
            item_index_from(items@, pid, 0) == item_index_from(items@, pid, i as int),
        decreases items@.len() - i,
    {
        if items[i].product_id == pid {
            return Some(i);
        }
        i = i + 1;
    }
    None
}

/// Why `line` cannot be returned against the order lines `items`, if it cannot.
pub open spec fn return_line_error(items: Seq<SalesOrderItem>, line: ReturnLine) -> Option<RepoError> {
    if line.qty <= 0 {
        Some(RepoError::ItemQtyNotPositive)
    } else {
        let j = sales_item_index(items, line.product_id);
        if j < 0 {
            Some(RepoError::ReturnProductNotInOrder { product_id: line.product_id })
        } else if line.qty > items[j].qty - items[j].returned_qty {
            Some(RepoError::ReturnExceedsRemaining {
                product_id: line.product_id,
                remain_qty: (items[j].qty - items[j].returned_qty) as i64,
                request_qty: line.qty,
            })
        } else {
            None
        }
    }
}

/// The first of the first `n` return lines that cannot be returned, each checked against the
/// order lines with the return lines before it already counted (so that two lines of one
/// product together cannot return more than remains). Counting the lines before a line that
/// passed never leaves the `i32` range (`lemma_counted_while_valid`), so the last branch is
/// never taken.
pub open spec fn first_return_error(items: Seq<SalesOrderItem>, lines: Seq<ReturnLine>, n: nat) -> Option<RepoError>
    decreases n,
{
    if n == 0 {
        None
    } else {
        match first_return_error(items, lines, (n - 1) as nat) {
            Some(e) => Some(e),
            None => match apply_returns_spec(items, lines, (n - 1) as nat) {
                Some(cur) => return_line_error(cur, lines[n - 1]),
                None => Some(RepoError::NumericOverflow),
            },
        }
    }
}

/// The stock movement of each return line.
pub open spec fn return_moves_spec(lines: Seq<ReturnLine>) -> Seq<StockMove> {
    lines.map_values(|l: ReturnLine| StockMove { product_id: l.product_id, qty: l.qty, unit_cost: Money { units: 0 } })
}

/// The selling price recorded for returned product `pid`: that of its first order line.
pub open spec fn return_sell_price(items: Seq<SalesOrderItem>, pid: i64) -> Option<Money> {
    if sales_item_index(items, pid) >= 0 {
        Some(items[sales_item_index(items, pid)].sell_price)
    } else {
        None
    }
}

/// The stock-log data of each return line.
pub open spec fn return_log_lines_spec(items: Seq<SalesOrderItem>, lines: Seq<ReturnLine>) -> Seq<LogLine> {
    lines.map_values(|l: ReturnLine| LogLine { delta_qty: l.qty, snapshot_sell_price: return_sell_price(items, l.product_id), snapshot_inbound_unit_cost: None })
}

/// The order lines after the first `n` return lines are counted as returned, each on the
/// first line of its product; `None` when a returned quantity leaves the `i32` range.
pub open spec fn apply_returns_spec(items: Seq<SalesOrderItem>, lines: Seq<ReturnLine>, n: nat) -> Option<Seq<SalesOrderItem>>
    decreases n,
{
    if n == 0 {
        Some(items)
    } else {
        match apply_returns_spec(items, lines, (n - 1) as nat) {
            None => None,
            Some(cur) => {
                let j = sales_item_index(cur, lines[n - 1].product_id);
                if j < 0 {
                    Some(cur)
                } else if cur[j].returned_qty + lines[n - 1].qty > i32::MAX || cur[j].returned_qty + lines[n - 1].qty < i32::MIN {
                    None
                } else {
                    Some(cur.update(j, SalesOrderItem { returned_qty: (cur[j].returned_qty + lines[n - 1].qty) as i32, ..cur[j] }))
                }
            },
        }
    }
}

/// Whether every line of `items` is returned in full.
pub open spec fn fully_returned(items: Seq<SalesOrderItem>) -> bool {
    forall|k: int| 0 <= k < items.len() ==> #[trigger] items[k].returned_qty >= items[k].qty
}

/// Returning `lines` of sales order `o` at time `now`: each line's goods go back into the
/// locked rows `table` at their current cost, the order lines count them as returned, and
/// the order becomes `RETURNED_FULL` when every line is returned in full, else
/// `RETURNED_PARTIAL`; a given `remark` replaces the order's.
pub open spec fn return_sales_order_spec(
    o: SalesOrderView,
    expected_version: Option<i32>,
    table: Seq<Product>,
    lines: Seq<ReturnLine>,
    remark: Option<String>,
    now: String,
) -> Result<(SalesOrderView, Seq<Product>), RepoError> {
    if expected_version matches Some(ev) && ev != o.version {
        Err(doc_version_conflict(Resource::SalesOrder, so_snapshot_spec(o), expected_version->0))
    } else if !(o.status == SalesOrderStatus::Confirmed || o.status == SalesOrderStatus::ReturnedPartial) {
        Err(RepoError::StatusNotAllowed { rule: StatusRule::ReturnNeedsConfirmedOrPartial, status: DocStatus::Sales(o.status) })
    } else if lines.len() == 0 {
        Err(RepoError::ItemsEmpty)
    } else if first_return_error(o.items, lines, lines.len()) is Some {
        Err(first_return_error(o.items, lines, lines.len())->0)
    } else {
        match moves_fold(table, return_moves_spec(lines), MoveKind::Put, lines.len()) {
            Err(e) => Err(e),
            Ok((t, ups)) => {
                let new_items = apply_returns_spec(o.items, lines, lines.len())->0;
                if o.version == i32::MAX {
                    Err(RepoError::NumericOverflow)
                } else {
                    Ok((
                        SalesOrderView {
                            items: new_items,
                            status: if fully_returned(new_items) {
                                SalesOrderStatus::ReturnedFull
                            } else {
                                SalesOrderStatus::ReturnedPartial
                            },
                            version: (o.version + 1) as i32,
                            remark: if remark is Some { remark } else { o.remark },
                            returned_at: Some(now),
                            updated_at: now,
                            ..o
                        },
                        ups,
                    ))
                }
            },
        }
    }
}

proof fn lemma_first_return_error_prefix(items: Seq<SalesOrderItem>, lines: Seq<ReturnLine>, n: nat, m: nat)
    requires
        n <= m,
        first_return_error(items, lines, n) is Some,
    ensures
        first_return_error(items, lines, m) == first_return_error(items, lines, n),
    decreases m - n,
{
    if n < m {
        lemma_first_return_error_prefix(items, lines, n, (m - 1) as nat);
    }
}

/// While no return line among the first `n` fails, counting them never leaves the `i32` range.
pub proof fn lemma_counted_while_valid(items: Seq<SalesOrderItem>, lines: Seq<ReturnLine>, n: nat)
    requires
        n <= lines.len(),
        first_return_error(items, lines, n) is None,
    ensures
        apply_returns_spec(items, lines, n) is Some,
    decreases n,
{
    if n > 0 {
        lemma_counted_while_valid(items, lines, (n - 1) as nat);
        let cur = apply_returns_spec(items, lines, (n - 1) as nat)->0;
        lemma_item_index_from(cur, lines[n - 1].product_id, 0);
    }
}

/// Checks the return lines one by one against the order lines with the earlier return lines
/// counted, and gives the order lines with all of them counted, or the first refusal.
fn count_returns(items: &Vec<SalesOrderItem>, lines: &Vec<ReturnLine>) -> (r: Result<Vec<SalesOrderItem>, RepoError>)
    ensures
        match first_return_error(items@, lines@, lines@.len()) {
            Some(e) => r == Err::<Vec<SalesOrderItem>, RepoError>(e),
            None => r matches Ok(v) && apply_returns_spec(items@, lines@, lines@.len()) == Some(v@),
        },
{
    let mut cur = crate::models::clone_sales_items(items);
    let mut i: usize = 0;
    while i < lines.len()
        invariant
            i <= lines@.len(),
            first_return_error(items@, lines@, i as nat) is None,
            apply_returns_spec(items@, lines@, i as nat) == Some(cur@),
        decreases lines@.len() - i,
    {
        let line = lines[i];
        let mut err: Option<RepoError> = None;
        if line.qty <= 0 {
            err = Some(RepoError::ItemQtyNotPositive);
        } else {
            match find_sales_item(&cur, line.product_id) {
                None => {
                    err = Some(RepoError::ReturnProductNotInOrder { product_id: line.product_id });
                },
                Some(j) => {
                    let remain: i64 = cur[j].qty as i64 - cur[j].returned_qty as i64;
                    if line.qty as i64 > remain {
                        err = Some(RepoError::ReturnExceedsRemaining {
                            product_id: line.product_id,
                            remain_qty: remain,
                            request_qty: line.qty,
                        });
                    } else {
                        let nv: i32 = cur[j].returned_qty + line.qty;
                        let old = &cur[j];
                        let updated = SalesOrderItem {
                            product_id: old.product_id,
                            qty: old.qty,
                            sell_price: old.sell_price,
                            returned_qty: nv,
                            product_name_snapshot: clone_opt_string(&old.product_name_snapshot),
                        };
                        cur.set(j, updated);
                    }
                },
            }
        }
        if err.is_some() {
            proof {
                assert(first_return_error(items@, lines@, (i + 1) as nat) == err);
                lemma_first_return_error_prefix(items@, lines@, (i + 1) as nat, lines@.len());
            }
            return Err(err.unwrap());
        }
        i = i + 1;
    }
    Ok(cur)
}

fn return_moves_and_lines(items: &Vec<SalesOrderItem>, lines: &Vec<ReturnLine>) -> (r: (Vec<StockMove>, Vec<LogLine>))
    ensures
        r.0@ == return_moves_spec(lines@),
        r.1@ == return_log_lines_spec(items@, lines@),
{
    let mut moves: Vec<StockMove> = Vec::new();
    let mut logl: Vec<LogLine> = Vec::new();
    let mut i: usize = 0;
    while i < lines.len()
        invariant
            i <= lines@.len(),
            moves@ == return_moves_spec(lines@.subrange(0, i as int)),
            logl@ == return_log_lines_spec(items@, lines@.subrange(0, i as int)),
        decreases lines@.len() - i,
    {
        let l = lines[i];
        moves.push(StockMove { product_id: l.product_id, qty: l.qty, unit_cost: Money { units: 0 } });
        let sell = match find_sales_item(items, l.product_id) {
            Some(j) => Some(items[j].sell_price),
            None => None,
        };
        logl.push(LogLine { delta_qty: l.qty, snapshot_sell_price: sell, snapshot_inbound_unit_cost: None });
        proof {
            assert(lines@.subrange(0, i + 1) =~= lines@.subrange(0, i as int).push(lines@[i as int]));
        }
        i = i + 1;
    }
    proof {
        assert(lines@.subrange(0, lines@.len() as int) =~= lines@);
    }
    (moves, logl)
}

pub proof fn lemma_apply_returns_same_products(items: Seq<SalesOrderItem>, lines: Seq<ReturnLine>, n: nat)
    ensures
        apply_returns_spec(items, lines, n) matches Some(cur) ==> same_products(items, cur),
    decreases n,
{
    if n > 0 {
        lemma_apply_returns_same_products(items, lines, (n - 1) as nat);
        if let Some(cur) = apply_returns_spec(items, lines, (n - 1) as nat) {
            lemma_item_index_from(cur, lines[n - 1].product_id, 0);
        }
    }
}

fn all_returned(items: &Vec<SalesOrderItem>) -> (b: bool)
    ensures
        b == fully_returned(items@),
{
    let mut i: usize = 0;
    while i < items.len()
        invariant
            i <= items@.len(),
            forall|k: int| 0 <= k < i ==> #[trigger] items@[k].returned_qty >= items@[k].qty,
        decreases items@.len() - i,
    {
        if items[i].returned_qty < items[i].qty {
            return false;
        }
        i = i + 1;
    }
    true
}

/// Returns `lines` of the sales order locked as `locked` (`None` when it does not exist):
/// each line's goods go back into the locked product rows `table`, the order lines count them
/// as returned, and the order becomes `RETURNED_FULL` or `RETURNED_PARTIAL`.
pub fn plan_return_sales_order(
    locked: Option<SalesOrder>,
    expected_version: Option<i32>,
    table: Vec<Product>,
    lines: &Vec<ReturnLine>,
    remark: Option<String>,
    next_stock_log_id: i64,
    now: String,
) -> (r: Result<DocumentPlan<SalesOrder>, RepoError>)
    requires
        next_stock_log_id + lines@.len() <= i64::MAX,
    ensures
        match locked {
            None => r == Err::<DocumentPlan<SalesOrder>, RepoError>(RepoError::NotFound(Resource::SalesOrder)),
            Some(o) => match return_sales_order_spec(o@, expected_version, table@, lines@, remark, now) {
                Err(e) => r == Err::<DocumentPlan<SalesOrder>, RepoError>(e),
                Ok((doc, ups)) => r matches Ok(plan) && plan.document@ == doc && plan.products@ == ups
                    && logs_are(plan.stock_logs@, ups, return_log_lines_spec(o.items@, lines@), StockBizType::ReturnSale, o.biz_no@, next_stock_log_id as int)
                    && audit_is(plan.audit, AuditAction::SalesOrderReturn, Resource::SalesOrder, o.id, so_snapshot_spec(o@), so_snapshot_spec(doc)),
            },
        },
{
    let o = match locked {
        Some(o) => o,
        None => {
            return Err(RepoError::NotFound(Resource::SalesOrder));
        },
    };
    if let Some(ev) = expected_version {
        if ev != o.version {
            return Err(so_version_conflict(&o, ev));
        }
    }
    match o.status {
        SalesOrderStatus::Confirmed | SalesOrderStatus::ReturnedPartial => {},
        _ => {
            return Err(RepoError::StatusNotAllowed {
                rule: StatusRule::ReturnNeedsConfirmedOrPartial,
                status: DocStatus::Sales(o.status),
            });
        },
    }
    if lines.len() == 0 {
        return Err(RepoError::ItemsEmpty);
    }
    let new_items = match count_returns(&o.items, lines) {
        Ok(v) => v,
        Err(e) => {
            return Err(e);
        },
    };
    let (moves, logl) = return_moves_and_lines(&o.items, lines);
    let ups = match apply_moves(table, &moves, MoveKind::Put) {
        Ok(ups) => ups,
        Err(e) => {
            return Err(e);
        },
    };
    proof {
        lemma_moves_fold_len(table@, moves@, MoveKind::Put, moves@.len());
    }
    if o.version == i32::MAX {
        return Err(RepoError::NumericOverflow);
    }
    let logs = build_logs(&ups, &logl, StockBizType::ReturnSale, o.biz_no.as_str(), next_stock_log_id);
    let full = all_returned(&new_items);
    let before = so_snapshot(&o);
    let mut updated = o.clone();
    updated.items = new_items;
    updated.status = if full {
        SalesOrderStatus::ReturnedFull
    } else {
        SalesOrderStatus::ReturnedPartial
    };
    updated.version = o.version + 1;
    if remark.is_some() {
        updated.remark = remark;
    }
    updated.returned_at = Some(now.clone());
    updated.updated_at = now;
    let after = so_snapshot(&updated);
    Ok(DocumentPlan {
        document: updated,
        products: ups,
        stock_logs: logs,
        audit: AuditDraft {
            action: AuditAction::SalesOrderReturn,
            target_type: Resource::SalesOrder,
            target_id: o.id,
            before,
            after,
        },
    })
}

} // verus!
