//! Properties of the library as a whole: optimistic locking, the document state machines,
//! the stock ledger and the moving average cost.

use vstd::prelude::*;

use crate::config::StorageBackend;
use crate::costing::{round_half_even_div, weighted_cost_spec};
use crate::documents::doc_version_conflict;
use crate::error::{ErrorData, RepoError, Resource, Snapshot};
use crate::inventory::{
    first_index_from, inbound_apply_spec, index_of_product, lemma_index_of_product, line_expected_version,
    outbound_apply_spec, outbound_fold,
    product_snapshot_spec, product_version_conflict, OutboundItem,
};
use crate::models::{
    BarcodeLookupStatus, Product, UserRole, PurchaseOrderItem, PurchaseOrderStatus, PurchaseOrderView, SalesOrderItem, SalesOrderStatus,
    SalesOrderView, StockCheckItem, StockCheckStatus, StockCheckView,
};
use crate::models::DocStatus;
use crate::money::Money;
use crate::records::{
    first_purchase_row, first_sales_row, purchase_items_of, purchase_row_items, sales_items_of, sales_row_items,
    PurchaseItemRow, PurchaseOrderRow, SalesItemRow, SalesOrderRow,
};
use crate::moves::{lemma_moves_fold_len, move_apply_spec, moves_fold, MoveKind, StockMove};
use crate::purchase::{
    confirm_purchase_order_spec, po_snapshot_spec, purchase_moves_spec, receive_lines_spec,
    void_lines_spec, void_purchase_order_spec,
};
use crate::repository::{
    parse_barcode_lookup_status_spec, parse_purchase_order_status_spec, parse_sales_order_status_spec,
    parse_stock_check_status_spec, parse_user_role_spec,
};
use crate::repository_sqlite::parse_local_user_role_spec;
use crate::sales::{
    apply_returns_spec, fully_returned, confirm_sales_order_spec, first_return_error, lemma_item_index_from,
    lemma_same_products_index, return_line_error, return_log_lines_spec, return_moves_spec,
    return_sales_order_spec, sales_item_index, sales_moves_spec, ship_lines_spec, so_snapshot_spec, item_index_from,
    void_sales_order_spec, ReturnLine,
};
use crate::stock_check::{
    confirm_stock_check_spec, count_fold, count_index, sc_snapshot_spec, start_stock_check_spec,
    CountLine,
};

verus! {

/// A write that expects version `ev` of a product whose stored version differs is refused
/// with a version conflict naming the stored version and the product as it stands, answered
/// with HTTP 409 and business code 4091; the product is not written.
pub proof fn law_product_stale_version_refused(p: Product, ev: i32, qty: i32, unit_cost: Option<Money>, allow_negative_stock: bool)
    requires
        !p.is_deleted,
        ev != p.version,
    ensures
        inbound_apply_spec(p, qty, unit_cost, Some(ev)) == Err::<(Product, Money), RepoError>(product_version_conflict(p, ev)),
        outbound_apply_spec(p, qty, Some(ev), allow_negative_stock) == Err::<Product, RepoError>(product_version_conflict(p, ev)),
        product_version_conflict(p, ev).http_status_spec() == 409,
        product_version_conflict(p, ev).code_spec() == 4091,
        product_version_conflict(p, ev).data_spec() == (ErrorData::VersionConflict {
            resource: Resource::Product,
            resource_id: p.id,
            expected_version: ev,
            current_version: p.version,
            latest_snapshot: Snapshot::Product(product_snapshot_spec(p)),
        }),
{
}

/// Confirming or voiding a purchase order with an expected version other than the stored one
/// is refused with a version conflict (HTTP 409, code 4091) that reports the stored version
/// and the order as it stands.
pub proof fn law_purchase_order_stale_version_refused(
    o: PurchaseOrderView,
    ev: i32,
    table: Seq<Product>,
    allow_negative_stock: bool,
    now: String,
)
    requires
        ev != o.version,
    ensures
        confirm_purchase_order_spec(o, Some(ev), table, now) == Err::<(PurchaseOrderView, Seq<Product>), RepoError>(
            doc_version_conflict(Resource::PurchaseOrder, po_snapshot_spec(o), ev),
        ),
        void_purchase_order_spec(o, Some(ev), table, allow_negative_stock, now) == Err::<(PurchaseOrderView, Seq<Product>), RepoError>(
            doc_version_conflict(Resource::PurchaseOrder, po_snapshot_spec(o), ev),
        ),
        doc_version_conflict(Resource::PurchaseOrder, po_snapshot_spec(o), ev).http_status_spec() == 409,
        doc_version_conflict(Resource::PurchaseOrder, po_snapshot_spec(o), ev).code_spec() == 4091,
        doc_version_conflict(Resource::PurchaseOrder, po_snapshot_spec(o), ev).data_spec() == (ErrorData::VersionConflict {
            resource: Resource::PurchaseOrder,
            resource_id: o.id,
            expected_version: ev,
            current_version: o.version,
            latest_snapshot: Snapshot::Doc(po_snapshot_spec(o)),
        }),
{
}

/// Confirming, voiding or returning a sales order with an expected version other than the
/// stored one is refused with a version conflict (HTTP 409, code 4091) that reports the
/// stored version and the order as it stands.
pub proof fn law_sales_order_stale_version_refused(
    o: SalesOrderView,
    ev: i32,
    table: Seq<Product>,
    allow_negative_stock: bool,
    lines: Seq<ReturnLine>,
    remark: Option<String>,
    now: String,
)
    requires
        ev != o.version,
    ensures
        confirm_sales_order_spec(o, Some(ev), table, allow_negative_stock, now) == Err::<(SalesOrderView, Seq<Product>), RepoError>(
            doc_version_conflict(Resource::SalesOrder, so_snapshot_spec(o), ev),
        ),
        void_sales_order_spec(o, Some(ev), now) == Err::<SalesOrderView, RepoError>(
            doc_version_conflict(Resource::SalesOrder, so_snapshot_spec(o), ev),
        ),
        return_sales_order_spec(o, Some(ev), table, lines, remark, now) == Err::<(SalesOrderView, Seq<Product>), RepoError>(
            doc_version_conflict(Resource::SalesOrder, so_snapshot_spec(o), ev),
        ),
        doc_version_conflict(Resource::SalesOrder, so_snapshot_spec(o), ev).http_status_spec() == 409,
        doc_version_conflict(Resource::SalesOrder, so_snapshot_spec(o), ev).code_spec() == 4091,
        doc_version_conflict(Resource::SalesOrder, so_snapshot_spec(o), ev).data_spec() == (ErrorData::VersionConflict {
            resource: Resource::SalesOrder,
            resource_id: o.id,
            expected_version: ev,
            current_version: o.version,
            latest_snapshot: Snapshot::Doc(so_snapshot_spec(o)),
        }),
{
}

/// Starting or confirming a stock check with an expected version other than the stored one
/// is refused with a version conflict (HTTP 409, code 4091) that reports the stored version
/// and the check as it stands.
pub proof fn law_stock_check_stale_version_refused(
    c: StockCheckView,
    ev: i32,
    table: Seq<Product>,
    lines: Seq<CountLine>,
    remark: Option<String>,
    now: String,
)
    requires
        ev != c.version,
    ensures
        start_stock_check_spec(c, Some(ev), now) == Err::<StockCheckView, RepoError>(
            doc_version_conflict(Resource::StockCheck, sc_snapshot_spec(c), ev),
        ),
        confirm_stock_check_spec(c, Some(ev), table, lines, remark, now) == Err::<
            (StockCheckView, Seq<Product>, Seq<Product>, Seq<crate::documents::LogLine>),
            RepoError,
        >(doc_version_conflict(Resource::StockCheck, sc_snapshot_spec(c), ev)),
        doc_version_conflict(Resource::StockCheck, sc_snapshot_spec(c), ev).http_status_spec() == 409,
        doc_version_conflict(Resource::StockCheck, sc_snapshot_spec(c), ev).code_spec() == 4091,
        doc_version_conflict(Resource::StockCheck, sc_snapshot_spec(c), ev).data_spec() == (ErrorData::VersionConflict {
            resource: Resource::StockCheck,
            resource_id: c.id,
            expected_version: ev,
            current_version: c.version,
            latest_snapshot: Snapshot::Doc(sc_snapshot_spec(c)),
        }),
{
}

/// The purchase-order state machine: `DRAFT -> CONFIRMED -> VOIDED`, where a draft may also
/// be voided. Every successful transition follows one of these edges and raises the
/// version by one.
pub open spec fn purchase_step(from: PurchaseOrderStatus, to: PurchaseOrderStatus) -> bool {
    ||| from == PurchaseOrderStatus::Draft && to == PurchaseOrderStatus::Confirmed
    ||| from == PurchaseOrderStatus::Confirmed && to == PurchaseOrderStatus::Voided
    ||| from == PurchaseOrderStatus::Draft && to == PurchaseOrderStatus::Voided
}

/// Every successful purchase-order transition follows an edge of the state machine and
/// raises the order's version by one.
pub proof fn law_purchase_order_lifecycle(
    o: PurchaseOrderView,
    expected_version: Option<i32>,
    table: Seq<Product>,
    allow_negative_stock: bool,
    now: String,
)
    ensures
        confirm_purchase_order_spec(o, expected_version, table, now) matches Ok((doc, _)) ==> purchase_step(o.status, doc.status)
            && doc.status == PurchaseOrderStatus::Confirmed && doc.version == o.version + 1,
        void_purchase_order_spec(o, expected_version, table, allow_negative_stock, now) matches Ok((doc, _)) ==> purchase_step(o.status, doc.status)
            && doc.status == PurchaseOrderStatus::Voided && doc.version == o.version + 1,
{
}

/// The sales-order state machine: a draft is confirmed or voided; a confirmed or partly
/// returned order is returned in part or in full.
pub open spec fn sales_step(from: SalesOrderStatus, to: SalesOrderStatus) -> bool {
    ||| from == SalesOrderStatus::Draft && to == SalesOrderStatus::Confirmed
    ||| from == SalesOrderStatus::Draft && to == SalesOrderStatus::Voided
    ||| (from == SalesOrderStatus::Confirmed || from == SalesOrderStatus::ReturnedPartial) && (to
        == SalesOrderStatus::ReturnedPartial || to == SalesOrderStatus::ReturnedFull)
}

/// Every successful sales-order transition follows an edge of the state machine and raises
/// the order's version by one.
pub proof fn law_sales_order_lifecycle(
    o: SalesOrderView,
    expected_version: Option<i32>,
    table: Seq<Product>,
    allow_negative_stock: bool,
    lines: Seq<ReturnLine>,
    remark: Option<String>,
    now: String,
)
    ensures
        confirm_sales_order_spec(o, expected_version, table, allow_negative_stock, now) matches Ok((doc, _)) ==> sales_step(o.status, doc.status)
            && doc.status == SalesOrderStatus::Confirmed && doc.version == o.version + 1,
        void_sales_order_spec(o, expected_version, now) matches Ok(doc) ==> sales_step(o.status, doc.status)
            && doc.status == SalesOrderStatus::Voided && doc.version == o.version + 1,
        return_sales_order_spec(o, expected_version, table, lines, remark, now) matches Ok((doc, _)) ==> sales_step(o.status, doc.status)
            && doc.version == o.version + 1,
{
}

/// The stock-check state machine: `DRAFT -> COUNTING -> CONFIRMED`.
pub open spec fn check_step(from: StockCheckStatus, to: StockCheckStatus) -> bool {
    ||| from == StockCheckStatus::Draft && to == StockCheckStatus::Counting
    ||| from == StockCheckStatus::Counting && to == StockCheckStatus::Confirmed
}

/// Every successful stock-check transition follows an edge of the state machine and raises
/// the check's version by one.
pub proof fn law_stock_check_lifecycle(
    c: StockCheckView,
    expected_version: Option<i32>,
    table: Seq<Product>,
    lines: Seq<CountLine>,
    remark: Option<String>,
    now: String,
)
    ensures
        start_stock_check_spec(c, expected_version, now) matches Ok(doc) ==> check_step(c.status, doc.status)
            && doc.status == StockCheckStatus::Counting && doc.version == c.version + 1,
        confirm_stock_check_spec(c, expected_version, table, lines, remark, now) matches Ok((doc, _, _, _)) ==> check_step(c.status, doc.status)
            && doc.status == StockCheckStatus::Confirmed && doc.version == c.version + 1,
{
}

proof fn lemma_mix_bounds(a: int, x: int, b: int, y: int)
    requires
        x >= 0,
        y > 0,
    ensures
        a <= b ==> a * (x + y) <= a * x + b * y <= b * (x + y),
        b <= a ==> b * (x + y) <= a * x + b * y <= a * (x + y),
{
    assert(a <= b ==> a * (x + y) <= a * x + b * y <= b * (x + y)) by (nonlinear_arith)
        requires
            x >= 0,
            y > 0,
    ;
    assert(b <= a ==> b * (x + y) <= a * x + b * y <= a * (x + y)) by (nonlinear_arith)
        requires
            x >= 0,
            y > 0,
    ;
}

proof fn lemma_round_within(num: int, den: int, lo: int, hi: int)
    requires
        den > 0,
        lo * den <= num <= hi * den,
    ensures
        lo <= round_half_even_div(num, den) <= hi,
{
    vstd::arithmetic::div_mod::lemma_fundamental_div_mod(num, den);
    let q = num / den;
    let r = num % den;
    assert(0 <= r < den);
    assert(q >= lo) by (nonlinear_arith)
        requires
            num == den * q + r,
            r < den,
            lo * den <= num,
            den > 0,
    ;
    assert(q <= hi) by (nonlinear_arith)
        requires
            num == den * q + r,
            r >= 0,
            num <= hi * den,
            den > 0,
    ;
    if q == hi {
        assert(r == 0) by (nonlinear_arith)
            requires
                num == den * q + r,
                r >= 0,
                num <= hi * den,
                q == hi,
        ;
    }
}

/// The moving weighted average: when goods arrive at a product whose stock is not negative,
/// its new cost lies between its old cost and the unit cost of the goods; when its stock was
/// zero, the new cost is that unit cost.
pub proof fn law_weighted_cost_between(p: Product, qty: i32, unit_cost: Option<Money>, expected_version: Option<i32>)
    requires
        p.current_stock >= 0,
        qty > 0,
    ensures
        inbound_apply_spec(p, qty, unit_cost, expected_version) matches Ok((q, eff)) ==> {
            &&& (p.cost_price.units <= eff.units ==> p.cost_price.units <= q.cost_price.units <= eff.units)
            &&& (eff.units <= p.cost_price.units ==> eff.units <= q.cost_price.units <= p.cost_price.units)
            &&& (p.current_stock == 0 ==> q.cost_price == eff)
        },
{
    if let Ok((q, eff)) = inbound_apply_spec(p, qty, unit_cost, expected_version) {
        let a = p.cost_price.units as int;
        let x = p.current_stock as int;
        let b = eff.units as int;
        let y = qty as int;
        let num = a * x + b * y;
        assert(q.cost_price.units == weighted_cost_spec(x, a, y, b));
        lemma_mix_bounds(a, x, b, y);
        if a <= b {
            lemma_round_within(num, x + y, a, b);
        } else {
            lemma_round_within(num, x + y, b, a);
        }
        if x == 0 {
            assert(a * x == 0) by (nonlinear_arith)
                requires
                    x == 0,
            ;
            lemma_round_within(num, y, b, b);
        }
    }
}

proof fn lemma_round_nearest(num: int, den: int)
    requires
        den > 0,
    ensures
        -den <= 2 * (round_half_even_div(num, den) * den - num) <= den,
{
    vstd::arithmetic::div_mod::lemma_fundamental_div_mod(num, den);
    let q = num / den;
    let r = num % den;
    assert(round_half_even_div(num, den) * den - num == (round_half_even_div(num, den) - q) * den - r) by (nonlinear_arith)
        requires
            num == den * q + r,
    ;
    if round_half_even_div(num, den) == q {
        assert((q - q) * den == 0) by (nonlinear_arith);
    } else {
        assert((q + 1 - q) * den == den) by (nonlinear_arith);
    }
}

/// The moving weighted average is the nearest amount (to four decimal places) to the total
/// value over the new stock: when goods arrive and the new stock is positive, the new cost
/// times the new stock differs from the old value plus the value received by at most half
/// the new stock, in ten-thousandths.
pub proof fn law_weighted_cost_nearest(p: Product, qty: i32, unit_cost: Option<Money>, expected_version: Option<i32>)
    ensures
        inbound_apply_spec(p, qty, unit_cost, expected_version) matches Ok((q, eff)) ==> q.current_stock > 0 ==> {
            let value = p.cost_price.units * p.current_stock + eff.units * qty;
            let off = q.cost_price.units * q.current_stock - value;
            -(q.current_stock as int) <= 2 * off <= q.current_stock
        },
{
    if let Ok((q, eff)) = inbound_apply_spec(p, qty, unit_cost, expected_version) {
        if q.current_stock > 0 {
            let num = p.cost_price.units * p.current_stock + eff.units * qty;
            lemma_round_nearest(num, q.current_stock as int);
        }
    }
}

/// With negative stock disallowed, taking goods out never writes a product below zero.
pub proof fn law_take_never_negative(table: Seq<Product>, moves: Seq<StockMove>, for_void: bool, n: nat)
    ensures
        moves_fold(table, moves, MoveKind::Take { allow_negative_stock: false, for_void }, n) matches Ok((t, ups))
            ==> forall|k: int| 0 <= k < ups.len() ==> #[trigger] ups[k].current_stock >= 0,
    decreases n,
{
    if n > 0 {
        law_take_never_negative(table, moves, for_void, (n - 1) as nat);
    }
}

/// With negative stock disallowed, an outbound never writes a product below zero.
pub proof fn law_outbound_never_negative(table: Seq<Product>, items: Seq<OutboundItem>, default_expected_version: Option<i32>, n: nat)
    ensures
        outbound_fold(table, items, default_expected_version, false, n) matches Ok((t, ups))
            ==> forall|k: int| 0 <= k < ups.len() ==> #[trigger] ups[k].current_stock >= 0,
    decreases n,
{
    if n > 0 {
        law_outbound_never_negative(table, items, default_expected_version, (n - 1) as nat);
    }
}

/// The row of the product of outbound line `k` just before that line is issued.
pub open spec fn outbound_row_before(
    table: Seq<Product>,
    items: Seq<OutboundItem>,
    default_expected_version: Option<i32>,
    allow_negative_stock: bool,
    k: int,
) -> Product {
    let t = outbound_fold(table, items, default_expected_version, allow_negative_stock, k as nat)->Ok_0.0;
    t[index_of_product(t, items[k].product_id)]
}

/// The ledger of an outbound: when it goes through, line `k` writes its product with the
/// stock it had just before the line lowered by the line's quantity, its version raised by
/// one and its cost unchanged; that row stood at the version the line expected, if any; and
/// with negative stock disallowed no written stock is below zero.
pub proof fn law_outbound_ledger(
    table: Seq<Product>,
    items: Seq<OutboundItem>,
    default_expected_version: Option<i32>,
    allow_negative_stock: bool,
    n: nat,
)
    requires
        n <= items.len(),
    ensures
        outbound_fold(table, items, default_expected_version, allow_negative_stock, n) matches Ok((t, ups)) ==> {
            &&& ups.len() == n
            &&& forall|k: int| 0 <= k < n ==> {
                let before = #[trigger] outbound_row_before(table, items, default_expected_version, allow_negative_stock, k);
                &&& ups[k].id == items[k].product_id
                &&& !before.is_deleted
                &&& ups[k].current_stock == before.current_stock - items[k].qty
                &&& ups[k].version == before.version + 1
                &&& ups[k].cost_price == before.cost_price
                &&& (line_expected_version(items[k].expected_version, default_expected_version) matches Some(ev)
                    ==> before.version == ev)
                &&& !allow_negative_stock ==> ups[k].current_stock >= 0
            }
        },
    decreases n,
{
    if n > 0 {
        law_outbound_ledger(table, items, default_expected_version, allow_negative_stock, (n - 1) as nat);
        if let Ok((t0, ups0)) = outbound_fold(table, items, default_expected_version, allow_negative_stock, (n - 1) as nat) {
            lemma_index_of_product(t0, items[n - 1].product_id);
            if let Ok((t, ups)) = outbound_fold(table, items, default_expected_version, allow_negative_stock, n) {
                assert forall|k: int| 0 <= k < n implies {
                    let before = #[trigger] outbound_row_before(table, items, default_expected_version, allow_negative_stock, k);
                    &&& ups[k].id == items[k].product_id
                    &&& !before.is_deleted
                    &&& ups[k].current_stock == before.current_stock - items[k].qty
                    &&& ups[k].version == before.version + 1
                    &&& ups[k].cost_price == before.cost_price
                    &&& (line_expected_version(items[k].expected_version, default_expected_version) matches Some(ev)
                        ==> before.version == ev)
                    &&& !allow_negative_stock ==> ups[k].current_stock >= 0
                } by {
                    if k < n - 1 {
                        assert(ups[k] == ups0[k]);
                    }
                }
            }
        }
    }
}

/// The signed change of stock that movement `mv` of kind `kind` makes.
pub open spec fn move_delta(kind: MoveKind, mv: StockMove) -> int {
    match kind {
        MoveKind::Take { .. } => -(mv.qty as int),
        _ => mv.qty as int,
    }
}

/// The stock of the product of movement `k` just before that movement is applied.
pub open spec fn stock_before(table: Seq<Product>, moves: Seq<StockMove>, kind: MoveKind, k: int) -> int {
    match moves_fold(table, moves, kind, k as nat) {
        Ok((t, _)) => t[index_of_product(t, moves[k].product_id)].current_stock as int,
        Err(_) => 0,
    }
}

proof fn lemma_move_apply_delta(kind: MoveKind, p: Product, mv: StockMove)
    ensures
        move_apply_spec(kind, p, mv) matches Ok(q) ==> q.current_stock == p.current_stock + move_delta(kind, mv)
            && q.id == p.id && q.is_deleted == p.is_deleted && q.version == p.version + 1,
{
}

/// Whether the products `ups` written by a run of movements are the moved products, each
/// with the stock it had just before its movement plus the signed quantity moved.
pub open spec fn moves_ledger_holds(table: Seq<Product>, moves: Seq<StockMove>, kind: MoveKind, ups: Seq<Product>) -> bool {
    forall|k: int|
        0 <= k < ups.len() ==> #[trigger] ups[k].current_stock == stock_before(table, moves, kind, k) + move_delta(kind, moves[k])
            && ups[k].id == moves[k].product_id
}

/// The stock ledger of a run of movements: the product written for each movement is the
/// moved product, and its stock is the stock just before the movement plus the signed
/// quantity moved.
#[verifier::spinoff_prover]
pub proof fn law_moves_ledger(table: Seq<Product>, moves: Seq<StockMove>, kind: MoveKind, n: nat)
    ensures
        moves_fold(table, moves, kind, n) matches Ok((t, ups)) ==> ups.len() == n && moves_ledger_holds(table, moves, kind, ups),
    decreases n,
{
    lemma_moves_fold_len(table, moves, kind, n);
    if n > 0 {
        law_moves_ledger(table, moves, kind, (n - 1) as nat);
        match moves_fold(table, moves, kind, (n - 1) as nat) {
            Err(_) => {},
            Ok((t0, ups0)) => {
                let mv = moves[n - 1];
                let idx = index_of_product(t0, mv.product_id);
                crate::inventory::lemma_index_of_product(t0, mv.product_id);
                lemma_moves_fold_len(table, moves, kind, (n - 1) as nat);
                if idx >= 0 {
                    lemma_move_apply_delta(kind, t0[idx], mv);
                    match move_apply_spec(kind, t0[idx], mv) {
                        Err(_) => {},
                        Ok(p) => {
                            let ups = ups0.push(p);
                            assert(moves_fold(table, moves, kind, n) == Ok::<(Seq<Product>, Seq<Product>), RepoError>(
                                (t0.update(idx, p), ups),
                            ));
                            assert(stock_before(table, moves, kind, n - 1) == t0[idx].current_stock);
                            assert forall|k: int| 0 <= k < ups.len() implies #[trigger] ups[k].current_stock == stock_before(
                                table,
                                moves,
                                kind,
                                k,
                            ) + move_delta(kind, moves[k]) && ups[k].id == moves[k].product_id by {
                                if k < n - 1 {
                                    assert(ups[k] == ups0[k]);
                                } else {
                                    assert(ups[k] == p);
                                }
                            }
                            assert(moves_ledger_holds(table, moves, kind, ups));
                        },
                    }
                }
            },
        }
    }
}

/// The stock ledger of a purchase-order confirmation: line `k` writes product
/// `items[k].product_id` with the stock it had just before the line plus the logged change,
/// which is the line's quantity.
pub proof fn law_purchase_confirm_ledger(o: PurchaseOrderView, expected_version: Option<i32>, table: Seq<Product>, now: String)
    ensures
        confirm_purchase_order_spec(o, expected_version, table, now) matches Ok((doc, ups)) ==> ups.len() == o.items.len()
            && forall|k: int| 0 <= k < ups.len() ==> #[trigger] ups[k].current_stock == stock_before(
                table,
                purchase_moves_spec(o.items),
                MoveKind::Receive,
                k,
            ) + receive_lines_spec(o.items)[k].delta_qty && ups[k].id == o.items[k].product_id
                && receive_lines_spec(o.items)[k].delta_qty == o.items[k].qty,
{
    law_moves_ledger(table, purchase_moves_spec(o.items), MoveKind::Receive, o.items.len());
}

/// The stock ledger of voiding a confirmed purchase order: line `k` takes its quantity back
/// out, and the logged change is minus the line's quantity.
#[verifier::spinoff_prover]
pub proof fn law_purchase_void_ledger(
    o: PurchaseOrderView,
    expected_version: Option<i32>,
    table: Seq<Product>,
    allow_negative_stock: bool,
    now: String,
)
    requires
        o.status == PurchaseOrderStatus::Confirmed,
    ensures
        void_purchase_order_spec(o, expected_version, table, allow_negative_stock, now) matches Ok((doc, ups)) ==> ups.len()
            == o.items.len() && forall|k: int| 0 <= k < ups.len() ==> #[trigger] ups[k].current_stock == stock_before(
                table,
                purchase_moves_spec(o.items),
                MoveKind::Take { allow_negative_stock, for_void: true },
                k,
            ) + void_lines_spec(o.items)[k].delta_qty && ups[k].id == o.items[k].product_id
                && void_lines_spec(o.items)[k].delta_qty == -o.items[k].qty,
{
    let kind = MoveKind::Take { allow_negative_stock, for_void: true };
    law_moves_ledger(table, purchase_moves_spec(o.items), kind, o.items.len());
    if let Ok((doc, ups)) = void_purchase_order_spec(o, expected_version, table, allow_negative_stock, now) {
        let moves = purchase_moves_spec(o.items);
        assert(moves_fold(table, moves, kind, o.items.len()) is Ok);
        crate::moves::lemma_take_fold_qty(table, moves, allow_negative_stock, true, o.items.len());
        assert(ups.len() == o.items.len());
        assert forall|k: int| 0 <= k < ups.len() implies #[trigger] ups[k].current_stock == stock_before(table, moves, kind, k)
            + void_lines_spec(o.items)[k].delta_qty && ups[k].id == o.items[k].product_id
            && void_lines_spec(o.items)[k].delta_qty == -o.items[k].qty by {
            assert(moves[k].qty == o.items[k].qty);
            assert(moves[k].product_id == o.items[k].product_id);
            assert(o.items[k].qty != i32::MIN);
        }
    }
}

/// The stock ledger of a sales-order confirmation: line `k` takes its quantity out, and the
/// logged change is minus the line's quantity.
pub proof fn law_sales_confirm_ledger(
    o: SalesOrderView,
    expected_version: Option<i32>,
    table: Seq<Product>,
    allow_negative_stock: bool,
    now: String,
)
    ensures
        confirm_sales_order_spec(o, expected_version, table, allow_negative_stock, now) matches Ok((doc, ups)) ==> ups.len()
            == o.items.len() && forall|k: int| 0 <= k < ups.len() ==> #[trigger] ups[k].current_stock == stock_before(
                table,
                sales_moves_spec(o.items),
                MoveKind::Take { allow_negative_stock, for_void: false },
                k,
            ) + ship_lines_spec(o.items)[k].delta_qty && ups[k].id == o.items[k].product_id
                && ship_lines_spec(o.items)[k].delta_qty == -o.items[k].qty,
{
    let kind = MoveKind::Take { allow_negative_stock, for_void: false };
    law_moves_ledger(table, sales_moves_spec(o.items), kind, o.items.len());
    if moves_fold(table, sales_moves_spec(o.items), kind, o.items.len()) is Ok {
        crate::moves::lemma_take_fold_qty(table, sales_moves_spec(o.items), allow_negative_stock, false, o.items.len());
        assert forall|k: int| 0 <= k < o.items.len() implies o.items[k].qty != i32::MIN by {
            assert(sales_moves_spec(o.items)[k].qty == o.items[k].qty);
        }
    }
}

/// The stock ledger of a sales return: return line `k` puts its quantity back, and the
/// logged change is the returned quantity.
pub proof fn law_sales_return_ledger(
    o: SalesOrderView,
    expected_version: Option<i32>,
    table: Seq<Product>,
    lines: Seq<ReturnLine>,
    remark: Option<String>,
    now: String,
)
    ensures
        return_sales_order_spec(o, expected_version, table, lines, remark, now) matches Ok((doc, ups)) ==> ups.len()
            == lines.len() && forall|k: int| 0 <= k < ups.len() ==> #[trigger] ups[k].current_stock == stock_before(
                table,
                return_moves_spec(lines),
                MoveKind::Put,
                k,
            ) + return_log_lines_spec(o.items, lines)[k].delta_qty && ups[k].id == lines[k].product_id
                && return_log_lines_spec(o.items, lines)[k].delta_qty == lines[k].qty,
{
    law_moves_ledger(table, return_moves_spec(lines), MoveKind::Put, lines.len());
}

/// The stock of the product of check line `k` just before the count of that line is applied.
pub open spec fn check_stock_before(table: Seq<Product>, items: Seq<StockCheckItem>, lines: Seq<CountLine>, k: int) -> int {
    match count_fold(table, items, lines, k as nat) {
        Ok((t, _, _, _, _)) => t[index_of_product(t, items[k].product_id)].current_stock as int,
        Err(_) => 0,
    }
}

/// Whether the products `ups` written by confirming check lines `items` are the listed
/// products, each with the count given for it, and each had the book stock just before.
pub open spec fn count_ledger_holds(table: Seq<Product>, items: Seq<StockCheckItem>, lines: Seq<CountLine>, ups: Seq<Product>) -> bool {
    forall|k: int|
        0 <= k < ups.len() ==> #[trigger] ups[k].id == items[k].product_id && ups[k].current_stock
            == lines[count_index(lines, items[k].product_id)].actual_stock && check_stock_before(table, items, lines, k)
            == items[k].book_stock
}

#[verifier::spinoff_prover]
proof fn lemma_count_fold_ledger(table: Seq<Product>, items: Seq<StockCheckItem>, lines: Seq<CountLine>, n: nat)
    ensures
        count_fold(table, items, lines, n) matches Ok((t, ups, logged, logl, adjs)) ==> {
            &&& ups.len() == n
            &&& logged.len() == logl.len()
            &&& count_ledger_holds(table, items, lines, ups)
            &&& forall|j: int| 0 <= j < logl.len() ==> #[trigger] logl[j].delta_qty != 0
        },
    decreases n,
{
    crate::stock_check::lemma_count_fold_lens(table, items, lines, n);
    if n > 0 {
        lemma_count_fold_ledger(table, items, lines, (n - 1) as nat);
        crate::stock_check::lemma_count_fold_lens(table, items, lines, (n - 1) as nat);
        match count_fold(table, items, lines, (n - 1) as nat) {
            Err(_) => {},
            Ok((t0, ups0, logged0, logl0, adjs0)) => {
                let item = items[n - 1];
                let idx = index_of_product(t0, item.product_id);
                crate::inventory::lemma_index_of_product(t0, item.product_id);
                if let Ok((t, ups, logged, logl, adjs)) = count_fold(table, items, lines, n) {
                    assert(idx >= 0 && !t0[idx].is_deleted && t0[idx].current_stock == item.book_stock);
                    assert(count_index(lines, item.product_id) >= 0);
                    let actual = lines[count_index(lines, item.product_id)].actual_stock;
                    let p = Product { current_stock: actual, version: (t0[idx].version + 1) as i32, ..t0[idx] };
                    assert(ups == ups0.push(p));
                    assert(check_stock_before(table, items, lines, n - 1) == t0[idx].current_stock);
                    assert forall|k: int| 0 <= k < ups.len() implies #[trigger] ups[k].id == items[k].product_id
                        && ups[k].current_stock == lines[count_index(lines, items[k].product_id)].actual_stock
                        && check_stock_before(table, items, lines, k) == items[k].book_stock by {
                        if k < n - 1 {
                            assert(ups0[k].id == items[k].product_id);
                            assert(ups[k] == ups0[k]);
                        } else {
                            assert(ups[k] == p);
                        }
                    }
                    assert(count_ledger_holds(table, items, lines, ups));
                    assert forall|j: int| 0 <= j < logl.len() implies #[trigger] logl[j].delta_qty != 0 by {
                        if j < logl0.len() {
                            assert(logl[j] == logl0[j]);
                        }
                    }
                }
            },
        }
    }
}

/// Confirming a stock check sets the stock of every product it lists to the count given for
/// that product, and goes ahead only where that stock still equals the book stock the check
/// recorded when counting started; only differences that are not zero are logged.
#[verifier::spinoff_prover]
pub proof fn law_stock_check_sets_counts(
    c: StockCheckView,
    expected_version: Option<i32>,
    table: Seq<Product>,
    lines: Seq<CountLine>,
    remark: Option<String>,
    now: String,
)
    ensures
        confirm_stock_check_spec(c, expected_version, table, lines, remark, now) matches Ok((doc, ups, logged, logl)) ==> {
            &&& ups.len() == c.items.len()
            &&& logged.len() == logl.len()
            &&& count_ledger_holds(table, c.items, lines, ups)
            &&& forall|j: int| 0 <= j < logl.len() ==> #[trigger] logl[j].delta_qty != 0
        },
{
    lemma_count_fold_ledger(table, c.items, lines, c.items.len());
    if let Ok((doc, ups, logged, logl)) = confirm_stock_check_spec(c, expected_version, table, lines, remark, now) {
        assert(count_fold(table, c.items, lines, c.items.len()) matches Ok((t, u, lg, ll, a)) && u == ups && lg == logged
            && ll == logl);
    }
}

#[verifier::spinoff_prover]
proof fn lemma_returns_within(items: Seq<SalesOrderItem>, lines: Seq<ReturnLine>, n: nat)
    requires
        n <= lines.len(),
        first_return_error(items, lines, n) is None,
    ensures
        apply_returns_spec(items, lines, n) matches Some(cur) && cur.len() == items.len() && forall|k: int|
            0 <= k < cur.len() ==> #[trigger] cur[k].product_id == items[k].product_id && cur[k].qty
                == items[k].qty && items[k].returned_qty <= cur[k].returned_qty && (cur[k].returned_qty
                == items[k].returned_qty || cur[k].returned_qty <= cur[k].qty),
    decreases n,
{
    if n > 0 {
        lemma_returns_within(items, lines, (n - 1) as nat);
        crate::sales::lemma_counted_while_valid(items, lines, n);
        let cur0 = apply_returns_spec(items, lines, (n - 1) as nat)->0;
        let l = lines[n - 1];
        lemma_item_index_from(cur0, l.product_id, 0);
        let j = sales_item_index(cur0, l.product_id);
        assert(return_line_error(cur0, l) is None);
        let cur = apply_returns_spec(items, lines, n)->0;
        assert forall|k: int| 0 <= k < cur.len() implies #[trigger] cur[k].product_id == items[k].product_id
            && cur[k].qty == items[k].qty && items[k].returned_qty <= cur[k].returned_qty && (cur[k].returned_qty
            == items[k].returned_qty || cur[k].returned_qty <= cur[k].qty) by {
            if k != j {
                assert(cur[k] == cur0[k]);
            } else {
                assert(l.qty <= cur0[j].qty - cur0[j].returned_qty);
                assert(cur[j].returned_qty == cur0[j].returned_qty + l.qty);
            }
        }
    }
}

/// A return never brings a line's returned quantity above its quantity, nor lowers it, and
/// leaves the lines' products and quantities as they were: for an order whose lines stand
/// within their quantities, as stored orders do, whatever lines the return names (one product
/// may come back on several lines).
#[verifier::spinoff_prover]
pub proof fn law_return_within_sold(
    o: SalesOrderView,
    expected_version: Option<i32>,
    table: Seq<Product>,
    lines: Seq<ReturnLine>,
    remark: Option<String>,
    now: String,
)
    requires
        forall|k: int| 0 <= k < o.items.len() ==> 0 <= #[trigger] o.items[k].returned_qty <= o.items[k].qty,
    ensures
        return_sales_order_spec(o, expected_version, table, lines, remark, now) matches Ok((doc, _)) ==> {
            &&& doc.items.len() == o.items.len()
            &&& forall|k: int| 0 <= k < doc.items.len() ==> #[trigger] doc.items[k].product_id == o.items[k].product_id
                && doc.items[k].qty == o.items[k].qty && 0 <= o.items[k].returned_qty <= doc.items[k].returned_qty
                <= doc.items[k].qty
        },
{
    if let Ok((doc, _)) = return_sales_order_spec(o, expected_version, table, lines, remark, now) {
        lemma_returns_within(o.items, lines, lines.len());
        assert(doc.items == apply_returns_spec(o.items, lines, lines.len())->0);
    }
}

/// How confirming a stored purchase order is refused: an expected version other than the
/// stored one first (409, code 4091), then any status but `DRAFT` (409, code 4090, with the
/// status in the data). A refusal is all that comes back, so nothing is written.
pub proof fn law_purchase_confirm_refusals(o: PurchaseOrderView, expected_version: Option<i32>, table: Seq<Product>, now: String)
    ensures
        expected_version matches Some(ev) && ev != o.version ==> (confirm_purchase_order_spec(o, expected_version, table, now)
            matches Err(e) && e is VersionConflict && e.http_status_spec() == 409 && e.code_spec() == 4091),
        (expected_version is None || expected_version == Some(o.version)) && o.status != PurchaseOrderStatus::Draft
            ==> (confirm_purchase_order_spec(o, expected_version, table, now) matches Err(e) && e.http_status_spec() == 409
            && e.code_spec() == 4090 && e.data_spec() == (ErrorData::Status { status: DocStatus::Purchase(o.status) })),
{
    if let Err(e) = confirm_purchase_order_spec(o, expected_version, table, now) {
        law_refusal_answers(e);
    }
}

/// Voiding a stored purchase order, apart from a stale expected version: a draft is voided
/// without moving any stock, and an order already voided is refused (409, code 4090).
pub proof fn law_purchase_void_draft_and_voided(
    o: PurchaseOrderView,
    expected_version: Option<i32>,
    table: Seq<Product>,
    allow_negative_stock: bool,
    now: String,
)
    requires
        expected_version is None || expected_version == Some(o.version),
    ensures
        o.status == PurchaseOrderStatus::Draft && o.version < i32::MAX ==> (void_purchase_order_spec(
            o,
            expected_version,
            table,
            allow_negative_stock,
            now,
        ) matches Ok((v, ups)) && ups.len() == 0 && v.status == PurchaseOrderStatus::Voided && v.version == o.version
            + 1 && v.voided_at == Some(now)),
        o.status == PurchaseOrderStatus::Voided ==> (void_purchase_order_spec(o, expected_version, table, allow_negative_stock, now)
            matches Err(e) && e is PurchaseOrderAlreadyVoided && e.http_status_spec() == 409 && e.code_spec() == 4090),
{
    if let Err(e) = void_purchase_order_spec(o, expected_version, table, allow_negative_stock, now) {
        law_refusal_answers(e);
    }
}

/// A stored name reads back as what was stored: every document status, lookup status and
/// role parses from its own name, except the role `ADMIN` in the PostgreSQL store, which
/// knows no such role (the local store reads it back).
pub proof fn law_stored_names_read_back(
    p: PurchaseOrderStatus,
    s: SalesOrderStatus,
    c: StockCheckStatus,
    b: BarcodeLookupStatus,
    r: UserRole,
)
    ensures
        parse_purchase_order_status_spec(p.name_spec()) == Some(p),
        parse_sales_order_status_spec(s.name_spec()) == Some(s),
        parse_stock_check_status_spec(c.name_spec()) == Some(c),
        parse_barcode_lookup_status_spec(b.name_spec()) == Some(b),
        parse_local_user_role_spec(r.name_spec()) == Some(r),
        r != UserRole::Admin ==> parse_user_role_spec(r.name_spec()) == Some(r),
{
    reveal_strlit("DRAFT");
    reveal_strlit("CONFIRMED");
    reveal_strlit("VOIDED");
    reveal_strlit("RETURNED_PARTIAL");
    reveal_strlit("RETURNED_FULL");
    reveal_strlit("COUNTING");
    reveal_strlit("FOUND");
    reveal_strlit("NOT_FOUND");
    reveal_strlit("OWNER");
    reveal_strlit("ADMIN");
    reveal_strlit("PURCHASER");
    reveal_strlit("SALES");
    assert("OWNER"@[0] != "ADMIN"@[0]);
    assert("OWNER"@[0] != "SALES"@[0]);
    assert("ADMIN"@[0] != "SALES"@[0]);
    assert("DRAFT"@.len() == 5);
    assert("CONFIRMED"@.len() == 9);
    assert("VOIDED"@.len() == 6);
    assert("RETURNED_PARTIAL"@.len() == 16);
    assert("RETURNED_FULL"@.len() == 13);
    assert("COUNTING"@.len() == 8);
    assert("FOUND"@.len() == 5);
    assert("NOT_FOUND"@.len() == 9);
    assert("PURCHASER"@.len() == 9);
    assert("OWNER"@.len() == 5);
}

/// A storage backend's name reads back as that backend.
pub proof fn law_backend_name_reads_back(backend: StorageBackend)
    ensures
        StorageBackend::from_env_spec(backend.name_spec()) == backend,
{
    reveal_strlit("memory");
    reveal_strlit("postgres");
    reveal_strlit("sqlite");
    reveal_strlit("postgresql");
    reveal_strlit("pg");
    reveal_strlit("sqlite3");
    let n = backend.name_spec();
    assert(crate::text::trim_start_spec(n) == n);
    assert(crate::text::trim_end_spec(n) == n);
    assert(crate::text::ascii_lower_spec(n) =~= n);
    assert("memory"@.len() != "postgres"@.len());
}

/// The rows `table` as they stand after the first `n` movements, or as they were when a
/// movement failed.
pub open spec fn rows_after(table: Seq<Product>, moves: Seq<StockMove>, kind: MoveKind, n: nat) -> Seq<Product> {
    match moves_fold(table, moves, kind, n) {
        Ok((t, _)) => t,
        Err(_) => table,
    }
}

/// The total quantity the first `k` movements move of product `pid`.
pub open spec fn qty_for(moves: Seq<StockMove>, pid: i64, k: nat) -> int
    decreases k,
{
    if k == 0 {
        0
    } else {
        qty_for(moves, pid, (k - 1) as nat) + if moves[k - 1].product_id == pid {
            moves[k - 1].qty as int
        } else {
            0
        }
    }
}

/// How many of the first `k` movements move product `pid`.
pub open spec fn count_for(moves: Seq<StockMove>, pid: i64, k: nat) -> int
    decreases k,
{
    if k == 0 {
        0
    } else {
        count_for(moves, pid, (k - 1) as nat) + if moves[k - 1].product_id == pid {
            1int
        } else {
            0
        }
    }
}

proof fn lemma_qty_for_grows(moves: Seq<StockMove>, pid: i64, j: nat, k: nat)
    requires
        j <= k <= moves.len(),
        forall|m: int| 0 <= m < moves.len() ==> #[trigger] moves[m].qty > 0,
    ensures
        qty_for(moves, pid, j) <= qty_for(moves, pid, k),
        0 <= count_for(moves, pid, k) <= k,
    decreases k,
{
    if k > 0 {
        if j < k {
            lemma_qty_for_grows(moves, pid, j, (k - 1) as nat);
        } else {
            lemma_qty_for_grows(moves, pid, 0, (k - 1) as nat);
        }
    }
}

proof fn lemma_same_ids_index(a: Seq<Product>, b: Seq<Product>, id: i64, i: int)
    requires
        a.len() == b.len(),
        forall|k: int| 0 <= k < a.len() ==> #[trigger] a[k].id == b[k].id,
        0 <= i,
    ensures
        first_index_from(a, id, i) == first_index_from(b, id, i),
    decreases a.len() - i,
{
    if i < a.len() {
        assert(a[i].id == b[i].id);
        lemma_same_ids_index(a, b, id, i + 1);
    }
}

/// Whether row `i` of `table` is the one that locking its product yields.
pub open spec fn locked_row(table: Seq<Product>, i: int) -> bool {
    index_of_product(table, table[i].id) == i
}

/// Whether `t` is `table` with the stock of each locked row raised by what the first `n`
/// movements move of its product and lowered by what the first `back` of them move, and its
/// version raised by one per movement of either run; other rows as they were.
pub open spec fn rows_moved(table: Seq<Product>, t: Seq<Product>, moves: Seq<StockMove>, n: nat, back: nat) -> bool {
    &&& t.len() == table.len()
    &&& forall|i: int| 0 <= i < table.len() ==> #[trigger] t[i].id == table[i].id && t[i].is_deleted == table[i].is_deleted
        && (locked_row(table, i) ==> t[i].current_stock == table[i].current_stock + qty_for(moves, table[i].id, n)
            - qty_for(moves, table[i].id, back) && t[i].version == table[i].version + count_for(moves, table[i].id, n)
            + count_for(moves, table[i].id, back)) && (!locked_row(table, i) ==> t[i] == table[i])
}

#[verifier::spinoff_prover]
#[verifier::rlimit(40)]
proof fn lemma_receive_rows(table: Seq<Product>, moves: Seq<StockMove>, k: nat)
    requires
        k <= moves.len(),
        moves_fold(table, moves, MoveKind::Receive, k) is Ok,
    ensures
        rows_moved(table, rows_after(table, moves, MoveKind::Receive, k), moves, k, 0),
        forall|j: int| 0 <= j < k ==> index_of_product(table, #[trigger] moves[j].product_id) >= 0
            && !table[index_of_product(table, moves[j].product_id)].is_deleted,
    decreases k,
{
    let kind = MoveKind::Receive;
    if k == 0 {
        assert(rows_moved(table, table, moves, 0, 0));
    } else {
        if moves_fold(table, moves, kind, (k - 1) as nat) is Err {
            crate::moves::lemma_moves_fold_err(table, moves, kind, (k - 1) as nat, k);
        }
        lemma_receive_rows(table, moves, (k - 1) as nat);
        let t0 = rows_after(table, moves, kind, (k - 1) as nat);
        let mv = moves[k - 1];
        let pid = mv.product_id;
        lemma_same_ids_index(t0, table, pid, 0);
        crate::inventory::lemma_index_of_product(table, pid);
        let idx = index_of_product(t0, pid);
        assert(idx == index_of_product(table, pid));
        assert(idx >= 0);
        lemma_move_apply_delta(kind, t0[idx], mv);
        let p = move_apply_spec(kind, t0[idx], mv)->Ok_0;
        let t = t0.update(idx, p);
        assert(rows_after(table, moves, kind, k) == t);
        assert(locked_row(table, idx));
        assert forall|i: int| 0 <= i < table.len() implies #[trigger] t[i].id == table[i].id && t[i].is_deleted
            == table[i].is_deleted && (locked_row(table, i) ==> t[i].current_stock == table[i].current_stock + qty_for(
            moves,
            table[i].id,
            k,
        ) - qty_for(moves, table[i].id, 0) && t[i].version == table[i].version + count_for(moves, table[i].id, k)
            + count_for(moves, table[i].id, 0)) && (!locked_row(table, i) ==> t[i] == table[i]) by {
            assert(t0[i].id == table[i].id);
            if i != idx {
                assert(t[i] == t0[i]);
                if locked_row(table, i) {
                    assert(table[i].id != pid);
                }
            }
        }
        assert forall|j: int| 0 <= j < k implies index_of_product(table, #[trigger] moves[j].product_id) >= 0
            && !table[index_of_product(table, moves[j].product_id)].is_deleted by {
            if j == k - 1 {
                assert(!t0[idx].is_deleted);
            }
        }
    }
}

#[verifier::spinoff_prover]
#[verifier::rlimit(60)]
proof fn lemma_void_rows(table: Seq<Product>, moves: Seq<StockMove>, allow_negative_stock: bool, k: nat)
    requires
        k <= moves.len(),
        moves_fold(table, moves, MoveKind::Receive, moves.len()) is Ok,
        forall|m: int| 0 <= m < moves.len() ==> #[trigger] moves[m].qty > 0,
        allow_negative_stock || forall|i: int| 0 <= i < table.len() ==> #[trigger] table[i].current_stock >= 0,
        forall|i: int| 0 <= i < table.len() ==> #[trigger] table[i].version + 2 * moves.len() < i32::MAX,
    ensures
        ({
            let t1 = rows_after(table, moves, MoveKind::Receive, moves.len());
            let kind = MoveKind::Take { allow_negative_stock, for_void: true };
            &&& moves_fold(t1, moves, kind, k) is Ok
            &&& rows_moved(table, rows_after(t1, moves, kind, k), moves, moves.len(), k)
        }),
    decreases k,
{
    let n = moves.len();
    let t1 = rows_after(table, moves, MoveKind::Receive, n);
    let kind = MoveKind::Take { allow_negative_stock, for_void: true };
    lemma_receive_rows(table, moves, n);
    if k == 0 {
        assert(rows_after(t1, moves, kind, 0) == t1);
    } else {
        lemma_void_rows(table, moves, allow_negative_stock, (k - 1) as nat);
        let s0 = rows_after(t1, moves, kind, (k - 1) as nat);
        let mv = moves[k - 1];
        let pid = mv.product_id;
        assert(s0.len() == table.len());
        assert forall|i: int| 0 <= i < s0.len() implies #[trigger] s0[i].id == table[i].id by {}
        lemma_same_ids_index(s0, table, pid, 0);
        crate::inventory::lemma_index_of_product(table, pid);
        let idx = index_of_product(s0, pid);
        assert(index_of_product(table, moves[k - 1].product_id) >= 0);
        assert(idx == index_of_product(table, pid) && idx >= 0);
        assert(locked_row(table, idx));
        assert(!s0[idx].is_deleted);
        lemma_qty_for_grows(moves, pid, k as nat, n);
        lemma_qty_for_grows(moves, pid, (k - 1) as nat, k as nat);
        lemma_qty_for_grows(moves, pid, 0, n);
        assert(qty_for(moves, pid, k as nat) == qty_for(moves, pid, (k - 1) as nat) + mv.qty);
        assert(count_for(moves, pid, k as nat) == count_for(moves, pid, (k - 1) as nat) + 1);
        assert(t1[idx].id == table[idx].id);
        assert(table[idx].id == pid);
        assert(qty_for(moves, pid, 0) == 0);
        assert(t1[idx].current_stock == table[idx].current_stock + qty_for(moves, pid, n));
        assert(s0[idx].current_stock == table[idx].current_stock + qty_for(moves, pid, n) - qty_for(
            moves,
            pid,
            (k - 1) as nat,
        ));
        assert(qty_for(moves, pid, k as nat) <= qty_for(moves, pid, n));
        assert(s0[idx].current_stock - mv.qty >= table[idx].current_stock);
        if !allow_negative_stock {
            assert(table[idx].current_stock >= 0);
            assert(s0[idx].current_stock >= mv.qty);
        }
        assert(table[idx].version + 2 * n < i32::MAX);
        lemma_move_apply_delta(kind, s0[idx], mv);
        assert(move_apply_spec(kind, s0[idx], mv) is Ok);
        let q = move_apply_spec(kind, s0[idx], mv)->Ok_0;
        let s = s0.update(idx, q);
        assert(moves_fold(t1, moves, kind, k) matches Ok((s1, _)) && s1 == s);
        assert forall|i: int| 0 <= i < table.len() implies #[trigger] s[i].id == table[i].id && s[i].is_deleted
            == table[i].is_deleted && (locked_row(table, i) ==> s[i].current_stock == table[i].current_stock + qty_for(
            moves,
            table[i].id,
            n,
        ) - qty_for(moves, table[i].id, k as nat) && s[i].version == table[i].version + count_for(moves, table[i].id, n)
            + count_for(moves, table[i].id, k as nat)) && (!locked_row(table, i) ==> s[i] == table[i]) by {
            assert(s0[i].id == table[i].id);
            if i != idx {
                assert(s[i] == s0[i]);
                if locked_row(table, i) {
                    assert(table[i].id != pid);
                }
            } else {
                assert(s[i] == q);
                assert(q.current_stock == s0[idx].current_stock - mv.qty);
                assert(q.version == s0[idx].version + 1);
                assert(table[i].id == pid);
            }
        }
        assert(rows_moved(table, s, moves, n, k as nat));
    }
}

/// Voiding a purchase order right after it was confirmed puts the stock of every product
/// back where it was before the confirmation, and the void goes through: for an order of
/// positive quantities over products whose stock is not negative (versions within range).
pub proof fn law_purchase_void_restores_stock(
    o: PurchaseOrderView,
    confirm_expected: Option<i32>,
    void_expected: Option<i32>,
    table: Seq<Product>,
    allow_negative_stock: bool,
    confirmed_at: String,
    voided_at: String,
)
    requires
        forall|k: int| 0 <= k < o.items.len() ==> #[trigger] o.items[k].qty > 0,
        allow_negative_stock || forall|i: int| 0 <= i < table.len() ==> #[trigger] table[i].current_stock >= 0,
        forall|i: int| 0 <= i < table.len() ==> #[trigger] table[i].version + 2 * o.items.len() < i32::MAX,
        o.version < i32::MAX - 1,
    ensures
        confirm_purchase_order_spec(o, confirm_expected, table, confirmed_at) matches Ok((doc, _)) ==> ({
            let moves = purchase_moves_spec(o.items);
            let t1 = rows_after(table, moves, MoveKind::Receive, o.items.len());
            let t2 = rows_after(t1, moves, MoveKind::Take { allow_negative_stock, for_void: true }, o.items.len());
            &&& (void_expected is None || void_expected == Some(doc.version)) ==> (void_purchase_order_spec(
                doc,
                void_expected,
                t1,
                allow_negative_stock,
                voided_at,
            ) matches Ok((vdoc, _)) && vdoc.status == PurchaseOrderStatus::Voided && vdoc.version == doc.version + 1
                && vdoc.voided_at == Some(voided_at))
            &&& t2.len() == table.len()
            &&& forall|i: int| 0 <= i < table.len() ==> #[trigger] t2[i].current_stock == table[i].current_stock
        }),
{
    if let Ok((doc, _)) = confirm_purchase_order_spec(o, confirm_expected, table, confirmed_at) {
        let moves = purchase_moves_spec(o.items);
        let n = o.items.len();
        assert(moves.len() == n);
        assert forall|m: int| 0 <= m < moves.len() implies #[trigger] moves[m].qty > 0 by {
            assert(moves[m].qty == o.items[m].qty);
        }
        lemma_void_rows(table, moves, allow_negative_stock, n);
        let t1 = rows_after(table, moves, MoveKind::Receive, n);
        let t2 = rows_after(t1, moves, MoveKind::Take { allow_negative_stock, for_void: true }, n);
        assert(doc.items == o.items);
        assert(doc.status == PurchaseOrderStatus::Confirmed);
        assert forall|i: int| 0 <= i < table.len() implies #[trigger] t2[i].current_stock == table[i].current_stock by {
            assert(t2[i].id == table[i].id);
            if locked_row(table, i) {
                assert(t2[i].current_stock == table[i].current_stock + qty_for(moves, table[i].id, n) - qty_for(
                    moves,
                    table[i].id,
                    n,
                ));
            } else {
                assert(t2[i] == table[i]);
            }
        }
    }
}

/// Whether `t` is `table` with the stock of each locked row lowered by what the first `n`
/// movements move of its product and raised by what the first `back` of them move, and its
/// version raised by one per movement of either run; other rows as they were.
pub open spec fn rows_taken(table: Seq<Product>, t: Seq<Product>, moves: Seq<StockMove>, n: nat, back: nat) -> bool {
    &&& t.len() == table.len()
    &&& forall|i: int| 0 <= i < table.len() ==> #[trigger] t[i].id == table[i].id && t[i].is_deleted == table[i].is_deleted
        && (locked_row(table, i) ==> t[i].current_stock == table[i].current_stock - qty_for(moves, table[i].id, n)
            + qty_for(moves, table[i].id, back) && t[i].version == table[i].version + count_for(moves, table[i].id, n)
            + count_for(moves, table[i].id, back)) && (!locked_row(table, i) ==> t[i] == table[i])
}

#[verifier::spinoff_prover]
#[verifier::rlimit(40)]
proof fn lemma_take_rows(table: Seq<Product>, moves: Seq<StockMove>, allow_negative_stock: bool, k: nat)
    requires
        k <= moves.len(),
        moves_fold(table, moves, MoveKind::Take { allow_negative_stock, for_void: false }, k) is Ok,
    ensures
        rows_taken(table, rows_after(table, moves, MoveKind::Take { allow_negative_stock, for_void: false }, k), moves, k, 0),
        forall|j: int| 0 <= j < k ==> index_of_product(table, #[trigger] moves[j].product_id) >= 0
            && !table[index_of_product(table, moves[j].product_id)].is_deleted,
    decreases k,
{
    let kind = MoveKind::Take { allow_negative_stock, for_void: false };
    if k == 0 {
        assert(rows_taken(table, table, moves, 0, 0));
    } else {
        if moves_fold(table, moves, kind, (k - 1) as nat) is Err {
            crate::moves::lemma_moves_fold_err(table, moves, kind, (k - 1) as nat, k);
        }
        lemma_take_rows(table, moves, allow_negative_stock, (k - 1) as nat);
        let t0 = rows_after(table, moves, kind, (k - 1) as nat);
        let mv = moves[k - 1];
        let pid = mv.product_id;
        lemma_same_ids_index(t0, table, pid, 0);
        crate::inventory::lemma_index_of_product(table, pid);
        let idx = index_of_product(t0, pid);
        assert(idx == index_of_product(table, pid));
        assert(idx >= 0);
        lemma_move_apply_delta(kind, t0[idx], mv);
        let p = move_apply_spec(kind, t0[idx], mv)->Ok_0;
        let t = t0.update(idx, p);
        assert(rows_after(table, moves, kind, k) == t);
        assert(locked_row(table, idx));
        assert forall|i: int| 0 <= i < table.len() implies #[trigger] t[i].id == table[i].id && t[i].is_deleted
            == table[i].is_deleted && (locked_row(table, i) ==> t[i].current_stock == table[i].current_stock - qty_for(
            moves,
            table[i].id,
            k,
        ) + qty_for(moves, table[i].id, 0) && t[i].version == table[i].version + count_for(moves, table[i].id, k)
            + count_for(moves, table[i].id, 0)) && (!locked_row(table, i) ==> t[i] == table[i]) by {
            assert(t0[i].id == table[i].id);
            if i != idx {
                assert(t[i] == t0[i]);
                if locked_row(table, i) {
                    assert(table[i].id != pid);
                }
            }
        }
        assert forall|j: int| 0 <= j < k implies index_of_product(table, #[trigger] moves[j].product_id) >= 0
            && !table[index_of_product(table, moves[j].product_id)].is_deleted by {
            if j == k - 1 {
                assert(!t0[idx].is_deleted);
            }
        }
    }
}

#[verifier::spinoff_prover]
#[verifier::rlimit(60)]
proof fn lemma_put_back_rows(table: Seq<Product>, moves: Seq<StockMove>, allow_negative_stock: bool, k: nat)
    requires
        k <= moves.len(),
        moves_fold(table, moves, MoveKind::Take { allow_negative_stock, for_void: false }, moves.len()) is Ok,
        forall|m: int| 0 <= m < moves.len() ==> #[trigger] moves[m].qty > 0,
        forall|i: int| 0 <= i < table.len() ==> #[trigger] table[i].version + 2 * moves.len() < i32::MAX,
    ensures
        ({
            let t1 = rows_after(table, moves, MoveKind::Take { allow_negative_stock, for_void: false }, moves.len());
            &&& moves_fold(t1, moves, MoveKind::Put, k) is Ok
            &&& rows_taken(table, rows_after(t1, moves, MoveKind::Put, k), moves, moves.len(), k)
        }),
    decreases k,
{
    let n = moves.len();
    let t1 = rows_after(table, moves, MoveKind::Take { allow_negative_stock, for_void: false }, n);
    let kind = MoveKind::Put;
    lemma_take_rows(table, moves, allow_negative_stock, n);
    if k == 0 {
        assert(rows_after(t1, moves, kind, 0) == t1);
    } else {
        lemma_put_back_rows(table, moves, allow_negative_stock, (k - 1) as nat);
        let s0 = rows_after(t1, moves, kind, (k - 1) as nat);
        let mv = moves[k - 1];
        let pid = mv.product_id;
        assert(s0.len() == table.len());
        assert forall|i: int| 0 <= i < s0.len() implies #[trigger] s0[i].id == table[i].id by {}
        lemma_same_ids_index(s0, table, pid, 0);
        crate::inventory::lemma_index_of_product(table, pid);
        let idx = index_of_product(s0, pid);
        assert(index_of_product(table, moves[k - 1].product_id) >= 0);
        assert(idx == index_of_product(table, pid) && idx >= 0);
        assert(locked_row(table, idx));
        assert(!s0[idx].is_deleted);
        lemma_qty_for_grows(moves, pid, k as nat, n);
        lemma_qty_for_grows(moves, pid, (k - 1) as nat, k as nat);
        lemma_qty_for_grows(moves, pid, 0, n);
        assert(qty_for(moves, pid, k as nat) == qty_for(moves, pid, (k - 1) as nat) + mv.qty);
        assert(count_for(moves, pid, k as nat) == count_for(moves, pid, (k - 1) as nat) + 1);
        assert(t1[idx].id == table[idx].id);
        assert(table[idx].id == pid);
        assert(qty_for(moves, pid, 0) == 0);
        assert(t1[idx].current_stock == table[idx].current_stock - qty_for(moves, pid, n));
        assert(s0[idx].current_stock == table[idx].current_stock - qty_for(moves, pid, n) + qty_for(
            moves,
            pid,
            (k - 1) as nat,
        ));
        assert(s0[idx].current_stock + mv.qty <= table[idx].current_stock);
        lemma_qty_for_grows(moves, pid, 0, (k - 1) as nat);
        assert(s0[idx].current_stock >= t1[idx].current_stock);
        assert(table[idx].version + 2 * n < i32::MAX);
        lemma_move_apply_delta(kind, s0[idx], mv);
        assert(move_apply_spec(kind, s0[idx], mv) is Ok);
        let q = move_apply_spec(kind, s0[idx], mv)->Ok_0;
        let s = s0.update(idx, q);
        assert(moves_fold(t1, moves, kind, k) matches Ok((s1, _)) && s1 == s);
        assert forall|i: int| 0 <= i < table.len() implies #[trigger] s[i].id == table[i].id && s[i].is_deleted
            == table[i].is_deleted && (locked_row(table, i) ==> s[i].current_stock == table[i].current_stock - qty_for(
            moves,
            table[i].id,
            n,
        ) + qty_for(moves, table[i].id, k as nat) && s[i].version == table[i].version + count_for(moves, table[i].id, n)
            + count_for(moves, table[i].id, k as nat)) && (!locked_row(table, i) ==> s[i] == table[i]) by {
            assert(s0[i].id == table[i].id);
            if i != idx {
                assert(s[i] == s0[i]);
                if locked_row(table, i) {
                    assert(table[i].id != pid);
                }
            } else {
                assert(s[i] == q);
                assert(q.current_stock == s0[idx].current_stock + mv.qty);
                assert(q.version == s0[idx].version + 1);
                assert(table[i].id == pid);
            }
        }
        assert(rows_taken(table, s, moves, n, k as nat));
    }
}

#[verifier::spinoff_prover]
proof fn lemma_fold_ignores_cost(table: Seq<Product>, m1: Seq<StockMove>, m2: Seq<StockMove>, kind: MoveKind, k: nat)
    requires
        !(kind is Receive),
        k <= m1.len(),
        m1.len() == m2.len(),
        forall|j: int| 0 <= j < m1.len() ==> #[trigger] m1[j].product_id == m2[j].product_id && m1[j].qty == m2[j].qty,
    ensures
        moves_fold(table, m1, kind, k) == moves_fold(table, m2, kind, k),
    decreases k,
{
    if k > 0 {
        lemma_fold_ignores_cost(table, m1, m2, kind, (k - 1) as nat);
        assert(m1[k - 1].product_id == m2[k - 1].product_id && m1[k - 1].qty == m2[k - 1].qty);
    }
}

proof fn lemma_first_item_index(items: Seq<SalesOrderItem>, k: int, i: int)
    requires
        0 <= i <= k < items.len(),
        forall|a: int, b: int| 0 <= a < b < items.len() ==> #[trigger] items[a].product_id != #[trigger] items[b].product_id,
    ensures
        item_index_from(items, items[k].product_id, i) == k,
    decreases k - i,
{
    if i < k {
        assert(items[i].product_id != items[k].product_id);
        lemma_first_item_index(items, k, i + 1);
    }
}

/// Every line of `items` returned in full.
pub open spec fn full_return_lines(items: Seq<SalesOrderItem>) -> Seq<ReturnLine> {
    items.map_values(|it: SalesOrderItem| ReturnLine { product_id: it.product_id, qty: it.qty })
}

proof fn lemma_full_return_valid(items: Seq<SalesOrderItem>, n: nat)
    requires
        n <= items.len(),
        forall|k: int| 0 <= k < items.len() ==> #[trigger] items[k].qty > 0 && items[k].returned_qty == 0,
        forall|a: int, b: int| 0 <= a < b < items.len() ==> #[trigger] items[a].product_id != #[trigger] items[b].product_id,
    ensures
        first_return_error(items, full_return_lines(items), n) is None,
    decreases n,
{
    if n > 0 {
        let lines = full_return_lines(items);
        lemma_full_return_valid(items, (n - 1) as nat);
        let k = n - 1;
        lemma_full_returns_applied(items, k as nat);
        let cur = apply_returns_spec(items, lines, k as nat)->0;
        assert(lines[k] == ReturnLine { product_id: items[k].product_id, qty: items[k].qty });
        crate::sales::lemma_apply_returns_same_products(items, lines, k as nat);
        lemma_same_products_index(items, cur, items[k].product_id, 0);
        lemma_first_item_index(items, k, 0);
        assert(sales_item_index(cur, lines[k].product_id) == k);
        assert(cur[k].returned_qty == 0 && cur[k].qty == items[k].qty);
        assert(items[k].qty > 0);
    }
}

/// Whether `cur` is `items` with the first `m` lines returned in full and the others not at all.
pub open spec fn returned_upto(items: Seq<SalesOrderItem>, cur: Seq<SalesOrderItem>, m: nat) -> bool {
    &&& cur.len() == items.len()
    &&& forall|k: int|
        0 <= k < items.len() ==> (#[trigger] cur[k]).product_id == items[k].product_id && cur[k].qty == items[k].qty
            && cur[k].returned_qty == (if k < m {
            items[k].qty as int
        } else {
            0
        })
}

proof fn lemma_full_returns_applied(items: Seq<SalesOrderItem>, m: nat)
    requires
        m <= items.len(),
        forall|k: int| 0 <= k < items.len() ==> #[trigger] items[k].qty > 0 && items[k].returned_qty == 0,
        forall|a: int, b: int| 0 <= a < b < items.len() ==> #[trigger] items[a].product_id != #[trigger] items[b].product_id,
    ensures
        apply_returns_spec(items, full_return_lines(items), m) matches Some(cur) && returned_upto(items, cur, m),
    decreases m,
{
    let lines = full_return_lines(items);
    if m == 0 {
        assert forall|k: int| 0 <= k < items.len() implies (#[trigger] items[k]).returned_qty == 0 by {
            assert(items[k].qty > 0);
        }
        assert(returned_upto(items, items, 0));
    } else {
        lemma_full_returns_applied(items, (m - 1) as nat);
        let cur = apply_returns_spec(items, lines, (m - 1) as nat)->0;
        assert(returned_upto(items, cur, (m - 1) as nat));
        let k = m - 1;
        assert(lines[k] == ReturnLine { product_id: items[k].product_id, qty: items[k].qty });
        crate::sales::lemma_apply_returns_same_products(items, lines, (m - 1) as nat);
        lemma_same_products_index(items, cur, items[k].product_id, 0);
        lemma_first_item_index(items, k, 0);
        assert(sales_item_index(cur, lines[k].product_id) == k);
        assert(cur[k].returned_qty == 0);
        let upd = SalesOrderItem { returned_qty: (cur[k].returned_qty + lines[k].qty) as i32, ..cur[k] };
        let next = cur.update(k, upd);
        assert(apply_returns_spec(items, lines, m) == Some(next));
        assert forall|j: int| 0 <= j < items.len() implies (#[trigger] next[j]).product_id == items[j].product_id
            && next[j].qty == items[j].qty && next[j].returned_qty == (if j < m {
            items[j].qty as int
        } else {
            0
        }) by {
            if j != k {
                assert(next[j] == cur[j]);
            }
        }
        assert(returned_upto(items, next, m));
    }
}

/// Returning every line of a sales order in full right after it was confirmed goes through,
/// marks the order `RETURNED_FULL`, and puts the stock of every product back where it was
/// before the confirmation: for an order of positive quantities, nothing returned yet, each
/// product on one line (versions within range).
pub proof fn law_sales_full_return_restores_stock(
    o: SalesOrderView,
    table: Seq<Product>,
    allow_negative_stock: bool,
    confirmed_at: String,
    returned_at: String,
)
    requires
        o.items.len() > 0,
        forall|k: int| 0 <= k < o.items.len() ==> #[trigger] o.items[k].qty > 0 && o.items[k].returned_qty == 0,
        forall|a: int, b: int| 0 <= a < b < o.items.len() ==> #[trigger] o.items[a].product_id != #[trigger] o.items[b].product_id,
        forall|i: int| 0 <= i < table.len() ==> #[trigger] table[i].version + 2 * o.items.len() < i32::MAX,
        o.version < i32::MAX - 1,
    ensures
        confirm_sales_order_spec(o, None, table, allow_negative_stock, confirmed_at) matches Ok((doc, _)) ==> ({
            let moves = sales_moves_spec(o.items);
            let lines = full_return_lines(o.items);
            let t1 = rows_after(table, moves, MoveKind::Take { allow_negative_stock, for_void: false }, o.items.len());
            let t2 = rows_after(t1, return_moves_spec(lines), MoveKind::Put, o.items.len());
            &&& return_sales_order_spec(doc, None, t1, lines, None, returned_at) matches Ok((rdoc, _))
                && rdoc.status == SalesOrderStatus::ReturnedFull
            &&& t2.len() == table.len()
            &&& forall|i: int| 0 <= i < table.len() ==> #[trigger] t2[i].current_stock == table[i].current_stock
        }),
{
    if let Ok((doc, _)) = confirm_sales_order_spec(o, None, table, allow_negative_stock, confirmed_at) {
        let n = o.items.len();
        let moves = sales_moves_spec(o.items);
        let lines = full_return_lines(o.items);
        let rmoves = return_moves_spec(lines);
        let take = MoveKind::Take { allow_negative_stock, for_void: false };
        assert(moves.len() == n && rmoves.len() == n);
        assert forall|m: int| 0 <= m < moves.len() implies #[trigger] moves[m].qty > 0 by {
            assert(moves[m].qty == o.items[m].qty);
        }
        assert forall|j: int| 0 <= j < rmoves.len() implies #[trigger] rmoves[j].product_id == moves[j].product_id
            && rmoves[j].qty == moves[j].qty by {
            assert(lines[j] == ReturnLine { product_id: o.items[j].product_id, qty: o.items[j].qty });
        }
        assert(moves_fold(table, moves, take, n) is Ok);
        lemma_put_back_rows(table, moves, allow_negative_stock, n);
        let t1 = rows_after(table, moves, take, n);
        lemma_fold_ignores_cost(t1, rmoves, moves, MoveKind::Put, n);
        let t2 = rows_after(t1, rmoves, MoveKind::Put, n);
        assert(t2 == rows_after(t1, moves, MoveKind::Put, n));
        assert forall|i: int| 0 <= i < table.len() implies #[trigger] t2[i].current_stock == table[i].current_stock by {
            assert(t2[i].id == table[i].id);
            if !locked_row(table, i) {
                assert(t2[i] == table[i]);
            }
        }
        assert(doc.items == o.items);
        assert(doc.status == SalesOrderStatus::Confirmed);
        lemma_full_return_valid(o.items, n);
        lemma_full_returns_applied(o.items, n);
        let new_items = apply_returns_spec(o.items, lines, n)->0;
        assert(returned_upto(o.items, new_items, n));
        assert(fully_returned(new_items)) by {
            assert forall|k: int| 0 <= k < new_items.len() implies #[trigger] new_items[k].returned_qty >= new_items[k].qty by {
                assert(new_items[k].returned_qty == o.items[k].qty);
            }
        }
    }
}

/// How every refusal is answered: a missing record with HTTP 404 and code 4040; a stale
/// version or a drifted book stock with 409 and 4091; a refused state transition, an
/// exhausted return, a taken number or name with 409 and 4090; a stock shortage with 400 and
/// 4001 and the shortage in the data; a stored value without meaning or an amount out of
/// range with 500 and 5000; any other invalid request with 400 and 4000.
pub proof fn law_refusal_answers(e: RepoError)
    ensures
        e is NotFound ==> e.http_status_spec() == 404 && e.code_spec() == 4040,
        (e is VersionConflict || e is BookStockDrift) ==> e.http_status_spec() == 409 && e.code_spec() == 4091,
        (e is StatusNotAllowed || e is PurchaseOrderAlreadyVoided || e is ReturnExceedsRemaining || e is BizNoTaken
            || e is UsernameTaken) ==> e.http_status_spec() == 409 && e.code_spec() == 4090,
        (e is InsufficientStock || e is InsufficientStockForVoid) ==> e.http_status_spec() == 400 && e.code_spec() == 4001,
        e matches RepoError::InsufficientStock { failed_product_id, available_stock, required_qty } ==> e.data_spec()
            == (ErrorData::InsufficientStock { failed_product_id, available_stock, required_qty }),
        e matches RepoError::InsufficientStockForVoid { failed_product_id, available_stock, required_qty } ==> e.data_spec()
            == (ErrorData::InsufficientStock { failed_product_id, available_stock, required_qty }),
        (e is UnknownStoredValue || e is NumericOverflow) ==> e.http_status_spec() == 500 && e.code_spec() == 5000,
        (e is QtyNotPositive || e is ItemsEmpty || e is ItemQtyNotPositive || e is ReturnProductNotInOrder
            || e is ActualStockNegative || e is DuplicateCheckProduct || e is CheckItemCountMismatch
            || e is CheckProductNotInCheck || e is CheckItemIncomplete) ==> e.http_status_spec() == 400 && e.code_spec()
            == 4000,
{
}

/// After a return goes through, the order is `RETURNED_FULL` exactly when every one of its
/// lines is returned in full, and `RETURNED_PARTIAL` otherwise.
pub proof fn law_return_status_reflects_lines(
    o: SalesOrderView,
    expected_version: Option<i32>,
    table: Seq<Product>,
    lines: Seq<ReturnLine>,
    remark: Option<String>,
    now: String,
)
    ensures
        return_sales_order_spec(o, expected_version, table, lines, remark, now) matches Ok((doc, _)) ==> {
            &&& doc.status == SalesOrderStatus::ReturnedFull || doc.status == SalesOrderStatus::ReturnedPartial
            &&& (doc.status == SalesOrderStatus::ReturnedFull <==> forall|k: int|
                0 <= k < doc.items.len() ==> #[trigger] doc.items[k].returned_qty >= doc.items[k].qty)
        },
{
}

/// The unit cost an inbound uses is the one given, whatever its amount; only when none is
/// given does it fall back to the last inbound unit cost, and then to the current cost. The
/// product then holds the received stock, records that unit cost as its last inbound cost,
/// and costs the total value over the new stock, rounded half to even to four decimal
/// places (or the unit cost when the new stock is not positive).
pub proof fn law_inbound_unit_cost(p: Product, qty: i32, unit_cost: Option<Money>, expected_version: Option<i32>)
    ensures
        inbound_apply_spec(p, qty, unit_cost, expected_version) matches Ok((q, eff)) ==> {
            &&& (unit_cost matches Some(c) ==> eff == c)
            &&& (unit_cost is None && p.last_inbound_unit_cost is Some ==> eff == p.last_inbound_unit_cost->0)
            &&& (unit_cost is None && p.last_inbound_unit_cost is None ==> eff == p.cost_price)
            &&& q.last_inbound_unit_cost == Some(eff)
            &&& q.current_stock == p.current_stock + qty
            &&& (p.current_stock + qty > 0 ==> q.cost_price.units == round_half_even_div(
                p.cost_price.units * p.current_stock + eff.units * qty,
                p.current_stock + qty,
            ))
            &&& (p.current_stock + qty <= 0 ==> q.cost_price == eff)
        },
{
}

/// The positions `0, 1, ..., n - 1`.
pub open spec fn indices(n: nat) -> Seq<int> {
    Seq::new(n, |k: int| k)
}

/// The count given for check line `k` minus the book stock recorded for it.
pub open spec fn count_delta(items: Seq<StockCheckItem>, lines: Seq<CountLine>, k: int) -> int {
    lines[count_index(lines, items[k].product_id)].actual_stock - items[k].book_stock
}

/// Whether the count of check line `k` differs from its book stock.
pub open spec fn count_differs(items: Seq<StockCheckItem>, lines: Seq<CountLine>) -> spec_fn(int) -> bool {
    |k: int| count_delta(items, lines, k) != 0
}

/// The positions, in order, of the first `n` check lines whose count differs from the book.
pub open spec fn differing_lines(items: Seq<StockCheckItem>, lines: Seq<CountLine>, n: nat) -> Seq<int> {
    indices(n).filter(count_differs(items, lines))
}

proof fn lemma_indices_filter_step(n: nat, pred: spec_fn(int) -> bool)
    ensures
        indices(n + 1).filter(pred) == (if pred(n as int) {
            indices(n).filter(pred).push(n as int)
        } else {
            indices(n).filter(pred)
        }),
{
    reveal(Seq::filter);
    assert(indices(n + 1).drop_last() =~= indices(n));
    assert(indices(n + 1).last() == n);
}

#[verifier::spinoff_prover]
proof fn lemma_count_logs(table: Seq<Product>, items: Seq<StockCheckItem>, lines: Seq<CountLine>, n: nat)
    ensures
        count_fold(table, items, lines, n) matches Ok((t, ups, logged, logl, adjs)) ==> {
            let d = differing_lines(items, lines, n);
            &&& ups.len() == n
            &&& logged.len() == d.len()
            &&& logl.len() == d.len()
            &&& forall|j: int| 0 <= j < d.len() ==> 0 <= #[trigger] d[j] < n && logged[j] == ups[d[j]]
                && logl[j].delta_qty == count_delta(items, lines, d[j]) && logl[j].snapshot_sell_price is None
                && logl[j].snapshot_inbound_unit_cost is None
        },
    decreases n,
{
    crate::stock_check::lemma_count_fold_lens(table, items, lines, n);
    if n > 0 {
        let m = (n - 1) as nat;
        lemma_count_logs(table, items, lines, m);
        crate::stock_check::lemma_count_fold_lens(table, items, lines, m);
        lemma_indices_filter_step(m, count_differs(items, lines));
        if let Ok((t, ups, logged, logl, adjs)) = count_fold(table, items, lines, n) {
            let (t0, ups0, logged0, logl0, adjs0) = count_fold(table, items, lines, m)->Ok_0;
            let d0 = differing_lines(items, lines, m);
            let d = differing_lines(items, lines, n);
            assert(ups == ups0.push(ups[n - 1]));
            assert forall|j: int| 0 <= j < d.len() implies 0 <= #[trigger] d[j] < n && logged[j] == ups[d[j]]
                && logl[j].delta_qty == count_delta(items, lines, d[j]) && logl[j].snapshot_sell_price is None
                && logl[j].snapshot_inbound_unit_cost is None by {
                if j < d0.len() {
                    assert(d[j] == d0[j]);
                    assert(logged[j] == logged0[j]);
                    assert(logl[j] == logl0[j]);
                    assert(ups[d0[j]] == ups0[d0[j]]);
                } else {
                    assert(d[j] == m);
                }
            }
        }
    }
}

/// Confirming a stock check logs exactly the lines whose count differs from the book stock:
/// one `ADJ_CHECK` entry for each such line, in the lines' order, for the product as written,
/// with the change `count - book stock`; lines whose count equals the book are not logged.
pub proof fn law_stock_check_logs_differences(
    c: StockCheckView,
    expected_version: Option<i32>,
    table: Seq<Product>,
    lines: Seq<CountLine>,
    remark: Option<String>,
    now: String,
)
    ensures
        confirm_stock_check_spec(c, expected_version, table, lines, remark, now) matches Ok((doc, ups, logged, logl)) ==> {
            let d = differing_lines(c.items, lines, c.items.len());
            &&& ups.len() == c.items.len()
            &&& forall|k: int| 0 <= k < c.items.len() && count_delta(c.items, lines, k) != 0 ==> #[trigger] d.contains(k)
            &&& forall|j: int| 0 <= j < d.len() ==> count_delta(c.items, lines, #[trigger] d[j]) != 0
            &&& logged.len() == d.len()
            &&& logl.len() == d.len()
            &&& forall|j: int| 0 <= j < d.len() ==> 0 <= #[trigger] d[j] < c.items.len() && logged[j] == ups[d[j]]
                && logl[j].delta_qty == count_delta(c.items, lines, d[j])
        },
{
    let n = c.items.len();
    lemma_count_logs(table, c.items, lines, n);
    let pred = count_differs(c.items, lines);
    let d = differing_lines(c.items, lines, n);
    assert forall|k: int| 0 <= k < n && count_delta(c.items, lines, k) != 0 implies #[trigger] d.contains(k) by {
        assert(indices(n)[k] == k);
        indices(n).lemma_filter_contains(pred, k);
    }
    assert forall|j: int| 0 <= j < d.len() implies count_delta(c.items, lines, #[trigger] d[j]) != 0 by {
        indices(n).lemma_filter_pred(pred, j);
    }
}

/// Whether item row `r` belongs to sales order `id`.
pub open spec fn sales_row_of(id: i64) -> spec_fn(SalesItemRow) -> bool {
    |r: SalesItemRow| r.sales_order_id == id
}

/// The line an item row holds.
pub open spec fn sales_row_line() -> spec_fn(int, SalesItemRow) -> SalesOrderItem {
    |i: int, r: SalesItemRow| r.item
}

proof fn lemma_sales_items_filter(rows: Seq<SalesItemRow>, id: i64)
    ensures
        sales_items_of(rows, id) == rows.filter(sales_row_of(id)).map(sales_row_line()),
    decreases rows.len(),
{
    reveal(Seq::filter);
    if rows.len() > 0 {
        lemma_sales_items_filter(rows.drop_last(), id);
        let f = rows.drop_last().filter(sales_row_of(id));
        assert(f.push(rows.last()).map(sales_row_line()) =~= f.map(sales_row_line()).push(rows.last().item));
    }
}

/// In a listing of sales orders, the first row of each order receives exactly the lines of
/// the item rows whose order id is its id, in their order, and nothing else.
pub proof fn law_sales_listing_lines(rows: Seq<SalesOrderRow>, item_rows: Seq<SalesItemRow>, k: int)
    requires
        0 <= k < rows.len(),
        first_sales_row(rows, k),
    ensures
        sales_row_items(rows, item_rows, k) == item_rows.filter(sales_row_of(rows[k].id)).map(sales_row_line()),
        forall|i: int| 0 <= i < sales_row_items(rows, item_rows, k).len() ==> exists|r: int| 0 <= r < item_rows.len()
            && (#[trigger] item_rows[r]).sales_order_id == rows[k].id && item_rows[r].item == #[trigger] sales_row_items(rows, item_rows, k)[i],
{
    lemma_sales_items_filter(item_rows, rows[k].id);
    let pred = sales_row_of(rows[k].id);
    let f = item_rows.filter(pred);
    assert forall|i: int| 0 <= i < sales_row_items(rows, item_rows, k).len() implies exists|r: int| 0 <= r < item_rows.len()
        && (#[trigger] item_rows[r]).sales_order_id == rows[k].id && item_rows[r].item == #[trigger] sales_row_items(rows, item_rows, k)[i] by {
        lemma_filter_member(item_rows, pred, i);
        let r = choose|r: int| 0 <= r < item_rows.len() && item_rows[r] == f[i];
        item_rows.lemma_filter_pred(pred, i);
        assert(item_rows[r].sales_order_id == rows[k].id);
    }
}

/// Every element of a filtered sequence is an element of the sequence.
proof fn lemma_filter_member<A>(s: Seq<A>, pred: spec_fn(A) -> bool, i: int)
    requires
        0 <= i < s.filter(pred).len(),
    ensures
        exists|r: int| 0 <= r < s.len() && s[r] == s.filter(pred)[i],
    decreases s.len(),
{
    reveal(Seq::filter);
    let f = s.drop_last().filter(pred);
    if i < f.len() {
        lemma_filter_member(s.drop_last(), pred, i);
        let r = choose|r: int| 0 <= r < s.drop_last().len() && s.drop_last()[r] == f[i];
        assert(s[r] == s.filter(pred)[i]);
    } else {
        assert(s[s.len() - 1] == s.filter(pred)[i]);
    }
}

/// Whether item row `r` belongs to purchase order `id`.
pub open spec fn purchase_row_of(id: i64) -> spec_fn(PurchaseItemRow) -> bool {
    |r: PurchaseItemRow| r.purchase_order_id == id
}

/// The line an item row holds.
pub open spec fn purchase_row_line() -> spec_fn(int, PurchaseItemRow) -> PurchaseOrderItem {
    |i: int, r: PurchaseItemRow| r.item
}

proof fn lemma_purchase_items_filter(rows: Seq<PurchaseItemRow>, id: i64)
    ensures
        purchase_items_of(rows, id) == rows.filter(purchase_row_of(id)).map(purchase_row_line()),
    decreases rows.len(),
{
    reveal(Seq::filter);
    if rows.len() > 0 {
        lemma_purchase_items_filter(rows.drop_last(), id);
        let f = rows.drop_last().filter(purchase_row_of(id));
        assert(f.push(rows.last()).map(purchase_row_line()) =~= f.map(purchase_row_line()).push(rows.last().item));
    }
}

/// In a listing of purchase orders, the first row of each order receives exactly the lines
/// of the item rows whose order id is its id, in their order, and nothing else.
pub proof fn law_purchase_listing_lines(rows: Seq<PurchaseOrderRow>, item_rows: Seq<PurchaseItemRow>, k: int)
    requires
        0 <= k < rows.len(),
        first_purchase_row(rows, k),
    ensures
        purchase_row_items(rows, item_rows, k) == item_rows.filter(purchase_row_of(rows[k].id)).map(purchase_row_line()),
{
    lemma_purchase_items_filter(item_rows, rows[k].id);
}

} // verus!
