//! Stock movements of products: receiving (inbound), issuing (outbound), and the record
//! that every movement leaves in the stock log.
//!
//! Each operation is planned from the rows it has locked: it either fails with a
//! [`RepoError`] and changes nothing, or returns the products as they are to be written
//! together with the stock-log entries to insert, in the order of the request's items.

use vstd::prelude::*;

use crate::costing::{weighted_average_cost, weighted_cost_fits, weighted_cost_spec};
use crate::error::{ProductSnapshot, RepoError, Resource, Snapshot};
use crate::models::Product;
use crate::money::Money;

verus! {

/// The business reason of a stock movement.
#[derive(Debug, Clone, Copy, PartialEq, Eq, Structural)]
pub enum StockBizType {
    InPurchase,
    OutSale,
    ReturnSale,
    VoidPurchase,
    AdjCheck,
}

impl StockBizType {
    pub open spec fn name_spec(self) -> Seq<char> {
        match self {
            StockBizType::InPurchase => "IN_PURCHASE"@,
            StockBizType::OutSale => "OUT_SALE"@,
            StockBizType::ReturnSale => "RETURN_SALE"@,
            StockBizType::VoidPurchase => "VOID_PURCHASE"@,
            StockBizType::AdjCheck => "ADJ_CHECK"@,
        }
    }

    pub fn as_str(&self) -> (s: &'static str)
        ensures
            s@ == self.name_spec(),
    {
        match self {
            StockBizType::InPurchase => "IN_PURCHASE",
            StockBizType::OutSale => "OUT_SALE",
            StockBizType::ReturnSale => "RETURN_SALE",
            StockBizType::VoidPurchase => "VOID_PURCHASE",
            StockBizType::AdjCheck => "ADJ_CHECK",
        }
    }
}

/// A stock-log entry to insert: which product moved, by how much, why, and the product's
/// stock and cost right after the movement.
#[derive(Debug)]
pub struct StockLogDraft {
    pub id: i64,
    pub product_id: i64,
    pub biz_type: StockBizType,
    pub biz_no: String,
    pub delta_qty: i32,
    pub snapshot_stock: i32,
    pub snapshot_cost: Money,
    pub snapshot_sell_price: Option<Money>,
    pub snapshot_inbound_unit_cost: Option<Money>,
}

/// Whether `l` records the given movement.
pub open spec fn log_is(
    l: StockLogDraft,
    id: int,
    product_id: i64,
    biz_type: StockBizType,
    biz_no: Seq<char>,
    delta_qty: int,
    snapshot_stock: int,
    snapshot_cost: Money,
    snapshot_sell_price: Option<Money>,
    snapshot_inbound_unit_cost: Option<Money>,
) -> bool {
    &&& l.id == id
    &&& l.product_id == product_id
    &&& l.biz_type == biz_type
    &&& l.biz_no@ == biz_no
    &&& l.delta_qty == delta_qty
    &&& l.snapshot_stock == snapshot_stock
    &&& l.snapshot_cost == snapshot_cost
    &&& l.snapshot_sell_price == snapshot_sell_price
    &&& l.snapshot_inbound_unit_cost == snapshot_inbound_unit_cost
}

pub fn make_log(
    id: i64,
    product_id: i64,
    biz_type: StockBizType,
    biz_no: &str,
    delta_qty: i32,
    snapshot_stock: i32,
    snapshot_cost: Money,
    snapshot_sell_price: Option<Money>,
    snapshot_inbound_unit_cost: Option<Money>,
) -> (l: StockLogDraft)
    ensures
        log_is(
            l,
            id as int,
            product_id,
            biz_type,
            biz_no@,
            delta_qty as int,
            snapshot_stock as int,
            snapshot_cost,
            snapshot_sell_price,
            snapshot_inbound_unit_cost,
        ),
{
    StockLogDraft {
        id,
        product_id,
        biz_type,
        biz_no: String::from_str(biz_no),
        delta_qty,
        snapshot_stock,
        snapshot_cost,
        snapshot_sell_price,
        snapshot_inbound_unit_cost,
    }
}

/// What a stale write is told of a product.
pub open spec fn product_snapshot_spec(p: Product) -> ProductSnapshot {
    ProductSnapshot {
        id: p.id,
        current_stock: p.current_stock,
        cost_price: p.cost_price,
        version: p.version,
    }
}

pub fn product_snapshot(p: &Product) -> (s: ProductSnapshot)
    ensures
        s == product_snapshot_spec(*p),
{
    ProductSnapshot {
        id: p.id,
        current_stock: p.current_stock,
        cost_price: p.cost_price,
        version: p.version,
    }
}

/// The conflict reported when a write expected version `expected` of product `p`.
pub open spec fn product_version_conflict(p: Product, expected: i32) -> RepoError {
    RepoError::VersionConflict {
        resource: Resource::Product,
        resource_id: p.id,
        expected_version: expected,
        current_version: p.version,
        latest: Snapshot::Product(product_snapshot_spec(p)),
    }
}

/// Whether a write that expects `expected` may go ahead on a record at `version`.
pub open spec fn version_matches(expected: Option<i32>, version: i32) -> bool {
    match expected {
        Some(v) => v == version,
        None => true,
    }
}

/// Index of the first product of `table` from position `i` on with id `id`, or -1.
pub open spec fn first_index_from(table: Seq<Product>, id: i64, i: int) -> int
    decreases table.len() - i,
{
    if i < 0 || i >= table.len() {
        -1
    } else if table[i].id == id {
        i
    } else {
        first_index_from(table, id, i + 1)
    }
}

/// Index of the first product of `table` with id `id`, or -1: the row that locking
/// product `id` yields.
pub open spec fn index_of_product(table: Seq<Product>, id: i64) -> int {
    first_index_from(table, id, 0)
}

pub proof fn lemma_first_index_from(table: Seq<Product>, id: i64, i: int)
    requires
        0 <= i,
    ensures
        first_index_from(table, id, i) == -1 || (i <= first_index_from(table, id, i) < table.len()
            && table[first_index_from(table, id, i)].id == id),
    decreases table.len() - i,
{
    if i < table.len() && table[i].id != id {
        lemma_first_index_from(table, id, i + 1);
    }
}

pub proof fn lemma_index_of_product(table: Seq<Product>, id: i64)
    ensures
        index_of_product(table, id) == -1 || (0 <= index_of_product(table, id) < table.len()
            && table[index_of_product(table, id)].id == id),
{
    lemma_first_index_from(table, id, 0);
}

/// Position of product `id` in `table`, as `index_of_product` gives it.
pub fn find_product(table: &Vec<Product>, id: i64) -> (r: Option<usize>)
    ensures
        match r {
            Some(i) => i < table@.len() && index_of_product(table@, id) == i && table@[i as int].id == id,
            None => index_of_product(table@, id) == -1,
        },
{
    let mut i: usize = 0;
    while i < table.len()
        invariant
            i <= table@.len(),
            first_index_from(table@, id, 0) == first_index_from(table@, id, i as int),
        decreases table@.len() - i,
    {
        if table[i].id == id {
            return Some(i);
        }
        i = i + 1;
    }
    None
}

/// The unit cost an inbound uses: the given one, else the last inbound unit cost, else the
/// current cost.
pub open spec fn effective_unit_cost_spec(unit_cost: Option<Money>, p: Product) -> Money {
    match unit_cost {
        Some(c) => c,
        None => match p.last_inbound_unit_cost {
            Some(c) => c,
            None => p.cost_price,
        },
    }
}

/// Receiving `qty` units into the locked product `p`: the product as written, and the unit
/// cost used.
pub open spec fn inbound_apply_spec(p: Product, qty: i32, unit_cost: Option<Money>, expected_version: Option<i32>) -> Result<(Product, Money), RepoError> {
    if p.is_deleted {
        Err(RepoError::NotFound(Resource::Product))
    } else if !version_matches(expected_version, p.version) {
        Err(product_version_conflict(p, expected_version->0))
    } else {
        let eff = effective_unit_cost_spec(unit_cost, p);
        if !weighted_cost_fits(p.current_stock as int, p.cost_price.units as int, qty as int, eff.units as int)
            || p.version == i32::MAX {
            Err(RepoError::NumericOverflow)
        } else {
            Ok(
                (
                    Product {
                        current_stock: (p.current_stock + qty) as i32,
                        cost_price: Money {
                            units: weighted_cost_spec(
                                p.current_stock as int,
                                p.cost_price.units as int,
                                qty as int,
                                eff.units as int,
                            ) as i64,
                        },
                        last_inbound_unit_cost: Some(eff),
                        version: (p.version + 1) as i32,
                        ..p
                    },
                    eff,
                ),
            )
        }
    }
}

pub fn apply_inbound(p: &Product, qty: i32, unit_cost: Option<Money>, expected_version: Option<i32>) -> (r: Result<(Product, Money), RepoError>)
    ensures
        r == inbound_apply_spec(*p, qty, unit_cost, expected_version),
{
    if p.is_deleted {
        return Err(RepoError::NotFound(Resource::Product));
    }
    if let Some(ev) = expected_version {
        if ev != p.version {
            return Err(RepoError::VersionConflict {
                resource: Resource::Product,
                resource_id: p.id,
                expected_version: ev,
                current_version: p.version,
                latest: Snapshot::Product(product_snapshot(p)),
            });
        }
    }
    let eff = match unit_cost {
        Some(c) => c,
        None => match p.last_inbound_unit_cost {
            Some(c) => c,
            None => p.cost_price,
        },
    };
    let cost = match weighted_average_cost(p.current_stock, p.cost_price, qty, eff) {
        Ok(c) => c,
        Err(e) => {
            return Err(e);
        },
    };
    if p.version == i32::MAX {
        return Err(RepoError::NumericOverflow);
    }
    let mut updated = p.clone();
    updated.current_stock = p.current_stock + qty;
    updated.cost_price = cost;
    updated.last_inbound_unit_cost = Some(eff);
    updated.version = p.version + 1;
    Ok((updated, eff))
}

/// Receives `qty` units of the product locked as `locked` (`None` when no such row exists),
/// at `unit_cost` when given, on behalf of business document `biz_no`. The stock-log entry
/// gets id `stock_log_id`. Returns the product as it is to be written and the log entry.
pub fn plan_inbound(
    locked: Option<Product>,
    qty: i32,
    unit_cost: Option<Money>,
    expected_version: Option<i32>,
    biz_no: &str,
    stock_log_id: i64,
) -> (r: Result<(Product, StockLogDraft), RepoError>)
    ensures
        qty <= 0 ==> r == Err::<(Product, StockLogDraft), RepoError>(RepoError::QtyNotPositive),
        qty > 0 && locked is None ==> r == Err::<(Product, StockLogDraft), RepoError>(
            RepoError::NotFound(Resource::Product),
        ),
        qty > 0 && locked is Some ==> match inbound_apply_spec(locked->0, qty, unit_cost, expected_version) {
            Err(e) => r == Err::<(Product, StockLogDraft), RepoError>(e),
            Ok((p, eff)) => r matches Ok((rp, rl)) && rp == p && log_is(
                rl,
                stock_log_id as int,
                p.id,
                StockBizType::InPurchase,
                biz_no@,
                qty as int,
                p.current_stock as int,
                p.cost_price,
                None,
                Some(eff),
            ),
        },
{
    if qty <= 0 {
        return Err(RepoError::QtyNotPositive);
    }
    let p = match locked {
        Some(p) => p,
        None => {
            return Err(RepoError::NotFound(Resource::Product));
        },
    };
    match apply_inbound(&p, qty, unit_cost, expected_version) {
        Err(e) => Err(e),
        Ok((updated, eff)) => {
            let log = make_log(
                stock_log_id,
                updated.id,
                StockBizType::InPurchase,
                biz_no,
                qty,
                updated.current_stock,
                updated.cost_price,
                None,
                Some(eff),
            );
            Ok((updated, log))
        },
    }
}

/// One line of a batch inbound.
#[derive(Debug, Clone, Copy, PartialEq, Eq, Structural)]
pub struct InboundItem {
    pub product_id: i64,
    pub qty: i32,
    pub unit_cost: Option<Money>,
    pub expected_version: Option<i32>,
}

/// The outcome of the first `n` lines of a batch inbound run against the locked rows
/// `table`: the rows as they then stand, the product written for each line, and the unit
/// cost each line used.
pub open spec fn inbound_batch_fold(table: Seq<Product>, items: Seq<InboundItem>, n: nat) -> Result<
    (Seq<Product>, Seq<Product>, Seq<Money>),
    RepoError,
>
    decreases n,
{
    if n == 0 {
        Ok((table, Seq::empty(), Seq::empty()))
    } else {
        match inbound_batch_fold(table, items, (n - 1) as nat) {
            Err(e) => Err(e),
            Ok((t, ups, effs)) => {
                let item = items[n - 1];
                if item.qty <= 0 {
                    Err(RepoError::ItemQtyNotPositive)
                } else {
                    let idx = index_of_product(t, item.product_id);
                    if idx < 0 {
                        Err(RepoError::NotFound(Resource::Product))
                    } else {
                        match inbound_apply_spec(t[idx], item.qty, item.unit_cost, item.expected_version) {
                            Err(e) => Err(e),
                            Ok((p, eff)) => Ok((t.update(idx, p), ups.push(p), effs.push(eff))),
                        }
                    }
                }
            },
        }
    }
}

proof fn lemma_inbound_fold_err(table: Seq<Product>, items: Seq<InboundItem>, n: nat, m: nat)
    requires
        n <= m,
        inbound_batch_fold(table, items, n) is Err,
    ensures
        inbound_batch_fold(table, items, m) == inbound_batch_fold(table, items, n),
    decreases m - n,
{
    if n < m {
        lemma_inbound_fold_err(table, items, n, (m - 1) as nat);
    }
}

/// Receives every line of `items` in order, within one transaction, into the rows `table`
/// locked for their products. Log entries get consecutive ids from `next_stock_log_id`.
/// Returns, for each line, the product as it is to be written and the log entry.
pub fn plan_inbound_batch(
    table: Vec<Product>,
    items: &Vec<InboundItem>,
    biz_no: &str,
    next_stock_log_id: i64,
) -> (r: Result<(Vec<Product>, Vec<StockLogDraft>), RepoError>)
    requires
        next_stock_log_id + items@.len() <= i64::MAX,
    ensures
        items@.len() == 0 ==> r == Err::<(Vec<Product>, Vec<StockLogDraft>), RepoError>(
            RepoError::ItemsEmpty,
        ),
        items@.len() > 0 ==> match inbound_batch_fold(table@, items@, items@.len()) {
            Err(e) => r == Err::<(Vec<Product>, Vec<StockLogDraft>), RepoError>(e),
            Ok((t, ups, effs)) => r matches Ok((rps, rls)) && rps@ == ups && rls@.len() == ups.len() && (
            forall|k: int|
                0 <= k < ups.len() ==> log_is(
                    #[trigger] rls@[k],
                    next_stock_log_id + k,
                    ups[k].id,
                    StockBizType::InPurchase,
                    biz_no@,
                    items@[k].qty as int,
                    ups[k].current_stock as int,
                    ups[k].cost_price,
                    None,
                    Some(effs[k]),
                )),
        },
{
    if items.len() == 0 {
        return Err(RepoError::ItemsEmpty);
    }
    let mut work = table;
    let mut updated: Vec<Product> = Vec::new();
    let mut effs: Vec<Money> = Vec::new();
    let mut logs: Vec<StockLogDraft> = Vec::new();
    let mut i: usize = 0;
    let mut next_id: i64 = next_stock_log_id;
    while i < items.len()
        invariant
            i <= items@.len(),
            next_id == next_stock_log_id + i,
            updated@.len() == i,
            effs@.len() == i,
            next_stock_log_id + items@.len() <= i64::MAX,
            inbound_batch_fold(table@, items@, i as nat) == Ok::<(Seq<Product>, Seq<Product>, Seq<Money>), RepoError>(
                (work@, updated@, effs@),
            ),
            logs@.len() == i,
            forall|k: int|
                0 <= k < i ==> log_is(
                    #[trigger] logs@[k],
                    next_stock_log_id + k,
                    updated@[k].id,
                    StockBizType::InPurchase,
                    biz_no@,
                    items@[k].qty as int,
                    updated@[k].current_stock as int,
                    updated@[k].cost_price,
                    None,
                    Some(effs@[k]),
                ),
        decreases items@.len() - i,
    {
        let item = items[i];
        if item.qty <= 0 {
            proof {
                lemma_inbound_fold_err(table@, items@, (i + 1) as nat, items@.len());
            }
            return Err(RepoError::ItemQtyNotPositive);
        }
        let idx = match find_product(&work, item.product_id) {
            Some(idx) => idx,
            None => {
                proof {
                    lemma_inbound_fold_err(table@, items@, (i + 1) as nat, items@.len());
                }
                return Err(RepoError::NotFound(Resource::Product));
            },
        };
        match apply_inbound(&work[idx], item.qty, item.unit_cost, item.expected_version) {
            Err(e) => {
                proof {
                    lemma_inbound_fold_err(table@, items@, (i + 1) as nat, items@.len());
                }
                return Err(e);
            },
            Ok((p, eff)) => {
                let log = make_log(
                    next_id,
                    p.id,
                    StockBizType::InPurchase,
                    biz_no,
                    item.qty,
                    p.current_stock,
                    p.cost_price,
                    None,
                    Some(eff),
                );
                logs.push(log);
                work.set(idx, p.clone());
                updated.push(p);
                effs.push(eff);
            },
        }
        i = i + 1;
        next_id = next_id + 1;
    }
    Ok((updated, logs))
}

/// One line of an outbound: the product, the quantity, the version the caller expects
/// (else the request's default) and the selling price to record.
#[derive(Debug, Clone, Copy, PartialEq, Eq, Structural)]
pub struct OutboundItem {
    pub product_id: i64,
    pub qty: i32,
    pub expected_version: Option<i32>,
    pub sell_price: Option<Money>,
}

/// The version an outbound line expects: its own, else the request's default.
pub open spec fn line_expected_version(own: Option<i32>, default: Option<i32>) -> Option<i32> {
    match own {
        Some(v) => Some(v),
        None => default,
    }
}

/// The failure reported when `p` holds fewer than `qty` units.
pub open spec fn insufficient_stock_spec(p: Product, qty: i32, for_void: bool) -> RepoError {
    if for_void {
        RepoError::InsufficientStockForVoid {
            failed_product_id: p.id,
            available_stock: p.current_stock,
            required_qty: qty,
        }
    } else {
        RepoError::InsufficientStock {
            failed_product_id: p.id,
            available_stock: p.current_stock,
            required_qty: qty,
        }
    }
}

/// Taking `qty` units out of the live product `p`; unless `allow_negative_stock`, `p` must
/// hold at least `qty`. `for_void` tells which failure reports a shortage.
pub open spec fn take_stock_spec(p: Product, qty: i32, allow_negative_stock: bool, for_void: bool) -> Result<Product, RepoError> {
    if !allow_negative_stock && p.current_stock < qty {
        Err(insufficient_stock_spec(p, qty, for_void))
    } else if qty == i32::MIN || p.current_stock - qty < i32::MIN || p.current_stock - qty > i32::MAX || p.version == i32::MAX {
        Err(RepoError::NumericOverflow)
    } else {
        Ok(Product { current_stock: (p.current_stock - qty) as i32, version: (p.version + 1) as i32, ..p })
    }
}

pub fn take_stock(p: &Product, qty: i32, allow_negative_stock: bool, for_void: bool) -> (r: Result<Product, RepoError>)
    ensures
        r == take_stock_spec(*p, qty, allow_negative_stock, for_void),
{
    if !allow_negative_stock && p.current_stock < qty {
        if for_void {
            return Err(RepoError::InsufficientStockForVoid {
                failed_product_id: p.id,
                available_stock: p.current_stock,
                required_qty: qty,
            });
        } else {
            return Err(RepoError::InsufficientStock {
                failed_product_id: p.id,
                available_stock: p.current_stock,
                required_qty: qty,
            });
        }
    }
    let new_stock: i64 = p.current_stock as i64 - qty as i64;
    if qty == i32::MIN || new_stock < i32::MIN as i64 || new_stock > i32::MAX as i64 || p.version == i32::MAX {
        return Err(RepoError::NumericOverflow);
    }
    let mut updated = p.clone();
    updated.current_stock = new_stock as i32;
    updated.version = p.version + 1;
    Ok(updated)
}

/// Adding `qty` units back to the live product `p`, its cost unchanged.
pub open spec fn put_stock_spec(p: Product, qty: i32) -> Result<Product, RepoError> {
    if p.current_stock + qty < i32::MIN || p.current_stock + qty > i32::MAX || p.version == i32::MAX {
        Err(RepoError::NumericOverflow)
    } else {
        Ok(Product { current_stock: (p.current_stock + qty) as i32, version: (p.version + 1) as i32, ..p })
    }
}

pub fn put_stock(p: &Product, qty: i32) -> (r: Result<Product, RepoError>)
    ensures
        r == put_stock_spec(*p, qty),
{
    let new_stock: i64 = p.current_stock as i64 + qty as i64;
    if new_stock < i32::MIN as i64 || new_stock > i32::MAX as i64 || p.version == i32::MAX {
        return Err(RepoError::NumericOverflow);
    }
    let mut updated = p.clone();
    updated.current_stock = new_stock as i32;
    updated.version = p.version + 1;
    Ok(updated)
}

/// Issuing `qty` units from the locked product `p`.
pub open spec fn outbound_apply_spec(p: Product, qty: i32, expected_version: Option<i32>, allow_negative_stock: bool) -> Result<Product, RepoError> {
    if p.is_deleted {
        Err(RepoError::NotFound(Resource::Product))
    } else if !version_matches(expected_version, p.version) {
        Err(product_version_conflict(p, expected_version->0))
    } else {
        take_stock_spec(p, qty, allow_negative_stock, false)
    }
}

fn apply_outbound(p: &Product, qty: i32, expected_version: Option<i32>, allow_negative_stock: bool) -> (r: Result<Product, RepoError>)
    ensures
        r == outbound_apply_spec(*p, qty, expected_version, allow_negative_stock),
{
    if p.is_deleted {
        return Err(RepoError::NotFound(Resource::Product));
    }
    if let Some(ev) = expected_version {
        if ev != p.version {
            return Err(RepoError::VersionConflict {
                resource: Resource::Product,
                resource_id: p.id,
                expected_version: ev,
                current_version: p.version,
                latest: Snapshot::Product(product_snapshot(p)),
            });
        }
    }
    take_stock(p, qty, allow_negative_stock, false)
}

/// The outcome of the first `n` lines of an outbound run against the locked rows `table`:
/// the rows as they then stand and the product written for each line.
pub open spec fn outbound_fold(
    table: Seq<Product>,
    items: Seq<OutboundItem>,
    default_expected_version: Option<i32>,
    allow_negative_stock: bool,
    n: nat,
) -> Result<(Seq<Product>, Seq<Product>), RepoError>
    decreases n,
{
    if n == 0 {
        Ok((table, Seq::empty()))
    } else {
        match outbound_fold(table, items, default_expected_version, allow_negative_stock, (n - 1) as nat) {
            Err(e) => Err(e),
            Ok((t, ups)) => {
                let item = items[n - 1];
                if item.qty <= 0 {
                    Err(RepoError::ItemQtyNotPositive)
                } else {
                    let idx = index_of_product(t, item.product_id);
                    if idx < 0 {
                        Err(RepoError::NotFound(Resource::Product))
                    } else {
                        match outbound_apply_spec(
                            t[idx],
                            item.qty,
                            line_expected_version(item.expected_version, default_expected_version),
                            allow_negative_stock,
                        ) {
                            Err(e) => Err(e),
                            Ok(p) => Ok((t.update(idx, p), ups.push(p))),
                        }
                    }
                }
            },
        }
    }
}

proof fn lemma_outbound_fold_err(
    table: Seq<Product>,
    items: Seq<OutboundItem>,
    default_expected_version: Option<i32>,
    allow_negative_stock: bool,
    n: nat,
    m: nat,
)
    requires
        n <= m,
        outbound_fold(table, items, default_expected_version, allow_negative_stock, n) is Err,
    ensures
        outbound_fold(table, items, default_expected_version, allow_negative_stock, m) == outbound_fold(
            table,
            items,
            default_expected_version,
            allow_negative_stock,
            n,
        ),
    decreases m - n,
{
    if n < m {
        lemma_outbound_fold_err(table, items, default_expected_version, allow_negative_stock, n, (m - 1) as nat);
    }
}

/// Issues every line of `items` in order, within one transaction, from the rows `table`
/// locked for their products; unless `allow_negative_stock`, no line may take a product
/// below zero. Log entries get consecutive ids from `next_stock_log_id`.
/// Returns, for each line, the product as it is to be written and the log entry.
pub fn plan_outbound(
    table: Vec<Product>,
    items: &Vec<OutboundItem>,
    default_expected_version: Option<i32>,
    allow_negative_stock: bool,
    biz_no: &str,
    next_stock_log_id: i64,
) -> (r: Result<(Vec<Product>, Vec<StockLogDraft>), RepoError>)
    requires
        next_stock_log_id + items@.len() <= i64::MAX,
    ensures
        items@.len() == 0 ==> r == Err::<(Vec<Product>, Vec<StockLogDraft>), RepoError>(
            RepoError::ItemsEmpty,
        ),
        items@.len() > 0 ==> match outbound_fold(table@, items@, default_expected_version, allow_negative_stock, items@.len()) {
            Err(e) => r == Err::<(Vec<Product>, Vec<StockLogDraft>), RepoError>(e),
            Ok((t, ups)) => r matches Ok((rps, rls)) && rps@ == ups && rls@.len() == ups.len() && (
            forall|k: int|
                0 <= k < ups.len() ==> log_is(
                    #[trigger] rls@[k],
                    next_stock_log_id + k,
                    ups[k].id,
                    StockBizType::OutSale,
                    biz_no@,
                    -(items@[k].qty as int),
                    ups[k].current_stock as int,
                    ups[k].cost_price,
                    items@[k].sell_price,
                    None,
                )),
        },
{
    if items.len() == 0 {
        return Err(RepoError::ItemsEmpty);
    }
    let mut work = table;
    let mut updated: Vec<Product> = Vec::new();
    let mut logs: Vec<StockLogDraft> = Vec::new();
    let mut i: usize = 0;
    let mut next_id: i64 = next_stock_log_id;
    while i < items.len()
        invariant
            i <= items@.len(),
            next_id == next_stock_log_id + i,
            updated@.len() == i,
            next_stock_log_id + items@.len() <= i64::MAX,
            outbound_fold(table@, items@, default_expected_version, allow_negative_stock, i as nat)
                == Ok::<(Seq<Product>, Seq<Product>), RepoError>((work@, updated@)),
            logs@.len() == i,
            forall|k: int|
                0 <= k < i ==> log_is(
                    #[trigger] logs@[k],
                    next_stock_log_id + k,
                    updated@[k].id,
                    StockBizType::OutSale,
                    biz_no@,
                    -(items@[k].qty as int),
                    updated@[k].current_stock as int,
                    updated@[k].cost_price,
                    items@[k].sell_price,
                    None,
                ),
        decreases items@.len() - i,
    {
        let item = items[i];
        if item.qty <= 0 {
            proof {
                lemma_outbound_fold_err(table@, items@, default_expected_version, allow_negative_stock, (i + 1) as nat, items@.len());
            }
            return Err(RepoError::ItemQtyNotPositive);
        }
        let idx = match find_product(&work, item.product_id) {
            Some(idx) => idx,
            None => {
                proof {
                    lemma_outbound_fold_err(table@, items@, default_expected_version, allow_negative_stock, (i + 1) as nat, items@.len());
                }
                return Err(RepoError::NotFound(Resource::Product));
            },
        };
        let ev = match item.expected_version {
            Some(v) => Some(v),
            None => default_expected_version,
        };
        match apply_outbound(&work[idx], item.qty, ev, allow_negative_stock) {
            Err(e) => {
                proof {
                    lemma_outbound_fold_err(table@, items@, default_expected_version, allow_negative_stock, (i + 1) as nat, items@.len());
                }
                return Err(e);
            },
            Ok(p) => {
                let log = make_log(
                    next_id,
                    p.id,
                    StockBizType::OutSale,
                    biz_no,
                    -item.qty,
                    p.current_stock,
                    p.cost_price,
                    item.sell_price,
                    None,
                );
                logs.push(log);
                work.set(idx, p.clone());
                updated.push(p);
            },
        }
        i = i + 1;
        next_id = next_id + 1;
    }
    Ok((updated, logs))
}

/// Decides how an update of a product ended. The update was made conditional on
/// `expected_version` when given; `rows_affected` is what the database reported, and
/// `latest` is the product as re-read afterwards when no row was affected.
pub fn update_product_outcome(rows_affected: u64, expected_version: Option<i32>, latest: Option<Product>) -> (r: Result<(), RepoError>)
    ensures
        rows_affected > 0 ==> r is Ok,
        rows_affected == 0 ==> match (expected_version, latest) {
            (Some(ev), Some(p)) => if p.is_deleted {
                r == Err::<(), RepoError>(RepoError::NotFound(Resource::Product))
            } else {
                r == Err::<(), RepoError>(product_version_conflict(p, ev))
            },
            _ => r == Err::<(), RepoError>(RepoError::NotFound(Resource::Product)),
        },
{
    if rows_affected > 0 {
        return Ok(());
    }
    match (expected_version, latest) {
        (Some(ev), Some(p)) => {
            if p.is_deleted {
                Err(RepoError::NotFound(Resource::Product))
            } else {
                Err(RepoError::VersionConflict {
                    resource: Resource::Product,
                    resource_id: p.id,
                    expected_version: ev,
                    current_version: p.version,
                    latest: Snapshot::Product(product_snapshot(&p)),
                })
            }
        },
        _ => Err(RepoError::NotFound(Resource::Product)),
    }
}

} // verus!
