//! Documents as the store reads them back: a row per document and a row per line, put
//! together into the documents the service works on.

use vstd::prelude::*;

use crate::error::{RepoError, StoredValueKind};
use crate::models::{
    PurchaseOrder, PurchaseOrderItem, PurchaseOrderStatus, PurchaseOrderView, SalesOrder, SalesOrderItem,
    SalesOrderStatus, SalesOrderView, StockCheck, StockCheckItem, StockCheckStatus, StockCheckView,
};
use crate::repository::{
    parse_purchase_order_status, parse_purchase_order_status_spec, parse_sales_order_status,
    parse_sales_order_status_spec, parse_stock_check_status, parse_stock_check_status_spec,
};
use crate::text::clone_opt_string;

verus! {

/// A purchase order's own row, its status as stored.
#[derive(Debug)]
pub struct PurchaseOrderRow {
    pub id: i64,
    pub tenant_id: u128,
    pub biz_no: String,
    pub supplier_id: Option<i64>,
    pub status: String,
    pub remark: Option<String>,
    pub created_by: u128,
    pub version: i32,
    pub confirmed_at: Option<String>,
    pub voided_at: Option<String>,
    pub created_at: String,
    pub updated_at: String,
}

/// A stored purchase-order line and the order it belongs to.
#[derive(Debug)]
pub struct PurchaseItemRow {
    pub purchase_order_id: i64,
    pub item: PurchaseOrderItem,
}

/// The purchase order that `row` with status `status` and lines `items` stands for.
pub open spec fn purchase_order_from_row(row: PurchaseOrderRow, status: PurchaseOrderStatus, items: Seq<PurchaseOrderItem>) -> PurchaseOrderView {
    PurchaseOrderView {
        id: row.id,
        tenant_id: row.tenant_id,
        biz_no: row.biz_no,
        supplier_id: row.supplier_id,
        status,
        items,
        remark: row.remark,
        created_by: row.created_by,
        version: row.version,
        confirmed_at: row.confirmed_at,
        voided_at: row.voided_at,
        created_at: row.created_at,
        updated_at: row.updated_at,
    }
}

fn purchase_order_of(row: &PurchaseOrderRow, status: PurchaseOrderStatus, items: Vec<PurchaseOrderItem>) -> (o: PurchaseOrder)
    ensures
        o@ == purchase_order_from_row(*row, status, items@),
{
    PurchaseOrder {
        id: row.id,
        tenant_id: row.tenant_id,
        biz_no: row.biz_no.clone(),
        supplier_id: row.supplier_id,
        status,
        items,
        remark: clone_opt_string(&row.remark),
        created_by: row.created_by,
        version: row.version,
        confirmed_at: clone_opt_string(&row.confirmed_at),
        voided_at: clone_opt_string(&row.voided_at),
        created_at: row.created_at.clone(),
        updated_at: row.updated_at.clone(),
    }
}

/// The purchase order stored as `row` with lines `items`; its stored status must be known.
pub fn assemble_purchase_order(row: &PurchaseOrderRow, items: Vec<PurchaseOrderItem>) -> (r: Result<PurchaseOrder, RepoError>)
    ensures
        match parse_purchase_order_status_spec(row.status@) {
            Some(st) => r matches Ok(o) && o@ == purchase_order_from_row(*row, st, items@),
            None => r matches Err(RepoError::UnknownStoredValue { kind, raw }) && kind
                == StoredValueKind::PurchaseOrderStatus && raw@ == row.status@,
        },
{
    match parse_purchase_order_status(row.status.as_str()) {
        Ok(st) => Ok(purchase_order_of(row, st, items)),
        Err(e) => Err(e),
    }
}

/// The lines among `rows` that belong to order `id`, in their order.
pub open spec fn purchase_items_of(rows: Seq<PurchaseItemRow>, id: i64) -> Seq<PurchaseOrderItem>
    decreases rows.len(),
{
    if rows.len() == 0 {
        Seq::empty()
    } else if rows.last().purchase_order_id == id {
        purchase_items_of(rows.drop_last(), id).push(rows.last().item)
    } else {
        purchase_items_of(rows.drop_last(), id)
    }
}

fn collect_purchase_items(rows: &Vec<PurchaseItemRow>, id: i64) -> (r: Vec<PurchaseOrderItem>)
    ensures
        r@ == purchase_items_of(rows@, id),
{
    let mut r: Vec<PurchaseOrderItem> = Vec::new();
    let mut i: usize = 0;
    while i < rows.len()
        invariant
            i <= rows@.len(),
            r@ == purchase_items_of(rows@.subrange(0, i as int), id),
        decreases rows@.len() - i,
    {
        proof {
            assert(rows@.subrange(0, i + 1).drop_last() =~= rows@.subrange(0, i as int));
        }
        if rows[i].purchase_order_id == id {
            r.push(rows[i].item.clone());
        }
        i = i + 1;
    }
    proof {
        assert(rows@.subrange(0, rows@.len() as int) =~= rows@);
    }
    r
}

/// Whether row `k` is the first of `rows` with its id.
pub open spec fn first_purchase_row(rows: Seq<PurchaseOrderRow>, k: int) -> bool {
    forall|j: int| 0 <= j < k ==> #[trigger] rows[j].id != rows[k].id
}

/// The lines that row `k` of a listing receives: those of its order, for the first row with
/// that id only.
pub open spec fn purchase_row_items(rows: Seq<PurchaseOrderRow>, item_rows: Seq<PurchaseItemRow>, k: int) -> Seq<PurchaseOrderItem> {
    if first_purchase_row(rows, k) {
        purchase_items_of(item_rows, rows[k].id)
    } else {
        Seq::empty()
    }
}

/// The first of the first `n` rows whose stored status is unknown.
pub open spec fn first_bad_purchase_row(rows: Seq<PurchaseOrderRow>, n: nat) -> Option<int>
    decreases n,
{
    if n == 0 {
        None
    } else {
        match first_bad_purchase_row(rows, (n - 1) as nat) {
            Some(k) => Some(k),
            None => if parse_purchase_order_status_spec(rows[n - 1].status@) is None {
                Some(n - 1)
            } else {
                None
            },
        }
    }
}

proof fn lemma_first_bad_purchase_row(rows: Seq<PurchaseOrderRow>, n: nat, m: nat)
    requires
        n <= m,
        first_bad_purchase_row(rows, n) is Some,
    ensures
        first_bad_purchase_row(rows, m) == first_bad_purchase_row(rows, n),
        0 <= first_bad_purchase_row(rows, n)->0 < n,
    decreases m - n,
{
    if n < m {
        lemma_first_bad_purchase_row(rows, n, (m - 1) as nat);
    } else {
        lemma_first_bad_purchase_row_range(rows, n);
    }
}

proof fn lemma_first_bad_purchase_row_range(rows: Seq<PurchaseOrderRow>, n: nat)
    ensures
        first_bad_purchase_row(rows, n) matches Some(k) ==> 0 <= k < n && parse_purchase_order_status_spec(rows[k].status@) is None,
    decreases n,
{
    if n > 0 {
        lemma_first_bad_purchase_row_range(rows, (n - 1) as nat);
    }
}

fn is_first_purchase_row(rows: &Vec<PurchaseOrderRow>, k: usize) -> (b: bool)
    requires
        k < rows@.len(),
    ensures
        b == first_purchase_row(rows@, k as int),
{
    let mut j: usize = 0;
    while j < k
        invariant
            j <= k < rows@.len(),
            forall|m: int| 0 <= m < j ==> #[trigger] rows@[m].id != rows@[k as int].id,
        decreases k - j,
    {
        if rows[j].id == rows[k].id {
            return false;
        }
        j = j + 1;
    }
    true
}

/// The purchase orders stored as `rows` (in their order) with their lines among
/// `item_rows`: each order receives the lines of its id, in their order; every stored
/// status must be known.
pub fn assemble_purchase_orders(rows: &Vec<PurchaseOrderRow>, item_rows: &Vec<PurchaseItemRow>) -> (r: Result<Vec<PurchaseOrder>, RepoError>)
    ensures
        match first_bad_purchase_row(rows@, rows@.len()) {
            Some(k) => r matches Err(RepoError::UnknownStoredValue { kind, raw }) && kind
                == StoredValueKind::PurchaseOrderStatus && raw@ == rows@[k].status@,
            None => r matches Ok(v) && v@.len() == rows@.len() && forall|k: int|
                0 <= k < v@.len() ==> #[trigger] v@[k]@ == purchase_order_from_row(
                    rows@[k],
                    parse_purchase_order_status_spec(rows@[k].status@)->0,
                    purchase_row_items(rows@, item_rows@, k),
                ),
        },
{
    let mut v: Vec<PurchaseOrder> = Vec::new();
    let mut k: usize = 0;
    while k < rows.len()
        invariant
            k <= rows@.len(),
            first_bad_purchase_row(rows@, k as nat) is None,
            v@.len() == k,
            forall|j: int| 0 <= j < k ==> #[trigger] v@[j]@ == purchase_order_from_row(
                rows@[j],
                parse_purchase_order_status_spec(rows@[j].status@)->0,
                purchase_row_items(rows@, item_rows@, j),
            ),
        decreases rows@.len() - k,
    {
        let row = &rows[k];
        let items = if is_first_purchase_row(rows, k) {
            collect_purchase_items(item_rows, row.id)
        } else {
            Vec::new()
        };
        match assemble_purchase_order(row, items) {
            Ok(o) => {
                v.push(o);
            },
            Err(e) => {
                proof {
                    lemma_first_bad_purchase_row(rows@, (k + 1) as nat, rows@.len());
                }
                return Err(e);
            },
        }
        k = k + 1;
    }
    Ok(v)
}

/// A sales order's own row, its status as stored.
#[derive(Debug)]
pub struct SalesOrderRow {
    pub id: i64,
    pub tenant_id: u128,
    pub biz_no: String,
    pub customer_id: Option<i64>,
    pub status: String,
    pub remark: Option<String>,
    pub created_by: u128,
    pub version: i32,
    pub confirmed_at: Option<String>,
    pub returned_at: Option<String>,
    pub voided_at: Option<String>,
    pub created_at: String,
    pub updated_at: String,
}

/// A stored sales-order line and the order it belongs to.
#[derive(Debug)]
pub struct SalesItemRow {
    pub sales_order_id: i64,
    pub item: SalesOrderItem,
}

/// The sales order that `row` with status `status` and lines `items` stands for.
pub open spec fn sales_order_from_row(row: SalesOrderRow, status: SalesOrderStatus, items: Seq<SalesOrderItem>) -> SalesOrderView {
    SalesOrderView {
        id: row.id,
        tenant_id: row.tenant_id,
        biz_no: row.biz_no,
        customer_id: row.customer_id,
        status,
        items,
        remark: row.remark,
        created_by: row.created_by,
        version: row.version,
        confirmed_at: row.confirmed_at,
        returned_at: row.returned_at,
        voided_at: row.voided_at,
        created_at: row.created_at,
        updated_at: row.updated_at,
    }
}

fn sales_order_of(row: &SalesOrderRow, status: SalesOrderStatus, items: Vec<SalesOrderItem>) -> (o: SalesOrder)
    ensures
        o@ == sales_order_from_row(*row, status, items@),
{
    SalesOrder {
        id: row.id,
        tenant_id: row.tenant_id,
        biz_no: row.biz_no.clone(),
        customer_id: row.customer_id,
        status,
        items,
        remark: clone_opt_string(&row.remark),
        created_by: row.created_by,
        version: row.version,
        confirmed_at: clone_opt_string(&row.confirmed_at),
        returned_at: clone_opt_string(&row.returned_at),
        voided_at: clone_opt_string(&row.voided_at),
        created_at: row.created_at.clone(),
        updated_at: row.updated_at.clone(),
    }
}

/// The sales order stored as `row` with lines `items`; its stored status must be known.
pub fn assemble_sales_order(row: &SalesOrderRow, items: Vec<SalesOrderItem>) -> (r: Result<SalesOrder, RepoError>)
    ensures
        match parse_sales_order_status_spec(row.status@) {
            Some(st) => r matches Ok(o) && o@ == sales_order_from_row(*row, st, items@),
            None => r matches Err(RepoError::UnknownStoredValue { kind, raw }) && kind
                == StoredValueKind::SalesOrderStatus && raw@ == row.status@,
        },
{
    match parse_sales_order_status(row.status.as_str()) {
        Ok(st) => Ok(sales_order_of(row, st, items)),
        Err(e) => Err(e),
    }
}

/// The lines among `rows` that belong to order `id`, in their order.
pub open spec fn sales_items_of(rows: Seq<SalesItemRow>, id: i64) -> Seq<SalesOrderItem>
    decreases rows.len(),
{
    if rows.len() == 0 {
        Seq::empty()
    } else if rows.last().sales_order_id == id {
        sales_items_of(rows.drop_last(), id).push(rows.last().item)
    } else {
        sales_items_of(rows.drop_last(), id)
    }
}

fn collect_sales_items(rows: &Vec<SalesItemRow>, id: i64) -> (r: Vec<SalesOrderItem>)
    ensures
        r@ == sales_items_of(rows@, id),
{
    let mut r: Vec<SalesOrderItem> = Vec::new();
    let mut i: usize = 0;
    while i < rows.len()
        invariant
            i <= rows@.len(),
            r@ == sales_items_of(rows@.subrange(0, i as int), id),
        decreases rows@.len() - i,
    {
        proof {
            assert(rows@.subrange(0, i + 1).drop_last() =~= rows@.subrange(0, i as int));
        }
        if rows[i].sales_order_id == id {
            r.push(rows[i].item.clone());
        }
        i = i + 1;
    }
    proof {
        assert(rows@.subrange(0, rows@.len() as int) =~= rows@);
    }
    r
}

/// Whether row `k` is the first of `rows` with its id.
pub open spec fn first_sales_row(rows: Seq<SalesOrderRow>, k: int) -> bool {
    forall|j: int| 0 <= j < k ==> #[trigger] rows[j].id != rows[k].id
}

/// The lines that row `k` of a listing receives: those of its order, for the first row with
/// that id only.
pub open spec fn sales_row_items(rows: Seq<SalesOrderRow>, item_rows: Seq<SalesItemRow>, k: int) -> Seq<SalesOrderItem> {
    if first_sales_row(rows, k) {
        sales_items_of(item_rows, rows[k].id)
    } else {
        Seq::empty()
    }
}

/// The first of the first `n` rows whose stored status is unknown.
pub open spec fn first_bad_sales_row(rows: Seq<SalesOrderRow>, n: nat) -> Option<int>
    decreases n,
{
    if n == 0 {
        None
    } else {
        match first_bad_sales_row(rows, (n - 1) as nat) {
            Some(k) => Some(k),
            None => if parse_sales_order_status_spec(rows[n - 1].status@) is None {
                Some(n - 1)
            } else {
                None
            },
        }
    }
}

proof fn lemma_first_bad_sales_row(rows: Seq<SalesOrderRow>, n: nat, m: nat)
    requires
        n <= m,
        first_bad_sales_row(rows, n) is Some,
    ensures
        first_bad_sales_row(rows, m) == first_bad_sales_row(rows, n),
        0 <= first_bad_sales_row(rows, n)->0 < n,
    decreases m - n,
{
    if n < m {
        lemma_first_bad_sales_row(rows, n, (m - 1) as nat);
    } else {
        lemma_first_bad_sales_row_range(rows, n);
    }
}

proof fn lemma_first_bad_sales_row_range(rows: Seq<SalesOrderRow>, n: nat)
    ensures
        first_bad_sales_row(rows, n) matches Some(k) ==> 0 <= k < n && parse_sales_order_status_spec(rows[k].status@) is None,
    decreases n,
{
    if n > 0 {
        lemma_first_bad_sales_row_range(rows, (n - 1) as nat);
    }
}

fn is_first_sales_row(rows: &Vec<SalesOrderRow>, k: usize) -> (b: bool)
    requires
        k < rows@.len(),
    ensures
        b == first_sales_row(rows@, k as int),
{
    let mut j: usize = 0;
    while j < k
        invariant
            j <= k < rows@.len(),
            forall|m: int| 0 <= m < j ==> #[trigger] rows@[m].id != rows@[k as int].id,
        decreases k - j,
    {
        if rows[j].id == rows[k].id {
            return false;
        }
        j = j + 1;
    }
    true
}

/// The sales orders stored as `rows` (in their order) with their lines among
/// `item_rows`: each order receives the lines of its id, in their order; every stored
/// status must be known.
pub fn assemble_sales_orders(rows: &Vec<SalesOrderRow>, item_rows: &Vec<SalesItemRow>) -> (r: Result<Vec<SalesOrder>, RepoError>)
    ensures
        match first_bad_sales_row(rows@, rows@.len()) {
            Some(k) => r matches Err(RepoError::UnknownStoredValue { kind, raw }) && kind
                == StoredValueKind::SalesOrderStatus && raw@ == rows@[k].status@,
            None => r matches Ok(v) && v@.len() == rows@.len() && forall|k: int|
                0 <= k < v@.len() ==> #[trigger] v@[k]@ == sales_order_from_row(
                    rows@[k],
                    parse_sales_order_status_spec(rows@[k].status@)->0,
                    sales_row_items(rows@, item_rows@, k),
                ),
        },
{
    let mut v: Vec<SalesOrder> = Vec::new();
    let mut k: usize = 0;
    while k < rows.len()
        invariant
            k <= rows@.len(),
            first_bad_sales_row(rows@, k as nat) is None,
            v@.len() == k,
            forall|j: int| 0 <= j < k ==> #[trigger] v@[j]@ == sales_order_from_row(
                rows@[j],
                parse_sales_order_status_spec(rows@[j].status@)->0,
                sales_row_items(rows@, item_rows@, j),
            ),
        decreases rows@.len() - k,
    {
        let row = &rows[k];
        let items = if is_first_sales_row(rows, k) {
            collect_sales_items(item_rows, row.id)
        } else {
            Vec::new()
        };
        match assemble_sales_order(row, items) {
            Ok(o) => {
                v.push(o);
            },
            Err(e) => {
                proof {
                    lemma_first_bad_sales_row(rows@, (k + 1) as nat, rows@.len());
                }
                return Err(e);
            },
        }
        k = k + 1;
    }
    Ok(v)
}

/// A stock check's own row, its status as stored.
#[derive(Debug)]
pub struct StockCheckRow {
    pub id: i64,
    pub tenant_id: u128,
    pub biz_no: String,
    pub status: String,
    pub remark: Option<String>,
    pub created_by: u128,
    pub version: i32,
    pub counting_at: Option<String>,
    pub confirmed_at: Option<String>,
    pub created_at: String,
    pub updated_at: String,
}

/// The stock check that `row` with status `status` and lines `items` stands for.
pub open spec fn stock_check_from_row(row: StockCheckRow, status: StockCheckStatus, items: Seq<StockCheckItem>) -> StockCheckView {
    StockCheckView {
        id: row.id,
        tenant_id: row.tenant_id,
        biz_no: row.biz_no,
        status,
        items,
        remark: row.remark,
        created_by: row.created_by,
        version: row.version,
        counting_at: row.counting_at,
        confirmed_at: row.confirmed_at,
        created_at: row.created_at,
        updated_at: row.updated_at,
    }
}

/// The stock check stored as `row` with lines `items`; its stored status must be known.
pub fn assemble_stock_check(row: &StockCheckRow, items: Vec<StockCheckItem>) -> (r: Result<StockCheck, RepoError>)
    ensures
        match parse_stock_check_status_spec(row.status@) {
            Some(st) => r matches Ok(c) && c@ == stock_check_from_row(*row, st, items@),
            None => r matches Err(RepoError::UnknownStoredValue { kind, raw }) && kind
                == StoredValueKind::StockCheckStatus && raw@ == row.status@,
        },
{
    match parse_stock_check_status(row.status.as_str()) {
        Ok(st) => Ok(StockCheck {
            id: row.id,
            tenant_id: row.tenant_id,
            biz_no: row.biz_no.clone(),
            status: st,
            items,
            remark: clone_opt_string(&row.remark),
            created_by: row.created_by,
            version: row.version,
            counting_at: clone_opt_string(&row.counting_at),
            confirmed_at: clone_opt_string(&row.confirmed_at),
            created_at: row.created_at.clone(),
            updated_at: row.updated_at.clone(),
        }),
        Err(e) => Err(e),
    }
}

} // verus!
