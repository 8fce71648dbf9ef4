//! Stock checks: `DRAFT -> COUNTING -> CONFIRMED`. Confirming sets each product's stock to
//! the counted quantity, provided the stock has not moved since the check recorded it.

use vstd::prelude::*;

use crate::documents::{
    audit_is, build_logs, doc_snapshot, doc_version_conflict, logs_are, AuditAction, AuditDraft,
    DocumentPlan, LogLine,
};
use crate::error::{DocSnapshot, RepoError, Resource, Snapshot, StatusRule};
use crate::inventory::{find_product, index_of_product, product_snapshot, product_snapshot_spec, StockBizType};
use crate::models::{DocStatus, Product, StockCheck, StockCheckItem, StockCheckStatus, StockCheckView};

verus! {

/// What an audit entry or a conflict reports of a stock check.
pub open spec fn sc_snapshot_spec(c: StockCheckView) -> DocSnapshot {
    DocSnapshot {
        id: c.id,
        biz_no: c.biz_no,
        status: DocStatus::Check(c.status),
        version: c.version,
        updated_at: c.updated_at,
    }
}

fn sc_snapshot(c: &StockCheck) -> (s: DocSnapshot)
    ensures
        s == sc_snapshot_spec(c@),
{
    doc_snapshot(c.id, &c.biz_no, DocStatus::Check(c.status), c.version, &c.updated_at)
}

fn sc_version_conflict(c: &StockCheck, ev: i32) -> (e: RepoError)
    ensures
        e == doc_version_conflict(Resource::StockCheck, sc_snapshot_spec(c@), ev),
{
    RepoError::VersionConflict {
        resource: Resource::StockCheck,
        resource_id: c.id,
        expected_version: ev,
        current_version: c.version,
        latest: Snapshot::Doc(sc_snapshot(c)),
    }
}

/// Starting the count of draft check `c` at time `now`.
pub open spec fn start_stock_check_spec(c: StockCheckView, expected_version: Option<i32>, now: String) -> Result<StockCheckView, RepoError> {
    if expected_version matches Some(ev) && ev != c.version {
        Err(doc_version_conflict(Resource::StockCheck, sc_snapshot_spec(c), expected_version->0))
    } else if c.status != StockCheckStatus::Draft {
        Err(RepoError::StatusNotAllowed { rule: StatusRule::StartStockCheckNeedsDraft, status: DocStatus::Check(c.status) })
    } else if c.version == i32::MAX {
        Err(RepoError::NumericOverflow)
    } else {
        Ok(StockCheckView {
            status: StockCheckStatus::Counting,
            version: (c.version + 1) as i32,
            counting_at: Some(now),
            updated_at: now,
            ..c
        })
    }
}

/// Starts counting the draft stock check locked as `locked` (`None` when it does not exist):
/// it becomes `COUNTING`.
pub fn plan_start_stock_check(locked: Option<StockCheck>, expected_version: Option<i32>, now: String) -> (r: Result<DocumentPlan<StockCheck>, RepoError>)
    ensures
        match locked {
            None => r == Err::<DocumentPlan<StockCheck>, RepoError>(RepoError::NotFound(Resource::StockCheck)),
            Some(c) => match start_stock_check_spec(c@, expected_version, now) {
                Err(e) => r == Err::<DocumentPlan<StockCheck>, RepoError>(e),
                Ok(doc) => r matches Ok(plan) && plan.document@ == doc && plan.products@.len() == 0
                    && plan.stock_logs@.len() == 0
                    && audit_is(plan.audit, AuditAction::StockCheckStart, Resource::StockCheck, c.id, sc_snapshot_spec(c@), sc_snapshot_spec(doc)),
            },
        },
{
    let c = match locked {
        Some(c) => c,
        None => {
            return Err(RepoError::NotFound(Resource::StockCheck));
        },
    };
    if let Some(ev) = expected_version {
        if ev != c.version {
            return Err(sc_version_conflict(&c, ev));
        }
    }
    match c.status {
        StockCheckStatus::Draft => {},
        _ => {
            return Err(RepoError::StatusNotAllowed {
                rule: StatusRule::StartStockCheckNeedsDraft,
                status: DocStatus::Check(c.status),
            });
        },
    }
    if c.version == i32::MAX {
        return Err(RepoError::NumericOverflow);
    }
    let before = sc_snapshot(&c);
    let mut updated = c.clone();
    updated.status = StockCheckStatus::Counting;
    updated.version = c.version + 1;
    updated.counting_at = Some(now.clone());
    updated.updated_at = now;
    let after = sc_snapshot(&updated);
    Ok(DocumentPlan {
        document: updated,
        products: Vec::new(),
        stock_logs: Vec::new(),
        audit: AuditDraft {
            action: AuditAction::StockCheckStart,
            target_type: Resource::StockCheck,
            target_id: c.id,
            before,
            after,
        },
    })
}

/// A counted product and the stock found.
#[derive(Debug, Clone, Copy, PartialEq, Eq, Structural)]
pub struct CountLine {
    pub product_id: i64,
    pub actual_stock: i32,
}

/// Index of the first count line from position `i` on for product `pid`, or -1.
pub open spec fn count_index_from(lines: Seq<CountLine>, pid: i64, i: int) -> int
    decreases lines.len() - i,
{
    if i < 0 || i >= lines.len() {
        -1
    } else if lines[i].product_id == pid {
        i
    } else {
        count_index_from(lines, pid, i + 1)
    }
}

pub open spec fn count_index(lines: Seq<CountLine>, pid: i64) -> int {
    count_index_from(lines, pid, 0)
}

proof fn lemma_count_index_from(lines: Seq<CountLine>, pid: i64, i: int)
    requires
        0 <= i,
    ensures
        count_index_from(lines, pid, i) == -1 || (i <= count_index_from(lines, pid, i) < lines.len()
            && lines[count_index_from(lines, pid, i)].product_id == pid),
        forall|k: int| i <= k < lines.len() && lines[k].product_id == pid ==> i <= count_index_from(lines, pid, i) <= k,
    decreases lines.len() - i,
{
    if i < lines.len() && lines[i].product_id != pid {
        lemma_count_index_from(lines, pid, i + 1);
    }
}

fn find_count(lines: &Vec<CountLine>, pid: i64) -> (r: Option<usize>)
    ensures
        match r {
            Some(j) => j < lines@.len() && count_index(lines@, pid) == j && lines@[j as int].product_id == pid,
            None => count_index(lines@, pid) == -1,
        },
{
    let mut i: usize = 0;
    while i < lines.len()
        invariant
            i <= lines@.len(),
            count_index_from(lines@, pid, 0) == count_index_from(lines@, pid, i as int),
        decreases lines@.len() - i,
    {
        if lines[i].product_id == pid {
            return Some(i);
        }
        i = i + 1;
    }
    None
}

/// Index of the first check line from position `i` on for product `pid`, or -1.
pub open spec fn check_index_from(items: Seq<StockCheckItem>, pid: i64, i: int) -> int
    decreases items.len() - i,
{
    if i < 0 || i >= items.len() {
        -1
    } else if items[i].product_id == pid {
        i
    } else {
        check_index_from(items, pid, i + 1)
    }
}

/// Index of the last check line for product `pid`, or -1.
pub open spec fn last_check_index(items: Seq<StockCheckItem>, pid: i64) -> int
    decreases items.len(),
{
    if items.len() == 0 {
        -1
    } else if items.last().product_id == pid {
        items.len() - 1
    } else {
        last_check_index(items.drop_last(), pid)
    }
}

/// Why count line `k` is refused: a negative count, or a product counted before.
pub open spec fn count_line_error(lines: Seq<CountLine>, k: int) -> Option<RepoError> {
    if lines[k].actual_stock < 0 {
        Some(RepoError::ActualStockNegative)
    } else if count_index(lines, lines[k].product_id) < k {
        Some(RepoError::DuplicateCheckProduct)
    } else {
        None
    }
}

pub open spec fn first_count_error(lines: Seq<CountLine>, n: nat) -> Option<RepoError>
    decreases n,
{
    if n == 0 {
        None
    } else {
        match first_count_error(lines, (n - 1) as nat) {
            Some(e) => Some(e),
            None => count_line_error(lines, n - 1),
        }
    }
}

/// The first counted product, among the first `n` lines, that the check does not list.
pub open spec fn first_foreign_count(items: Seq<StockCheckItem>, lines: Seq<CountLine>, n: nat) -> Option<i64>
    decreases n,
{
    if n == 0 {
        None
    } else {
        match first_foreign_count(items, lines, (n - 1) as nat) {
            Some(p) => Some(p),
            None => if check_index_from(items, lines[n - 1].product_id, 0) < 0 {
                Some(lines[n - 1].product_id)
            } else {
                None
            },
        }
    }
}

/// The outcome of confirming the first `n` check lines against the locked rows `table`:
/// the rows as they then stand, the product written for each line, the products and
/// log data of the lines whose count differs from the book, and each line's
/// `(counted, difference)`.
pub open spec fn count_fold(table: Seq<Product>, items: Seq<StockCheckItem>, lines: Seq<CountLine>, n: nat) -> Result<
    (Seq<Product>, Seq<Product>, Seq<Product>, Seq<LogLine>, Seq<(i32, i32)>),
    RepoError,
>
    decreases n,
{
    if n == 0 {
        Ok((table, Seq::empty(), Seq::empty(), Seq::empty(), Seq::empty()))
    } else {
        match count_fold(table, items, lines, (n - 1) as nat) {
            Err(e) => Err(e),
            Ok((t, ups, logged, logl, adjs)) => {
                let item = items[n - 1];
                let idx = index_of_product(t, item.product_id);
                if idx < 0 || t[idx].is_deleted {
                    Err(RepoError::NotFound(Resource::Product))
                } else if t[idx].current_stock != item.book_stock {
                    Err(RepoError::BookStockDrift {
                        product_id: t[idx].id,
                        book_stock: item.book_stock,
                        current_stock: t[idx].current_stock,
                        latest: product_snapshot_spec(t[idx]),
                    })
                } else if count_index(lines, item.product_id) < 0 {
                    Err(RepoError::CheckItemIncomplete { product_id: item.product_id })
                } else {
                    let actual = lines[count_index(lines, item.product_id)].actual_stock;
                    let delta = actual - item.book_stock;
                    if delta < i32::MIN || delta > i32::MAX || t[idx].version == i32::MAX {
                        Err(RepoError::NumericOverflow)
                    } else {
                        let p = Product { current_stock: actual, version: (t[idx].version + 1) as i32, ..t[idx] };
                        let line = LogLine { delta_qty: delta as i32, snapshot_sell_price: None, snapshot_inbound_unit_cost: None };
                        Ok((
                            t.update(idx, p),
                            ups.push(p),
                            if delta != 0 { logged.push(p) } else { logged },
                            if delta != 0 { logl.push(line) } else { logl },
                            adjs.push((actual, delta as i32)),
                        ))
                    }
                }
            },
        }
    }
}

/// The check lines with the counted stock and difference filled in: each line takes the
/// adjustment made for the last line of its product.
pub open spec fn counted_items(items: Seq<StockCheckItem>, adjs: Seq<(i32, i32)>) -> Seq<StockCheckItem> {
    Seq::new(
        items.len(),
        |k: int|
            {
                let j = last_check_index(items, items[k].product_id);
                StockCheckItem { actual_stock: Some(adjs[j].0), delta_qty: Some(adjs[j].1), ..items[k] }
            },
    )
}

/// Confirming counting check `c` with the counts `lines` at time `now`.
pub open spec fn confirm_stock_check_spec(
    c: StockCheckView,
    expected_version: Option<i32>,
    table: Seq<Product>,
    lines: Seq<CountLine>,
    remark: Option<String>,
    now: String,
) -> Result<(StockCheckView, Seq<Product>, Seq<Product>, Seq<LogLine>), RepoError> {
    if expected_version matches Some(ev) && ev != c.version {
        Err(doc_version_conflict(Resource::StockCheck, sc_snapshot_spec(c), expected_version->0))
    } else if c.status != StockCheckStatus::Counting {
        Err(RepoError::StatusNotAllowed { rule: StatusRule::ConfirmStockCheckNeedsCounting, status: DocStatus::Check(c.status) })
    } else if lines.len() == 0 {
        Err(RepoError::ItemsEmpty)
    } else if first_count_error(lines, lines.len()) is Some {
        Err(first_count_error(lines, lines.len())->0)
    } else if lines.len() != c.items.len() {
        Err(RepoError::CheckItemCountMismatch { expected_items: c.items.len() as usize, actual_items: lines.len() as usize })
    } else if first_foreign_count(c.items, lines, lines.len()) is Some {
        Err(RepoError::CheckProductNotInCheck { product_id: first_foreign_count(c.items, lines, lines.len())->0 })
    } else {
        match count_fold(table, c.items, lines, c.items.len()) {
            Err(e) => Err(e),
            Ok((t, ups, logged, logl, adjs)) => if c.version == i32::MAX {
                Err(RepoError::NumericOverflow)
            } else {
                Ok((
                    StockCheckView {
                        items: counted_items(c.items, adjs),
                        status: StockCheckStatus::Confirmed,
                        version: (c.version + 1) as i32,
                        confirmed_at: Some(now),
                        updated_at: now,
                        remark: if remark is Some { remark } else { c.remark },
                        ..c
                    },
                    ups,
                    logged,
                    logl,
                ))
            },
        }
    }
}

proof fn lemma_last_check_index(items: Seq<StockCheckItem>, pid: i64)
    ensures
        last_check_index(items, pid) == -1 || (0 <= last_check_index(items, pid) < items.len()
            && items[last_check_index(items, pid)].product_id == pid),
        forall|k: int| 0 <= k < items.len() && items[k].product_id == pid ==> k <= last_check_index(items, pid),
    decreases items.len(),
{
    if items.len() > 0 && items.last().product_id != pid {
        lemma_last_check_index(items.drop_last(), pid);
        assert forall|k: int| 0 <= k < items.len() && items[k].product_id == pid implies k <= last_check_index(items, pid) by {
            assert(k < items.len() - 1);
            assert(items.drop_last()[k] == items[k]);
        }
    }
}

fn find_last_check(items: &Vec<StockCheckItem>, pid: i64) -> (r: Option<usize>)
    ensures
        match r {
            Some(j) => j < items@.len() && last_check_index(items@, pid) == j,
            None => last_check_index(items@, pid) == -1,
        },
{
    let mut j: usize = items.len();
    proof {
        assert(items@.subrange(0, j as int) =~= items@);
    }
    while j > 0
        invariant
            j <= items@.len(),
            last_check_index(items@, pid) == last_check_index(items@.subrange(0, j as int), pid),
        decreases j,
    {
        if items[j - 1].product_id == pid {
            return Some(j - 1);
        }
        proof {
            assert(items@.subrange(0, j as int).drop_last() =~= items@.subrange(0, j - 1));
        }
        j = j - 1;
    }
    None
}

fn find_check_item(items: &Vec<StockCheckItem>, pid: i64) -> (r: bool)
    ensures
        r == (check_index_from(items@, pid, 0) >= 0),
{
    let mut i: usize = 0;
    while i < items.len()
        invariant
            i <= items@.len(),
            check_index_from(items@, pid, 0) == check_index_from(items@, pid, i as int),
        decreases items@.len() - i,
    {
        if items[i].product_id == pid {
            return true;
        }
        i = i + 1;
    }
    false
}

proof fn lemma_first_count_error_prefix(lines: Seq<CountLine>, n: nat, m: nat)
    requires
        n <= m,
        first_count_error(lines, n) is Some,
    ensures
        first_count_error(lines, m) == first_count_error(lines, n),
    decreases m - n,
{
    if n < m {
        lemma_first_count_error_prefix(lines, n, (m - 1) as nat);
    }
}

fn check_count_lines(lines: &Vec<CountLine>) -> (r: Option<RepoError>)
    ensures
        r == first_count_error(lines@, lines@.len()),
{
    let mut i: usize = 0;
    while i < lines.len()
        invariant
            i <= lines@.len(),
            first_count_error(lines@, i as nat) is None,
        decreases lines@.len() - i,
    {
        let line = lines[i];
        let mut err: Option<RepoError> = None;
        if line.actual_stock < 0 {
            err = Some(RepoError::ActualStockNegative);
        } else {
            match find_count(lines, line.product_id) {
                Some(j) => {
                    if j < i {
                        err = Some(RepoError::DuplicateCheckProduct);
                    }
                },
                None => {},
            }
        }
        if err.is_some() {
            proof {
                lemma_first_count_error_prefix(lines@, (i + 1) as nat, lines@.len());
            }
            return err;
        }
        proof {
            lemma_count_index_from(lines@, line.product_id, 0);
            assert(count_line_error(lines@, i as int) is None);
        }
        i = i + 1;
    }
    None
}

proof fn lemma_first_foreign_prefix(items: Seq<StockCheckItem>, lines: Seq<CountLine>, n: nat, m: nat)
    requires
        n <= m,
        first_foreign_count(items, lines, n) is Some,
    ensures
        first_foreign_count(items, lines, m) == first_foreign_count(items, lines, n),
    decreases m - n,
{
    if n < m {
        lemma_first_foreign_prefix(items, lines, n, (m - 1) as nat);
    }
}

fn first_foreign(items: &Vec<StockCheckItem>, lines: &Vec<CountLine>) -> (r: Option<i64>)
    ensures
        r == first_foreign_count(items@, lines@, lines@.len()),
{
    let mut i: usize = 0;
    while i < lines.len()
        invariant
            i <= lines@.len(),
            first_foreign_count(items@, lines@, i as nat) is None,
        decreases lines@.len() - i,
    {
        if !find_check_item(items, lines[i].product_id) {
            proof {
                lemma_first_foreign_prefix(items@, lines@, (i + 1) as nat, lines@.len());
            }
            return Some(lines[i].product_id);
        }
        i = i + 1;
    }
    None
}

proof fn lemma_count_fold_err(table: Seq<Product>, items: Seq<StockCheckItem>, lines: Seq<CountLine>, n: nat, m: nat)
    requires
        n <= m,
        count_fold(table, items, lines, n) is Err,
    ensures
        count_fold(table, items, lines, m) == count_fold(table, items, lines, n),
    decreases m - n,
{
    if n < m {
        lemma_count_fold_err(table, items, lines, n, (m - 1) as nat);
    }
}

/// Applies the counts to the check lines in order: the products written, those logged with
/// their log data, and each line's `(counted, difference)`.
fn apply_counts(table: Vec<Product>, items: &Vec<StockCheckItem>, lines: &Vec<CountLine>) -> (r: Result<
    (Vec<Product>, Vec<Product>, Vec<LogLine>, Vec<(i32, i32)>),
    RepoError,
>)
    ensures
        match count_fold(table@, items@, lines@, items@.len()) {
            Err(e) => r == Err::<(Vec<Product>, Vec<Product>, Vec<LogLine>, Vec<(i32, i32)>), RepoError>(e),
            Ok((t, ups, logged, logl, adjs)) => r matches Ok((u, lg, ll, a)) && u@ == ups && lg@ == logged
                && ll@ == logl && a@ == adjs,
        },
{
    let mut work = table;
    let mut ups: Vec<Product> = Vec::new();
    let mut logged: Vec<Product> = Vec::new();
    let mut logl: Vec<LogLine> = Vec::new();
    let mut adjs: Vec<(i32, i32)> = Vec::new();
    let mut i: usize = 0;
    while i < items.len()
        invariant
            i <= items@.len(),
            count_fold(table@, items@, lines@, i as nat) == Ok::<
                (Seq<Product>, Seq<Product>, Seq<Product>, Seq<LogLine>, Seq<(i32, i32)>),
                RepoError,
            >((work@, ups@, logged@, logl@, adjs@)),
        decreases items@.len() - i,
    {
        let item = items[i];
        let idx = match find_product(&work, item.product_id) {
            Some(idx) => idx,
            None => {
                proof {
                    lemma_count_fold_err(table@, items@, lines@, (i + 1) as nat, items@.len());
                }
                return Err(RepoError::NotFound(Resource::Product));
            },
        };
        if work[idx].is_deleted {
            proof {
                lemma_count_fold_err(table@, items@, lines@, (i + 1) as nat, items@.len());
            }
            return Err(RepoError::NotFound(Resource::Product));
        }
        if work[idx].current_stock != item.book_stock {
            proof {
                lemma_count_fold_err(table@, items@, lines@, (i + 1) as nat, items@.len());
            }
            return Err(RepoError::BookStockDrift {
                product_id: work[idx].id,
                book_stock: item.book_stock,
                current_stock: work[idx].current_stock,
                latest: product_snapshot(&work[idx]),
            });
        }
        let actual = match find_count(lines, item.product_id) {
            Some(j) => lines[j].actual_stock,
            None => {
                proof {
                    lemma_count_fold_err(table@, items@, lines@, (i + 1) as nat, items@.len());
                }
                return Err(RepoError::CheckItemIncomplete { product_id: item.product_id });
            },
        };
        let delta: i64 = actual as i64 - item.book_stock as i64;
        if delta < i32::MIN as i64 || delta > i32::MAX as i64 || work[idx].version == i32::MAX {
            proof {
                lemma_count_fold_err(table@, items@, lines@, (i + 1) as nat, items@.len());
            }
            return Err(RepoError::NumericOverflow);
        }
        let mut p = work[idx].clone();
        p.current_stock = actual;
        p.version = work[idx].version + 1;
        if delta != 0 {
            logged.push(p.clone());
            logl.push(LogLine { delta_qty: delta as i32, snapshot_sell_price: None, snapshot_inbound_unit_cost: None });
        }
        adjs.push((actual, delta as i32));
        work.set(idx, p.clone());
        ups.push(p);
        i = i + 1;
    }
    Ok((ups, logged, logl, adjs))
}

pub proof fn lemma_count_fold_lens(table: Seq<Product>, items: Seq<StockCheckItem>, lines: Seq<CountLine>, n: nat)
    ensures
        match count_fold(table, items, lines, n) {
            Ok((t, ups, logged, logl, adjs)) => ups.len() == n && adjs.len() == n && logged.len() == logl.len()
                && logged.len() <= n && t.len() == table.len(),
            Err(_) => true,
        },
    decreases n,
{
    if n > 0 {
        lemma_count_fold_lens(table, items, lines, (n - 1) as nat);
        if let Ok((t, ups, logged, logl, adjs)) = count_fold(table, items, lines, (n - 1) as nat) {
            crate::inventory::lemma_index_of_product(t, items[n - 1].product_id);
        }
    }
}

/// The check lines with counts and differences filled in, as `counted_items` gives them.
fn fill_counts(items: &Vec<StockCheckItem>, adjs: &Vec<(i32, i32)>) -> (r: Vec<StockCheckItem>)
    requires
        adjs@.len() == items@.len(),
    ensures
        r@ == counted_items(items@, adjs@),
{
    let mut r: Vec<StockCheckItem> = Vec::new();
    let mut k: usize = 0;
    while k < items.len()
        invariant
            k <= items@.len(),
            adjs@.len() == items@.len(),
            r@.len() == k,
            forall|m: int| 0 <= m < k ==> #[trigger] r@[m] == counted_items(items@, adjs@)[m],
        decreases items@.len() - k,
    {
        let it = items[k];
        proof {
            lemma_last_check_index(items@, it.product_id);
        }
        let j = match find_last_check(items, it.product_id) {
            Some(j) => j,
            None => {
                proof {
                    assert(false);
                }
                k
            },
        };
        let (actual, delta) = adjs[j];
        r.push(StockCheckItem { product_id: it.product_id, book_stock: it.book_stock, actual_stock: Some(actual), delta_qty: Some(delta) });
        k = k + 1;
    }
    assert(r@ =~= counted_items(items@, adjs@));
    r
}

/// Confirms the counting stock check locked as `locked` (`None` when it does not exist) with
/// the counts `lines`: every listed product must be counted exactly once, with a count of
/// zero or more, and none may have moved since the check recorded its book stock. Each
/// product's stock becomes the count; a log entry records each non-zero difference. The
/// check becomes `CONFIRMED`; a given `remark` replaces its own.
pub fn plan_confirm_stock_check(
    locked: Option<StockCheck>,
    expected_version: Option<i32>,
    table: Vec<Product>,
    lines: &Vec<CountLine>,
    remark: Option<String>,
    next_stock_log_id: i64,
    now: String,
) -> (r: Result<DocumentPlan<StockCheck>, RepoError>)
    requires
        locked matches Some(c) ==> next_stock_log_id + c.items@.len() <= i64::MAX,
    ensures
        match locked {
            None => r == Err::<DocumentPlan<StockCheck>, RepoError>(RepoError::NotFound(Resource::StockCheck)),
            Some(c) => match confirm_stock_check_spec(c@, expected_version, table@, lines@, remark, now) {
                Err(e) => r == Err::<DocumentPlan<StockCheck>, RepoError>(e),
                Ok((doc, ups, logged, logl)) => r matches Ok(plan) && plan.document@ == doc && plan.products@ == ups
                    && logs_are(plan.stock_logs@, logged, logl, StockBizType::AdjCheck, c.biz_no@, next_stock_log_id as int)
                    && audit_is(plan.audit, AuditAction::StockCheckConfirm, Resource::StockCheck, c.id, sc_snapshot_spec(c@), sc_snapshot_spec(doc)),
            },
        },
{
    let c = match locked {
        Some(c) => c,
        None => {
            return Err(RepoError::NotFound(Resource::StockCheck));
        },
    };
    if let Some(ev) = expected_version {
        if ev != c.version {
            return Err(sc_version_conflict(&c, ev));
        }
    }
    match c.status {
        StockCheckStatus::Counting => {},
        _ => {
            return Err(RepoError::StatusNotAllowed {
                rule: StatusRule::ConfirmStockCheckNeedsCounting,
                status: DocStatus::Check(c.status),
            });
        },
    }
    if lines.len() == 0 {
        return Err(RepoError::ItemsEmpty);
    }
    if let Some(e) = check_count_lines(lines) {
        return Err(e);
    }
    if lines.len() != c.items.len() {
        return Err(RepoError::CheckItemCountMismatch { expected_items: c.items.len(), actual_items: lines.len() });
    }
    if let Some(pid) = first_foreign(&c.items, lines) {
        return Err(RepoError::CheckProductNotInCheck { product_id: pid });
    }
    let (ups, logged, logl, adjs) = match apply_counts(table, &c.items, lines) {
        Ok(x) => x,
        Err(e) => {
            return Err(e);
        },
    };
    proof {
        lemma_count_fold_lens(table@, c.items@, lines@, c.items@.len());
    }
    if c.version == i32::MAX {
        return Err(RepoError::NumericOverflow);
    }
    let logs = build_logs(&logged, &logl, StockBizType::AdjCheck, c.biz_no.as_str(), next_stock_log_id);
    let new_items = fill_counts(&c.items, &adjs);
    let before = sc_snapshot(&c);
    let mut updated = c.clone();
    updated.items = new_items;
    updated.status = StockCheckStatus::Confirmed;
    updated.version = c.version + 1;
    updated.confirmed_at = Some(now.clone());
    updated.updated_at = now;
    if remark.is_some() {
        updated.remark = remark;
    }
    let after = sc_snapshot(&updated);
    Ok(DocumentPlan {
        document: updated,
        products: ups,
        stock_logs: logs,
        audit: AuditDraft {
            action: AuditAction::StockCheckConfirm,
            target_type: Resource::StockCheck,
            target_id: c.id,
            before,
            after,
        },
    })
}

} // verus!
