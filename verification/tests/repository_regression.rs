use jxc_server::error::{AppError, DocSnapshot, ErrorData, RepoError, Snapshot};
use jxc_server::inventory::{plan_inbound, plan_outbound, update_product_outcome, OutboundItem};
use jxc_server::models::{
    DocStatus, Product, PurchaseOrder, PurchaseOrderItem, PurchaseOrderStatus, SalesOrder,
    SalesOrderItem, SalesOrderStatus, StockCheck, StockCheckItem, StockCheckStatus,
};
use jxc_server::money::Money;
use jxc_server::purchase::{plan_confirm_purchase_order, plan_void_purchase_order};
use jxc_server::sales::{
    plan_confirm_sales_order, plan_return_sales_order, plan_void_sales_order, ReturnLine,
};
use jxc_server::stock_check::{plan_confirm_stock_check, plan_start_stock_check, CountLine};

const TENANT: u128 = 0x1111_2222_3333_4444_5555_6666_7777_8888;
const OPERATOR: u128 = 0x9999_aaaa_bbbb_cccc_dddd_eeee_ffff_0000;

fn sample_product(product_id: i64, version: i32) -> Product {
    Product {
        id: product_id,
        tenant_id: TENANT,
        sku: format!("SKU-{product_id}"),
        barcode: format!("690{:09}", product_id % 1_000_000_000),
        name: format!("测试商品-{product_id}"),
        unit: "件".to_string(),
        current_stock: 50,
        cost_price: Money::from_units(21_000),
        retail_price: Money::from_units(35_000),
        last_inbound_unit_cost: Some(Money::from_units(32_000)),
        min_stock_limit: 5,
        version,
        is_deleted: false,
        category_id: None,
        track_batches: false,
    }
}

fn sample_purchase_order(order_id: i64, product_id: i64, version: i32) -> PurchaseOrder {
    PurchaseOrder {
        id: order_id,
        tenant_id: TENANT,
        biz_no: format!("PO-REG-{order_id}"),
        supplier_id: Some(1001),
        status: PurchaseOrderStatus::Draft,
        items: vec![PurchaseOrderItem {
            product_id,
            qty: 5,
            unit_cost: Money::from_units(25_000),
            product_name_snapshot: Some("回归测试采购商品".to_string()),
        }],
        remark: Some("仓储回归采购单".to_string()),
        created_by: OPERATOR,
        version,
        confirmed_at: None,
        voided_at: None,
        created_at: "2024-05-01T08:00:00+00:00".to_string(),
        updated_at: "2024-05-01T08:00:00+00:00".to_string(),
    }
}

fn sample_sales_order(order_id: i64, product_id: i64, version: i32, qty: i32) -> SalesOrder {
    SalesOrder {
        id: order_id,
        tenant_id: TENANT,
        biz_no: format!("SO-REG-{order_id}"),
        customer_id: Some(2001),
        status: SalesOrderStatus::Draft,
        items: vec![SalesOrderItem {
            product_id,
            qty,
            sell_price: Money::from_units(35_000),
            returned_qty: 0,
            product_name_snapshot: Some("回归测试销售商品".to_string()),
        }],
        remark: Some("仓储回归销售单".to_string()),
        created_by: OPERATOR,
        version,
        confirmed_at: None,
        returned_at: None,
        voided_at: None,
        created_at: "2024-05-01T08:00:00+00:00".to_string(),
        updated_at: "2024-05-01T08:00:00+00:00".to_string(),
    }
}

fn sample_stock_check(check_id: i64, product_id: i64, version: i32, book_stock: i32) -> StockCheck {
    StockCheck {
        id: check_id,
        tenant_id: TENANT,
        biz_no: format!("SC-REG-{check_id}"),
        status: StockCheckStatus::Draft,
        items: vec![StockCheckItem { product_id, book_stock, actual_stock: None, delta_qty: None }],
        remark: Some("仓储回归盘点单".to_string()),
        created_by: OPERATOR,
        version,
        counting_at: None,
        confirmed_at: None,
        created_at: "2024-05-01T08:00:00+00:00".to_string(),
        updated_at: "2024-05-01T08:00:00+00:00".to_string(),
    }
}

fn stamp(n: u32) -> String {
    format!("2024-05-01T09:00:{n:02}+00:00")
}

fn answer(e: &RepoError) -> AppError {
    e.into_app_error()
}

fn product_conflict(e: &AppError) -> (String, i64, i32, i32, i32, i32) {
    match &e.data {
        ErrorData::VersionConflict {
            resource,
            resource_id,
            expected_version,
            current_version,
            latest_snapshot: Snapshot::Product(p),
        } => (
            resource.key().to_string(),
            *resource_id,
            *expected_version,
            *current_version,
            p.version,
            p.current_stock,
        ),
        other => panic!("not a product version conflict: {other:?}"),
    }
}

fn doc_conflict(e: &AppError) -> (String, i64, i32, i32, DocSnapshot) {
    match &e.data {
        ErrorData::VersionConflict {
            resource,
            resource_id,
            expected_version,
            current_version,
            latest_snapshot: Snapshot::Doc(d),
        } => (resource.key().to_string(), *resource_id, *expected_version, *current_version, d.clone()),
        other => panic!("not a document version conflict: {other:?}"),
    }
}

fn insufficient(e: &AppError) -> (i64, i32, i32) {
    match &e.data {
        ErrorData::InsufficientStock { failed_product_id, available_stock, required_qty } => {
            (*failed_product_id, *available_stock, *required_qty)
        }
        other => panic!("not a stock shortage: {other:?}"),
    }
}

#[test]
fn postgres_update_product_stale_expected_version_returns_4091_with_latest_snapshot() {
    let product_id = 9_100_000_001;
    let original = sample_product(product_id, 1);

    let mut first_update = original.clone();
    first_update.name = format!("{}-first", original.name);
    first_update.version = original.version + 1;
    assert!(update_product_outcome(1, Some(original.version), None).is_ok());

    let err = update_product_outcome(0, Some(original.version), Some(first_update.clone()))
        .expect_err("second stale update should conflict");
    let e = answer(&err);
    assert_eq!(e.status, 409);
    assert_eq!(e.code, 4091);
    let (resource, id, expected, current, snap_version, snap_stock) = product_conflict(&e);
    assert_eq!(resource, "product");
    assert_eq!(id, product_id);
    assert_eq!(expected, original.version);
    assert_eq!(current, first_update.version);
    assert_eq!(snap_version, first_update.version);
    assert_eq!(snap_stock, first_update.current_stock);
}

#[test]
fn postgres_update_product_missing_resource_returns_4040_instead_of_4091() {
    let err = update_product_outcome(0, Some(1), None).expect_err("missing product should be 404");
    let e = answer(&err);
    assert_eq!(e.status, 404);
    assert_eq!(e.code, 4040);
    assert_eq!(e.message, "商品不存在");
}

#[test]
fn postgres_inbound_and_outbound_stale_expected_version_returns_4091_with_latest_snapshot() {
    let product_id = 9_100_000_002;
    let original = sample_product(product_id, 1);

    let (first_inbound, _) = plan_inbound(
        Some(original.clone()),
        5,
        Some(Money::from_units(30_000)),
        Some(original.version),
        "PO-REG-OL-001",
        1,
    )
    .expect("first inbound should succeed");
    assert_eq!(first_inbound.current_stock, 55);
    assert_eq!(first_inbound.version, 2);

    let inbound_err = plan_inbound(
        Some(first_inbound.clone()),
        1,
        Some(Money::from_units(28_000)),
        Some(original.version),
        "PO-REG-OL-002",
        2,
    )
    .expect_err("stale inbound expected_version should conflict");
    let e = answer(&inbound_err);
    assert_eq!(e.status, 409);
    assert_eq!(e.code, 4091);
    let (resource, id, expected, current, snap_version, snap_stock) = product_conflict(&e);
    assert_eq!(resource, "product");
    assert_eq!(id, product_id);
    assert_eq!(expected, original.version);
    assert_eq!(current, first_inbound.version);
    assert_eq!(snap_version, first_inbound.version);
    assert_eq!(snap_stock, first_inbound.current_stock);

    let items = vec![OutboundItem { product_id, qty: 3, expected_version: None, sell_price: None }];
    let (first_outbound, _) = plan_outbound(
        vec![first_inbound.clone()],
        &items,
        Some(first_inbound.version),
        false,
        "SO-REG-OL-001",
        3,
    )
    .expect("first outbound should succeed");
    assert_eq!(first_outbound.len(), 1);
    let outbound_snapshot = first_outbound[0].clone();

    let stale_items = vec![OutboundItem { product_id, qty: 1, expected_version: None, sell_price: None }];
    let outbound_err = plan_outbound(
        vec![outbound_snapshot.clone()],
        &stale_items,
        Some(first_inbound.version),
        false,
        "SO-REG-OL-002",
        4,
    )
    .expect_err("stale outbound expected_version should conflict");
    let e = answer(&outbound_err);
    assert_eq!(e.status, 409);
    assert_eq!(e.code, 4091);
    let (resource, id, expected, current, snap_version, snap_stock) = product_conflict(&e);
    assert_eq!(resource, "product");
    assert_eq!(id, product_id);
    assert_eq!(expected, first_inbound.version);
    assert_eq!(current, outbound_snapshot.version);
    assert_eq!(snap_version, outbound_snapshot.version);
    assert_eq!(snap_stock, outbound_snapshot.current_stock);
}

#[test]
fn postgres_outbound_insufficient_stock_returns_4001_without_mutating_product() {
    let product_id = 9_100_000_003;
    let mut product = sample_product(product_id, 1);
    product.current_stock = 2;
    product.cost_price = Money::from_units(18_000);

    let items = vec![OutboundItem { product_id, qty: 5, expected_version: None, sell_price: None }];
    let err = plan_outbound(vec![product.clone()], &items, Some(product.version), false, "SO-REG-STOCK-001", 1)
        .expect_err("outbound should fail when stock is insufficient");
    let e = answer(&err);
    assert_eq!(e.status, 400);
    assert_eq!(e.code, 4001);
    assert_eq!(insufficient(&e), (product_id, product.current_stock, 5));
    // A refused outbound hands back nothing to write: the product keeps its stock and
    // version, and no stock-log entry exists.
    assert_eq!(product.current_stock, 2);
    assert_eq!(product.version, 1);
}

#[test]
fn postgres_confirm_purchase_order_stale_expected_version_returns_4091_with_latest_snapshot() {
    let product_id = 9_100_000_004;
    let product = sample_product(product_id, 1);
    let order = sample_purchase_order(8_100_000_001, product_id, 1);

    let confirmed = plan_confirm_purchase_order(
        Some(order.clone()),
        Some(order.version),
        vec![product.clone()],
        1,
        stamp(1),
    )
    .expect("first purchase-order confirm should succeed");
    assert_eq!(confirmed.document.status, PurchaseOrderStatus::Confirmed);
    assert_eq!(confirmed.document.version, order.version + 1);
    assert_eq!(confirmed.stock_logs.len(), 1);

    let stale_err = plan_confirm_purchase_order(
        Some(confirmed.document.clone()),
        Some(order.version),
        confirmed.products.clone(),
        2,
        stamp(2),
    )
    .expect_err("stale purchase-order expected_version should conflict");
    let e = answer(&stale_err);
    assert_eq!(e.status, 409);
    assert_eq!(e.code, 4091);
    let (resource, id, expected, current, snap) = doc_conflict(&e);
    assert_eq!(resource, "purchase_order");
    assert_eq!(id, order.id);
    assert_eq!(expected, order.version);
    assert_eq!(current, confirmed.document.version);
    assert_eq!(snap.status.as_str(), confirmed.document.status.as_str());
    assert_eq!(snap.version, confirmed.document.version);
}

#[test]
fn postgres_confirm_sales_order_insufficient_stock_returns_4001_without_mutating_order_and_product() {
    let product_id = 9_100_000_005;
    let mut product = sample_product(product_id, 1);
    product.current_stock = 1;
    product.cost_price = Money::from_units(18_000);
    let order = sample_sales_order(8_200_000_001, product_id, 1, 3);

    let err = plan_confirm_sales_order(Some(order.clone()), Some(order.version), vec![product.clone()], false, 1, stamp(1))
        .expect_err("confirm sales-order should fail when stock is insufficient");
    let e = answer(&err);
    assert_eq!(e.status, 400);
    assert_eq!(e.code, 4001);
    assert_eq!(insufficient(&e), (product_id, product.current_stock, 3));
    assert_eq!(order.status, SalesOrderStatus::Draft);
    assert_eq!(order.version, 1);
    assert_eq!(product.current_stock, 1);
}

#[test]
fn postgres_void_purchase_order_stale_expected_version_returns_4091_with_latest_snapshot() {
    let product_id = 9_100_000_006;
    let product = sample_product(product_id, 1);
    let order = sample_purchase_order(8_100_000_002, product_id, 1);

    let confirmed = plan_confirm_purchase_order(Some(order.clone()), Some(order.version), vec![product], 1, stamp(1))
        .expect("purchase-order confirm should succeed before void stale-check");

    let err = plan_void_purchase_order(
        Some(confirmed.document.clone()),
        Some(order.version),
        confirmed.products.clone(),
        false,
        2,
        stamp(2),
    )
    .expect_err("stale purchase-order expected_version should conflict on void");
    let e = answer(&err);
    assert_eq!(e.status, 409);
    assert_eq!(e.code, 4091);
    let (resource, id, expected, current, snap) = doc_conflict(&e);
    assert_eq!(resource, "purchase_order");
    assert_eq!(id, order.id);
    assert_eq!(expected, order.version);
    assert_eq!(current, confirmed.document.version);
    assert_eq!(snap.status, DocStatus::Purchase(PurchaseOrderStatus::Confirmed));
    assert_eq!(snap.version, confirmed.document.version);
}

#[test]
fn postgres_void_purchase_order_insufficient_stock_returns_4001_without_mutating_order_and_product() {
    let product_id = 9_100_000_007;
    let mut product = sample_product(product_id, 1);
    product.current_stock = 0;
    product.cost_price = Money::from_units(18_000);
    let order = sample_purchase_order(8_100_000_003, product_id, 1);

    let confirmed = plan_confirm_purchase_order(Some(order.clone()), Some(order.version), vec![product], 1, stamp(1))
        .expect("purchase-order confirm should succeed before insufficient-stock void");
    assert_eq!(confirmed.document.status, PurchaseOrderStatus::Confirmed);
    let product_after_confirm = confirmed.products[0].clone();
    assert_eq!(product_after_confirm.current_stock, 5);

    let items = vec![OutboundItem { product_id, qty: 4, expected_version: None, sell_price: None }];
    let (outbound_products, _) = plan_outbound(
        vec![product_after_confirm.clone()],
        &items,
        Some(product_after_confirm.version),
        false,
        "SO-REG-VOID-001",
        2,
    )
    .expect("outbound should reduce stock before void purchase-order");
    assert_eq!(outbound_products.len(), 1);
    let outbound_snapshot = outbound_products[0].clone();
    assert_eq!(outbound_snapshot.current_stock, 1);

    let err = plan_void_purchase_order(
        Some(confirmed.document.clone()),
        Some(confirmed.document.version),
        vec![outbound_snapshot.clone()],
        false,
        3,
        stamp(3),
    )
    .expect_err("void purchase-order should fail when rollback stock is insufficient");
    let e = answer(&err);
    assert_eq!(e.status, 400);
    assert_eq!(e.code, 4001);
    assert_eq!(e.message, "库存不足，无法执行反向作废");
    assert_eq!(insufficient(&e), (product_id, outbound_snapshot.current_stock, 5));
    assert_eq!(confirmed.document.status, PurchaseOrderStatus::Confirmed);
    assert_eq!(confirmed.document.voided_at, None);
    assert_eq!(outbound_snapshot.current_stock, 1);
}

#[test]
fn postgres_start_stock_check_stale_expected_version_returns_4091_with_latest_snapshot() {
    let product_id = 9_100_000_008;
    let check = sample_stock_check(8_300_000_001, product_id, 1, 50);

    let started = plan_start_stock_check(Some(check.clone()), Some(check.version), stamp(1))
        .expect("first stock-check start should succeed");
    assert_eq!(started.document.status, StockCheckStatus::Counting);
    assert_eq!(started.document.version, check.version + 1);

    let err = plan_start_stock_check(Some(started.document.clone()), Some(check.version), stamp(2))
        .expect_err("stale stock-check expected_version should conflict on start");
    let e = answer(&err);
    assert_eq!(e.status, 409);
    assert_eq!(e.code, 4091);
    let (resource, id, expected, current, snap) = doc_conflict(&e);
    assert_eq!(resource, "stock_check");
    assert_eq!(id, check.id);
    assert_eq!(expected, check.version);
    assert_eq!(current, started.document.version);
    assert_eq!(snap.status.as_str(), "COUNTING");
    assert_eq!(snap.version, started.document.version);
}

#[test]
fn postgres_confirm_stock_check_book_stock_drift_returns_4091_without_mutating_check_and_product() {
    let product_id = 9_100_000_009;
    let product = sample_product(product_id, 1);
    let check = sample_stock_check(8_300_000_002, product_id, 1, product.current_stock);

    let started = plan_start_stock_check(Some(check.clone()), Some(check.version), stamp(1))
        .expect("stock-check start should succeed before book-stock-drift confirm");

    let items = vec![OutboundItem { product_id, qty: 2, expected_version: None, sell_price: None }];
    let (moved, _) = plan_outbound(vec![product.clone()], &items, Some(product.version), false, "SO-REG-SC-001", 1)
        .expect("outbound should mutate product stock before confirm stock-check");
    let drifted = moved[0].clone();
    assert_eq!(drifted.current_stock, 48);

    let lines = vec![CountLine { product_id, actual_stock: 40 }];
    let err = plan_confirm_stock_check(
        Some(started.document.clone()),
        Some(started.document.version),
        vec![drifted.clone()],
        &lines,
        Some("book_stock drift regression".to_string()),
        2,
        stamp(2),
    )
    .expect_err("confirm stock-check should fail when book_stock has drifted");
    let e = answer(&err);
    assert_eq!(e.status, 409);
    assert_eq!(e.code, 4091);
    match &e.data {
        ErrorData::BookStockDrift { resource_id, book_stock, current_stock, latest_snapshot } => {
            assert_eq!(*resource_id, product_id);
            assert_eq!(*book_stock, 50);
            assert_eq!(*current_stock, drifted.current_stock);
            assert_eq!(latest_snapshot.version, drifted.version);
        }
        other => panic!("not a book-stock drift: {other:?}"),
    }
    assert_eq!(started.document.status, StockCheckStatus::Counting);
    assert_eq!(drifted.current_stock, 48);
}

#[test]
fn postgres_void_sales_order_non_draft_returns_4090_without_mutating_order_and_stock_logs() {
    let product_id = 9_100_000_010;
    let mut product = sample_product(product_id, 1);
    product.current_stock = 10;
    product.cost_price = Money::from_units(20_000);
    let order = sample_sales_order(8_200_000_002, product_id, 1, 2);

    let confirmed = plan_confirm_sales_order(Some(order.clone()), Some(order.version), vec![product], false, 1, stamp(1))
        .expect("confirm sales-order before void non-draft regression");
    let err = plan_void_sales_order(Some(confirmed.document.clone()), Some(confirmed.document.version), stamp(2))
        .expect_err("void confirmed sales-order should be rejected with 4090");
    let e = answer(&err);
    assert_eq!(e.status, 409);
    assert_eq!(e.code, 4090);
    match &e.data {
        ErrorData::Status { status } => assert_eq!(status.as_str(), "CONFIRMED"),
        other => panic!("not a status refusal: {other:?}"),
    }
    assert_eq!(confirmed.document.status, SalesOrderStatus::Confirmed);
    assert_eq!(confirmed.stock_logs.len(), 1);
}

#[test]
fn postgres_return_sales_order_over_remaining_qty_returns_4090_without_mutating_order_product_and_stock_logs() {
    let product_id = 9_100_000_011;
    let mut product = sample_product(product_id, 1);
    product.current_stock = 10;
    product.cost_price = Money::from_units(20_000);
    let order = sample_sales_order(8_200_000_003, product_id, 1, 2);

    let confirmed = plan_confirm_sales_order(Some(order.clone()), Some(order.version), vec![product], false, 1, stamp(1))
        .expect("confirm sales-order before return over-remain regression");
    let before_order = confirmed.document.clone();
    let before_product = confirmed.products[0].clone();

    let lines = vec![ReturnLine { product_id, qty: 3 }];
    let err = plan_return_sales_order(
        Some(before_order.clone()),
        Some(before_order.version),
        vec![before_product.clone()],
        &lines,
        Some("超额退货应失败".to_string()),
        2,
        stamp(2),
    )
    .expect_err("return qty greater than remain should be rejected with 4090");
    let e = answer(&err);
    assert_eq!(e.status, 409);
    assert_eq!(e.code, 4090);
    match &e.data {
        ErrorData::ReturnExceeds { product_id: p, remain_qty, request_qty } => {
            assert_eq!(*p, product_id);
            assert_eq!(*remain_qty, 2);
            assert_eq!(*request_qty, 3);
        }
        other => panic!("not a return refusal: {other:?}"),
    }
    assert_eq!(before_order.items[0].returned_qty, 0);
    assert_eq!(before_product.current_stock, 8);
}

#[test]
fn postgres_void_sales_order_stale_expected_version_returns_4091_with_latest_snapshot() {
    let product_id = 9_100_000_012;
    let order = sample_sales_order(8_200_000_004, product_id, 1, 2);

    let voided = plan_void_sales_order(Some(order.clone()), Some(order.version), stamp(1))
        .expect("first void sales-order should succeed");
    assert_eq!(voided.document.status, SalesOrderStatus::Voided);

    let err = plan_void_sales_order(Some(voided.document.clone()), Some(order.version), stamp(2))
        .expect_err("stale expected_version should return 4091 on void sales-order");
    let e = answer(&err);
    assert_eq!(e.status, 409);
    assert_eq!(e.code, 4091);
    let (resource, id, expected, current, snap) = doc_conflict(&e);
    assert_eq!(resource, "sales_order");
    assert_eq!(id, order.id);
    assert_eq!(expected, order.version);
    assert_eq!(current, voided.document.version);
    assert_eq!(snap.status.as_str(), "VOIDED");
    assert_eq!(snap.version, voided.document.version);
}

#[test]
fn postgres_return_sales_order_stale_expected_version_returns_4091_without_mutating_order_product_and_stock_logs() {
    let product_id = 9_100_000_013;
    let mut product = sample_product(product_id, 1);
    product.current_stock = 10;
    product.cost_price = Money::from_units(20_000);
    let order = sample_sales_order(8_200_000_005, product_id, 1, 2);

    let confirmed = plan_confirm_sales_order(Some(order.clone()), Some(order.version), vec![product], false, 1, stamp(1))
        .expect("confirm sales-order before stale return regression");
    let before_order = confirmed.document.clone();
    let before_product = confirmed.products[0].clone();

    let lines = vec![ReturnLine { product_id, qty: 1 }];
    let err = plan_return_sales_order(
        Some(before_order.clone()),
        Some(order.version),
        vec![before_product.clone()],
        &lines,
        Some("stale return should fail".to_string()),
        2,
        stamp(2),
    )
    .expect_err("stale expected_version should return 4091 on return sales-order");
    let e = answer(&err);
    assert_eq!(e.status, 409);
    assert_eq!(e.code, 4091);
    let (resource, id, expected, current, snap) = doc_conflict(&e);
    assert_eq!(resource, "sales_order");
    assert_eq!(id, order.id);
    assert_eq!(expected, order.version);
    assert_eq!(current, before_order.version);
    assert_eq!(snap.status.as_str(), "CONFIRMED");
    assert_eq!(snap.version, before_order.version);
    assert_eq!(before_order.items[0].returned_qty, 0);
    assert_eq!(before_product.current_stock, 8);
}
