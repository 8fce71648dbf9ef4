use jxc_server::costing::weighted_average_cost;
use jxc_server::error::{RepoError, Resource};
use jxc_server::inventory::{
    plan_inbound, plan_inbound_batch, plan_outbound, InboundItem, OutboundItem, StockBizType,
};
use jxc_server::models::Product;
use jxc_server::money::Money;

fn item_product(id: i64, stock: i32, cost_units: i64, version: i32) -> Product {
    Product {
        id,
        tenant_id: 7,
        sku: format!("SKU-{id}"),
        barcode: format!("BC-{id}"),
        name: format!("商品{id}"),
        unit: "件".to_string(),
        current_stock: stock,
        cost_price: Money::from_units(cost_units),
        retail_price: Money::from_units(50_000),
        last_inbound_unit_cost: None,
        min_stock_limit: 0,
        version,
        is_deleted: false,
        category_id: None,
        track_batches: false,
    }
}

fn out(product_id: i64, qty: i32) -> OutboundItem {
    OutboundItem { product_id, qty, expected_version: None, sell_price: Some(Money::from_units(45_000)) }
}

#[test]
fn weighted_cost_of_first_receipt_is_its_unit_cost() {
    let c = weighted_average_cost(0, Money::from_units(0), 5, Money::from_units(30_000)).unwrap();
    assert_eq!(c.units, 30_000);
}

#[test]
fn weighted_cost_averages_by_quantity() {
    // 10 units at 2.0000 and 10 units at 4.0000 average to 3.0000.
    let c = weighted_average_cost(10, Money::from_units(20_000), 10, Money::from_units(40_000)).unwrap();
    assert_eq!(c.units, 30_000);
    // 50 units at 2.1000 and 5 units at 3.0000: 120.0000 / 55 = 2.181818.. -> 2.1818.
    let c = weighted_average_cost(50, Money::from_units(21_000), 5, Money::from_units(30_000)).unwrap();
    assert_eq!(c.units, 21_818);
}

#[test]
fn weighted_cost_rounds_half_to_even() {
    // 0.00005 rounds down to 0.0000; 0.00015 rounds up to 0.0002.
    let c = weighted_average_cost(1, Money::from_units(1), 1, Money::from_units(0)).unwrap();
    assert_eq!(c.units, 0);
    let c = weighted_average_cost(1, Money::from_units(3), 1, Money::from_units(0)).unwrap();
    assert_eq!(c.units, 2);
    let c = weighted_average_cost(1, Money::from_units(-3), 1, Money::from_units(0)).unwrap();
    assert_eq!(c.units, -2);
}

#[test]
fn weighted_cost_with_no_stock_left_is_the_unit_cost() {
    let c = weighted_average_cost(-5, Money::from_units(10_000), 5, Money::from_units(12_345)).unwrap();
    assert_eq!(c.units, 12_345);
    let c = weighted_average_cost(-9, Money::from_units(10_000), 5, Money::from_units(12_345)).unwrap();
    assert_eq!(c.units, 12_345);
}

#[test]
fn weighted_cost_refuses_what_cannot_be_stored() {
    assert!(matches!(
        weighted_average_cost(i32::MAX, Money::from_units(1), 1, Money::from_units(1)),
        Err(RepoError::NumericOverflow)
    ));
}

#[test]
fn weighted_cost_stays_between_old_cost_and_unit_cost() {
    for (stock, old, qty, unit) in [(3, 10_000, 7, 20_000), (100, 99_999, 1, 1), (1, 5, 1_000, 70_001)] {
        let c = weighted_average_cost(stock, Money::from_units(old), qty, Money::from_units(unit)).unwrap();
        assert!(old.min(unit) <= c.units && c.units <= old.max(unit));
    }
}

#[test]
fn inbound_rejects_non_positive_quantity_and_missing_product() {
    let p = item_product(1, 10, 10_000, 1);
    assert!(matches!(plan_inbound(Some(p.clone()), 0, None, None, "PO-1", 1), Err(RepoError::QtyNotPositive)));
    assert!(matches!(plan_inbound(None, 3, None, None, "PO-1", 1), Err(RepoError::NotFound(Resource::Product))));
    let mut deleted = p;
    deleted.is_deleted = true;
    assert!(matches!(
        plan_inbound(Some(deleted), 3, None, None, "PO-1", 1),
        Err(RepoError::NotFound(Resource::Product))
    ));
}

#[test]
fn inbound_updates_stock_cost_version_and_logs_the_receipt() {
    let p = item_product(1, 10, 20_000, 4);
    let (q, log) = plan_inbound(Some(p), 10, Some(Money::from_units(40_000)), Some(4), "PO-9", 77).unwrap();
    assert_eq!(q.current_stock, 20);
    assert_eq!(q.cost_price.units, 30_000);
    assert_eq!(q.last_inbound_unit_cost, Some(Money::from_units(40_000)));
    assert_eq!(q.version, 5);
    assert_eq!(log.id, 77);
    assert_eq!(log.product_id, 1);
    assert_eq!(log.biz_type, StockBizType::InPurchase);
    assert_eq!(log.biz_type.as_str(), "IN_PURCHASE");
    assert_eq!(log.biz_no, "PO-9");
    assert_eq!(log.delta_qty, 10);
    assert_eq!(log.snapshot_stock, 20);
    assert_eq!(log.snapshot_cost.units, 30_000);
    assert_eq!(log.snapshot_inbound_unit_cost, Some(Money::from_units(40_000)));
    assert_eq!(log.snapshot_sell_price, None);
}

#[test]
fn inbound_without_unit_cost_uses_last_inbound_cost_then_current_cost() {
    let mut p = item_product(1, 10, 20_000, 1);
    p.last_inbound_unit_cost = Some(Money::from_units(26_000));
    let (q, _) = plan_inbound(Some(p), 10, None, None, "PO-1", 1).unwrap();
    assert_eq!(q.cost_price.units, 23_000);
    let p = item_product(2, 10, 20_000, 1);
    let (q, log) = plan_inbound(Some(p), 10, None, None, "PO-1", 1).unwrap();
    assert_eq!(q.cost_price.units, 20_000);
    assert_eq!(log.snapshot_inbound_unit_cost, Some(Money::from_units(20_000)));
}

#[test]
fn batch_inbound_applies_lines_in_order_with_consecutive_log_ids() {
    let table = vec![item_product(1, 0, 0, 1), item_product(2, 5, 10_000, 1)];
    let items = vec![
        InboundItem { product_id: 1, qty: 4, unit_cost: Some(Money::from_units(10_000)), expected_version: Some(1) },
        InboundItem { product_id: 1, qty: 4, unit_cost: Some(Money::from_units(20_000)), expected_version: Some(2) },
        InboundItem { product_id: 2, qty: 5, unit_cost: Some(Money::from_units(30_000)), expected_version: None },
    ];
    let (ups, logs) = plan_inbound_batch(table, &items, "PO-B", 10).unwrap();
    assert_eq!(ups.len(), 3);
    assert_eq!(ups[0].current_stock, 4);
    assert_eq!(ups[1].current_stock, 8);
    assert_eq!(ups[1].cost_price.units, 15_000);
    assert_eq!(ups[1].version, 3);
    assert_eq!(ups[2].current_stock, 10);
    assert_eq!(ups[2].cost_price.units, 20_000);
    assert_eq!(logs.iter().map(|l| l.id).collect::<Vec<_>>(), vec![10, 11, 12]);
}

#[test]
fn batch_inbound_refusals() {
    let table = vec![item_product(1, 0, 0, 1)];
    assert!(matches!(plan_inbound_batch(table.clone(), &vec![], "PO-B", 1), Err(RepoError::ItemsEmpty)));
    let bad = vec![InboundItem { product_id: 1, qty: 0, unit_cost: None, expected_version: None }];
    assert!(matches!(plan_inbound_batch(table.clone(), &bad, "PO-B", 1), Err(RepoError::ItemQtyNotPositive)));
    let missing = vec![InboundItem { product_id: 2, qty: 1, unit_cost: None, expected_version: None }];
    assert!(matches!(
        plan_inbound_batch(table, &missing, "PO-B", 1),
        Err(RepoError::NotFound(Resource::Product))
    ));
}

#[test]
fn outbound_takes_stock_and_logs_negative_changes() {
    let table = vec![item_product(1, 10, 10_000, 1)];
    let (ups, logs) = plan_outbound(table, &vec![out(1, 3), out(1, 2)], None, false, "SO-1", 5).unwrap();
    assert_eq!(ups[0].current_stock, 7);
    assert_eq!(ups[1].current_stock, 5);
    assert_eq!(ups[1].version, 3);
    assert_eq!(logs[0].delta_qty, -3);
    assert_eq!(logs[1].delta_qty, -2);
    assert_eq!(logs[1].snapshot_stock, 5);
    assert_eq!(logs[1].id, 6);
    assert_eq!(logs[0].biz_type.as_str(), "OUT_SALE");
    assert_eq!(logs[0].snapshot_sell_price, Some(Money::from_units(45_000)));
}

#[test]
fn outbound_shortage_counts_earlier_lines_of_the_same_product() {
    let table = vec![item_product(1, 4, 10_000, 1)];
    let err = plan_outbound(table, &vec![out(1, 3), out(1, 2)], None, false, "SO-1", 5).unwrap_err();
    match err {
        RepoError::InsufficientStock { failed_product_id, available_stock, required_qty } => {
            assert_eq!((failed_product_id, available_stock, required_qty), (1, 1, 2));
        }
        other => panic!("{other:?}"),
    }
}

#[test]
fn outbound_with_negative_stock_allowed_goes_below_zero() {
    let table = vec![item_product(1, 1, 10_000, 1)];
    let (ups, _) = plan_outbound(table, &vec![out(1, 3)], None, true, "SO-1", 1).unwrap();
    assert_eq!(ups[0].current_stock, -2);
}

#[test]
fn outbound_refusals() {
    let table = vec![item_product(1, 10, 10_000, 1)];
    assert!(matches!(plan_outbound(table.clone(), &vec![], None, false, "SO", 1), Err(RepoError::ItemsEmpty)));
    assert!(matches!(
        plan_outbound(table.clone(), &vec![out(1, -1)], None, false, "SO", 1),
        Err(RepoError::ItemQtyNotPositive)
    ));
    assert!(matches!(
        plan_outbound(table.clone(), &vec![out(9, 1)], None, false, "SO", 1),
        Err(RepoError::NotFound(Resource::Product))
    ));
    let mut own_version = out(1, 1);
    own_version.expected_version = Some(3);
    assert!(matches!(
        plan_outbound(table, &vec![own_version], Some(1), false, "SO", 1),
        Err(RepoError::VersionConflict { expected_version: 3, current_version: 1, .. })
    ));
}

#[test]
fn outbound_never_writes_negative_stock_when_disallowed() {
    let table = vec![item_product(1, 6, 10_000, 1), item_product(2, 2, 10_000, 1)];
    let (ups, _) = plan_outbound(table, &vec![out(1, 6), out(2, 2)], None, false, "SO", 1).unwrap();
    assert!(ups.iter().all(|p| p.current_stock >= 0));
}
