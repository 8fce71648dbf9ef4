use jxc_server::documents::AuditAction;
use jxc_server::error::{RepoError, Resource, StatusRule};
use jxc_server::inventory::StockBizType;
use jxc_server::models::{
    Product, PurchaseOrder, PurchaseOrderItem, PurchaseOrderStatus, SalesOrder, SalesOrderItem,
    SalesOrderStatus, StockCheck, StockCheckItem, StockCheckStatus,
};
use jxc_server::money::Money;
use jxc_server::purchase::{plan_confirm_purchase_order, plan_void_purchase_order};
use jxc_server::sales::{plan_confirm_sales_order, plan_return_sales_order, plan_void_sales_order, ReturnLine};
use jxc_server::stock_check::{plan_confirm_stock_check, plan_start_stock_check, CountLine};

fn doc_product(id: i64, stock: i32, cost_units: i64) -> Product {
    Product {
        id,
        tenant_id: 3,
        sku: format!("S{id}"),
        barcode: format!("B{id}"),
        name: format!("P{id}"),
        unit: "箱".to_string(),
        current_stock: stock,
        cost_price: Money::from_units(cost_units),
        retail_price: Money::from_units(0),
        last_inbound_unit_cost: None,
        min_stock_limit: 0,
        version: 1,
        is_deleted: false,
        category_id: Some(4),
        track_batches: false,
    }
}

fn po(lines: &[(i64, i32, i64)], status: PurchaseOrderStatus) -> PurchaseOrder {
    PurchaseOrder {
        id: 500,
        tenant_id: 3,
        biz_no: "PO-500".to_string(),
        supplier_id: None,
        status,
        items: lines
            .iter()
            .map(|&(product_id, qty, cost)| PurchaseOrderItem {
                product_id,
                qty,
                unit_cost: Money::from_units(cost),
                product_name_snapshot: None,
            })
            .collect(),
        remark: None,
        created_by: 9,
        version: 3,
        confirmed_at: None,
        voided_at: None,
        created_at: "t0".to_string(),
        updated_at: "t0".to_string(),
    }
}

fn so(lines: &[(i64, i32, i32)], status: SalesOrderStatus) -> SalesOrder {
    SalesOrder {
        id: 600,
        tenant_id: 3,
        biz_no: "SO-600".to_string(),
        customer_id: None,
        status,
        items: lines
            .iter()
            .map(|&(product_id, qty, returned_qty)| SalesOrderItem {
                product_id,
                qty,
                sell_price: Money::from_units(99_000),
                returned_qty,
                product_name_snapshot: None,
            })
            .collect(),
        remark: Some("原备注".to_string()),
        created_by: 9,
        version: 1,
        confirmed_at: None,
        returned_at: None,
        voided_at: None,
        created_at: "t0".to_string(),
        updated_at: "t0".to_string(),
    }
}

fn sc(lines: &[(i64, i32)], status: StockCheckStatus) -> StockCheck {
    StockCheck {
        id: 700,
        tenant_id: 3,
        biz_no: "SC-700".to_string(),
        status,
        items: lines
            .iter()
            .map(|&(product_id, book_stock)| StockCheckItem { product_id, book_stock, actual_stock: None, delta_qty: None })
            .collect(),
        remark: Some("盘点".to_string()),
        created_by: 9,
        version: 2,
        counting_at: None,
        confirmed_at: None,
        created_at: "t0".to_string(),
        updated_at: "t0".to_string(),
    }
}

#[test]
fn confirming_a_purchase_order_receives_goods_and_records_everything() {
    let table = vec![doc_product(1, 10, 20_000), doc_product(2, 0, 0)];
    let plan = plan_confirm_purchase_order(
        Some(po(&[(1, 10, 40_000), (2, 3, 15_000)], PurchaseOrderStatus::Draft)),
        Some(3),
        table,
        100,
        "t1".to_string(),
    )
    .unwrap();
    assert_eq!(plan.document.status, PurchaseOrderStatus::Confirmed);
    assert_eq!(plan.document.version, 4);
    assert_eq!(plan.document.confirmed_at, Some("t1".to_string()));
    assert_eq!(plan.document.updated_at, "t1");
    assert_eq!(plan.products[0].current_stock, 20);
    assert_eq!(plan.products[0].cost_price.units, 30_000);
    assert_eq!(plan.products[1].current_stock, 3);
    assert_eq!(plan.products[1].cost_price.units, 15_000);
    assert_eq!(plan.stock_logs.len(), 2);
    assert_eq!(plan.stock_logs[1].id, 101);
    assert_eq!(plan.stock_logs[1].biz_type, StockBizType::InPurchase);
    assert_eq!(plan.stock_logs[1].biz_no, "PO-500");
    assert_eq!(plan.stock_logs[1].delta_qty, 3);
    assert_eq!(plan.stock_logs[1].snapshot_stock, 3);
    assert_eq!(plan.stock_logs[1].snapshot_inbound_unit_cost, Some(Money::from_units(15_000)));
    assert_eq!(plan.audit.action, AuditAction::PurchaseOrderConfirm);
    assert_eq!(plan.audit.action.as_str(), "PURCHASE_ORDER_CONFIRM");
    assert_eq!(plan.audit.target_type, Resource::PurchaseOrder);
    assert_eq!(plan.audit.target_id, 500);
    assert_eq!(plan.audit.before.status.as_str(), "DRAFT");
    assert_eq!(plan.audit.after.status.as_str(), "CONFIRMED");
    assert_eq!(plan.audit.after.version, 4);
}

#[test]
fn purchase_order_refusals() {
    assert!(matches!(
        plan_confirm_purchase_order(None, None, vec![], 1, "t".to_string()),
        Err(RepoError::NotFound(Resource::PurchaseOrder))
    ));
    let err = plan_confirm_purchase_order(
        Some(po(&[(1, 1, 1)], PurchaseOrderStatus::Confirmed)),
        None,
        vec![doc_product(1, 0, 0)],
        1,
        "t".to_string(),
    )
    .unwrap_err();
    assert!(matches!(err, RepoError::StatusNotAllowed { rule: StatusRule::ConfirmPurchaseOrderNeedsDraft, .. }));
    let e = err.into_app_error();
    assert_eq!((e.status, e.code), (409, 4090));
    assert_eq!(e.message, "仅 DRAFT 状态可确认采购单");
    assert!(matches!(
        plan_confirm_purchase_order(Some(po(&[(9, 1, 1)], PurchaseOrderStatus::Draft)), None, vec![], 1, "t".to_string()),
        Err(RepoError::NotFound(Resource::Product))
    ));
    let err = plan_void_purchase_order(
        Some(po(&[(1, 1, 1)], PurchaseOrderStatus::Voided)),
        None,
        vec![doc_product(1, 5, 0)],
        false,
        1,
        "t".to_string(),
    )
    .unwrap_err();
    assert!(matches!(err, RepoError::PurchaseOrderAlreadyVoided));
    let e = err.into_app_error();
    assert_eq!((e.status, e.code), (409, 4090));
    assert_eq!(e.message, "采购单已作废");
}

#[test]
fn voiding_a_draft_purchase_order_moves_no_stock() {
    let plan = plan_void_purchase_order(
        Some(po(&[(1, 4, 10_000)], PurchaseOrderStatus::Draft)),
        Some(3),
        vec![doc_product(1, 5, 0)],
        false,
        1,
        "t2".to_string(),
    )
    .unwrap();
    assert_eq!(plan.document.status, PurchaseOrderStatus::Voided);
    assert_eq!(plan.document.voided_at, Some("t2".to_string()));
    assert!(plan.products.is_empty());
    assert!(plan.stock_logs.is_empty());
}

#[test]
fn voiding_a_confirmed_purchase_order_restores_stock_with_reverse_logs() {
    let table = vec![doc_product(1, 10, 20_000), doc_product(2, 0, 0)];
    let order = po(&[(1, 10, 40_000), (2, 3, 15_000), (1, 2, 10_000)], PurchaseOrderStatus::Draft);
    let confirmed = plan_confirm_purchase_order(Some(order), None, table.clone(), 1, "t1".to_string()).unwrap();
    let after_confirm = vec![confirmed.products[2].clone(), confirmed.products[1].clone()];
    assert_eq!(after_confirm[0].current_stock, 22);
    let voided = plan_void_purchase_order(Some(confirmed.document), None, after_confirm, false, 10, "t2".to_string())
        .unwrap();
    assert_eq!(voided.document.status, PurchaseOrderStatus::Voided);
    assert_eq!(voided.products[2].id, 1);
    assert_eq!(voided.products[2].current_stock, table[0].current_stock);
    assert_eq!(voided.products[1].current_stock, table[1].current_stock);
    assert_eq!(voided.stock_logs.iter().map(|l| l.delta_qty).collect::<Vec<_>>(), vec![-10, -3, -2]);
    assert!(voided.stock_logs.iter().all(|l| l.biz_type.as_str() == "VOID_PURCHASE"));
    assert_eq!(voided.audit.action.as_str(), "PURCHASE_ORDER_VOID");
}

#[test]
fn confirming_a_sales_order_ships_goods() {
    let plan = plan_confirm_sales_order(
        Some(so(&[(1, 4, 0)], SalesOrderStatus::Draft)),
        Some(1),
        vec![doc_product(1, 10, 20_000)],
        false,
        40,
        "t1".to_string(),
    )
    .unwrap();
    assert_eq!(plan.document.status, SalesOrderStatus::Confirmed);
    assert_eq!(plan.document.version, 2);
    assert_eq!(plan.products[0].current_stock, 6);
    assert_eq!(plan.products[0].cost_price.units, 20_000);
    assert_eq!(plan.stock_logs[0].delta_qty, -4);
    assert_eq!(plan.stock_logs[0].biz_type, StockBizType::OutSale);
    assert_eq!(plan.stock_logs[0].snapshot_sell_price, Some(Money::from_units(99_000)));
    assert_eq!(plan.audit.action.as_str(), "SALES_ORDER_CONFIRM");
}

#[test]
fn voiding_a_draft_sales_order() {
    let plan = plan_void_sales_order(Some(so(&[(1, 4, 0)], SalesOrderStatus::Draft)), None, "t9".to_string()).unwrap();
    assert_eq!(plan.document.status, SalesOrderStatus::Voided);
    assert_eq!(plan.document.voided_at, Some("t9".to_string()));
    assert!(plan.products.is_empty() && plan.stock_logs.is_empty());
    assert_eq!(plan.audit.action.as_str(), "SALES_ORDER_VOID");
    assert!(matches!(plan_void_sales_order(None, None, "t".to_string()), Err(RepoError::NotFound(Resource::SalesOrder))));
}

#[test]
fn partial_then_full_return() {
    let order = so(&[(1, 5, 0), (2, 2, 0)], SalesOrderStatus::Confirmed);
    let table = vec![doc_product(1, 0, 30_000), doc_product(2, 1, 10_000)];
    let first = plan_return_sales_order(
        Some(order),
        Some(1),
        table,
        &vec![ReturnLine { product_id: 1, qty: 2 }],
        None,
        1,
        "t1".to_string(),
    )
    .unwrap();
    assert_eq!(first.document.status, SalesOrderStatus::ReturnedPartial);
    assert_eq!(first.document.items[0].returned_qty, 2);
    assert_eq!(first.document.remark, Some("原备注".to_string()));
    assert_eq!(first.document.returned_at, Some("t1".to_string()));
    assert_eq!(first.products[0].current_stock, 2);
    assert_eq!(first.products[0].cost_price.units, 30_000);
    assert_eq!(first.stock_logs[0].delta_qty, 2);
    assert_eq!(first.stock_logs[0].biz_type.as_str(), "RETURN_SALE");
    assert_eq!(first.stock_logs[0].snapshot_sell_price, Some(Money::from_units(99_000)));

    let second = plan_return_sales_order(
        Some(first.document),
        Some(2),
        vec![first.products[0].clone(), doc_product(2, 1, 10_000)],
        &vec![ReturnLine { product_id: 2, qty: 2 }, ReturnLine { product_id: 1, qty: 3 }],
        Some("全部退回".to_string()),
        2,
        "t2".to_string(),
    )
    .unwrap();
    assert_eq!(second.document.status, SalesOrderStatus::ReturnedFull);
    assert_eq!(second.document.items[0].returned_qty, 5);
    assert_eq!(second.document.items[1].returned_qty, 2);
    assert_eq!(second.document.remark, Some("全部退回".to_string()));
    assert_eq!(second.document.version, 3);
    assert!(second.document.items.iter().all(|i| i.returned_qty <= i.qty));
}

#[test]
fn return_refusals() {
    let confirmed = so(&[(1, 5, 0)], SalesOrderStatus::Confirmed);
    let table = vec![doc_product(1, 0, 0)];
    let draft = so(&[(1, 5, 0)], SalesOrderStatus::Draft);
    let err = plan_return_sales_order(Some(draft), None, table.clone(), &vec![ReturnLine { product_id: 1, qty: 1 }], None, 1, "t".to_string())
        .unwrap_err();
    let e = err.into_app_error();
    assert_eq!((e.status, e.code), (409, 4090));
    assert_eq!(e.message, "当前状态不允许退货");
    assert!(matches!(
        plan_return_sales_order(Some(confirmed.clone()), None, table.clone(), &vec![], None, 1, "t".to_string()),
        Err(RepoError::ItemsEmpty)
    ));
    assert!(matches!(
        plan_return_sales_order(Some(confirmed.clone()), None, table.clone(), &vec![ReturnLine { product_id: 1, qty: 0 }], None, 1, "t".to_string()),
        Err(RepoError::ItemQtyNotPositive)
    ));
    let err = plan_return_sales_order(Some(confirmed.clone()), None, table.clone(), &vec![ReturnLine { product_id: 8, qty: 1 }], None, 1, "t".to_string())
        .unwrap_err();
    assert!(matches!(err, RepoError::ReturnProductNotInOrder { product_id: 8 }));
    let e = err.into_app_error();
    assert_eq!((e.status, e.code), (400, 4000));
    assert_eq!(e.message, "退货商品不在销售单中");
}

#[test]
fn stock_check_runs_from_draft_to_counting_to_confirmed() {
    let check = sc(&[(1, 10), (2, 4), (3, 7)], StockCheckStatus::Draft);
    let started = plan_start_stock_check(Some(check), Some(2), "t1".to_string()).unwrap();
    assert_eq!(started.document.status, StockCheckStatus::Counting);
    assert_eq!(started.document.counting_at, Some("t1".to_string()));
    assert_eq!(started.audit.action.as_str(), "STOCK_CHECK_START");

    let table = vec![doc_product(1, 10, 10_000), doc_product(2, 4, 10_000), doc_product(3, 7, 10_000)];
    let lines = vec![
        CountLine { product_id: 3, actual_stock: 7 },
        CountLine { product_id: 1, actual_stock: 12 },
        CountLine { product_id: 2, actual_stock: 0 },
    ];
    let confirmed =
        plan_confirm_stock_check(Some(started.document), Some(3), table, &lines, None, 50, "t2".to_string()).unwrap();
    assert_eq!(confirmed.document.status, StockCheckStatus::Confirmed);
    assert_eq!(confirmed.document.version, 4);
    assert_eq!(confirmed.document.remark, Some("盘点".to_string()));
    let counted: Vec<_> = confirmed.products.iter().map(|p| (p.id, p.current_stock)).collect();
    assert_eq!(counted, vec![(1, 12), (2, 0), (3, 7)]);
    let deltas: Vec<_> = confirmed.stock_logs.iter().map(|l| (l.id, l.product_id, l.delta_qty, l.snapshot_stock)).collect();
    assert_eq!(deltas, vec![(50, 1, 2, 12), (51, 2, -4, 0)]);
    assert!(confirmed.stock_logs.iter().all(|l| l.biz_type.as_str() == "ADJ_CHECK"));
    let filled: Vec<_> = confirmed.document.items.iter().map(|i| (i.actual_stock, i.delta_qty)).collect();
    assert_eq!(filled, vec![(Some(12), Some(2)), (Some(0), Some(-4)), (Some(7), Some(0))]);
}

#[test]
fn stock_check_confirmation_refusals() {
    let counting = sc(&[(1, 10), (2, 4)], StockCheckStatus::Counting);
    let table = vec![doc_product(1, 10, 0), doc_product(2, 4, 0)];
    let run = |lines: Vec<CountLine>| {
        plan_confirm_stock_check(Some(counting.clone()), None, table.clone(), &lines, None, 1, "t".to_string())
    };
    assert!(matches!(run(vec![]), Err(RepoError::ItemsEmpty)));
    assert!(matches!(
        run(vec![CountLine { product_id: 1, actual_stock: -1 }, CountLine { product_id: 2, actual_stock: 1 }]),
        Err(RepoError::ActualStockNegative)
    ));
    assert!(matches!(
        run(vec![CountLine { product_id: 1, actual_stock: 1 }, CountLine { product_id: 1, actual_stock: 2 }]),
        Err(RepoError::DuplicateCheckProduct)
    ));
    assert!(matches!(
        run(vec![CountLine { product_id: 1, actual_stock: 1 }]),
        Err(RepoError::CheckItemCountMismatch { expected_items: 2, actual_items: 1 })
    ));
    assert!(matches!(
        run(vec![CountLine { product_id: 1, actual_stock: 1 }, CountLine { product_id: 5, actual_stock: 1 }]),
        Err(RepoError::CheckProductNotInCheck { product_id: 5 })
    ));
    let draft = sc(&[(1, 10)], StockCheckStatus::Draft);
    let err = plan_confirm_stock_check(Some(draft), None, table.clone(), &vec![CountLine { product_id: 1, actual_stock: 1 }], None, 1, "t".to_string())
        .unwrap_err();
    let e = err.into_app_error();
    assert_eq!((e.status, e.code), (409, 4090));
    assert_eq!(e.message, "仅 COUNTING 状态可确认盘点");
    let started_twice = plan_start_stock_check(Some(counting.clone()), None, "t".to_string()).unwrap_err();
    assert_eq!(started_twice.into_app_error().message, "仅 DRAFT 状态可开始盘点");
}

#[test]
fn returning_a_confirmed_sales_order_in_full_restores_stock() {
    let table = vec![doc_product(1, 10, 20_000), doc_product(2, 3, 10_000)];
    let order = so(&[(1, 4, 0), (2, 3, 0)], SalesOrderStatus::Draft);
    let confirmed = plan_confirm_sales_order(Some(order), None, table.clone(), false, 1, "t1".to_string()).unwrap();
    let lines: Vec<ReturnLine> =
        confirmed.document.items.iter().map(|i| ReturnLine { product_id: i.product_id, qty: i.qty }).collect();
    let returned =
        plan_return_sales_order(Some(confirmed.document), None, confirmed.products.clone(), &lines, None, 3, "t2".to_string())
            .unwrap();
    assert_eq!(returned.document.status, SalesOrderStatus::ReturnedFull);
    assert_eq!(returned.products[0].current_stock, table[0].current_stock);
    assert_eq!(returned.products[1].current_stock, table[1].current_stock);
    assert_eq!(returned.stock_logs.iter().map(|l| l.delta_qty).collect::<Vec<_>>(), vec![4, 3]);
}

#[test]
fn return_lines_of_one_product_are_counted_together() {
    let confirmed = so(&[(1, 3, 0)], SalesOrderStatus::Confirmed);
    let table = vec![doc_product(1, 7, 20_000)];
    let err = plan_return_sales_order(
        Some(confirmed.clone()),
        Some(1),
        table.clone(),
        &vec![ReturnLine { product_id: 1, qty: 2 }, ReturnLine { product_id: 1, qty: 2 }],
        None,
        1,
        "t".to_string(),
    )
    .unwrap_err();
    assert!(matches!(err, RepoError::ReturnExceedsRemaining { product_id: 1, remain_qty: 1, request_qty: 2 }));
    let e = err.into_app_error();
    assert_eq!((e.status, e.code), (409, 4090));
    assert_eq!(e.message, "退货数量超过可退数量");

    let plan = plan_return_sales_order(
        Some(confirmed),
        Some(1),
        table,
        &vec![ReturnLine { product_id: 1, qty: 2 }, ReturnLine { product_id: 1, qty: 1 }],
        None,
        1,
        "t".to_string(),
    )
    .unwrap();
    assert_eq!(plan.document.items[0].returned_qty, 3);
    assert_eq!(plan.document.status, SalesOrderStatus::ReturnedFull);
    assert_eq!(plan.products[1].current_stock, 10);
    assert_eq!(plan.stock_logs.len(), 2);
}

#[test]
fn voiding_with_the_current_version_restores_even_negative_stock_when_allowed() {
    let table = vec![doc_product(1, -5, 20_000)];
    let order = po(&[(1, 3, 20_000)], PurchaseOrderStatus::Draft);
    let confirmed = plan_confirm_purchase_order(Some(order), Some(3), table.clone(), 1, "t1".to_string()).unwrap();
    assert_eq!(confirmed.document.version, 4);
    let after_confirm = confirmed.products.clone();
    let voided = plan_void_purchase_order(Some(confirmed.document), Some(4), after_confirm, true, 10, "t2".to_string())
        .unwrap();
    assert_eq!(voided.document.status, PurchaseOrderStatus::Voided);
    assert_eq!(voided.document.version, 5);
    assert_eq!(voided.document.voided_at, Some("t2".to_string()));
    assert_eq!(voided.products[0].current_stock, -5);
    assert_eq!(voided.stock_logs[0].delta_qty, -3);
}
