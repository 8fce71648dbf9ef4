use jxc_server::config::StorageBackend;
use jxc_server::error::{DocKind, ErrorData, RepoError, Resource, StoredValueKind};
use jxc_server::models::{
    AuditLog, BarcodeLookupStatus, PurchaseOrderItem, PurchaseOrderStatus, SalesOrderItem, SalesOrderStatus,
    StockCheckItem, StockCheckStatus, StockLog, UserRole,
};
use jxc_server::money::Money;
use jxc_server::persistence::{pending_migrations, redis_missing_for_postgres, require_database_url, sqlite_url};
use jxc_server::records::{
    assemble_purchase_orders, assemble_sales_order, assemble_sales_orders, assemble_stock_check,
    PurchaseItemRow, PurchaseOrderRow, SalesItemRow, SalesOrderRow, StockCheckRow,
};
use jxc_server::repository::{
    build_repository_provider, insert_failure, is_sql_state, parse_barcode_lookup_status,
    parse_purchase_order_status, parse_sales_order_status, parse_stock_check_status, parse_user_role,
    user_insert_failure, InsertStage, RepositoryProvider,
};
use jxc_server::repository_sqlite;

fn po_row(id: i64, status: &str) -> PurchaseOrderRow {
    PurchaseOrderRow {
        id,
        tenant_id: 1,
        biz_no: format!("PO-{id}"),
        supplier_id: Some(3),
        status: status.to_string(),
        remark: None,
        created_by: 2,
        version: 1,
        confirmed_at: None,
        voided_at: None,
        created_at: "c".to_string(),
        updated_at: "u".to_string(),
    }
}

fn po_item_row(order: i64, product_id: i64, qty: i32) -> PurchaseItemRow {
    PurchaseItemRow {
        purchase_order_id: order,
        item: PurchaseOrderItem { product_id, qty, unit_cost: Money::from_units(10), product_name_snapshot: None },
    }
}

fn so_row(id: i64, status: &str) -> SalesOrderRow {
    SalesOrderRow {
        id,
        tenant_id: 1,
        biz_no: format!("SO-{id}"),
        customer_id: None,
        status: status.to_string(),
        remark: Some("r".to_string()),
        created_by: 2,
        version: 4,
        confirmed_at: Some("cf".to_string()),
        returned_at: None,
        voided_at: None,
        created_at: "c".to_string(),
        updated_at: "u".to_string(),
    }
}

#[test]
fn repository_follows_the_storage_backend() {
    let m = build_repository_provider(StorageBackend::Memory);
    let p = build_repository_provider(StorageBackend::Postgres);
    let s = build_repository_provider(StorageBackend::Sqlite);
    assert!(matches!(m, RepositoryProvider::Memory(_)));
    assert!(matches!(s, RepositoryProvider::Sqlite(_)));
    assert_eq!((m.name(), p.name(), s.name()), ("memory", "postgres", "sqlite"));
    assert!(!m.is_postgres() && p.is_postgres() && !s.is_postgres());
}

#[test]
fn stored_statuses_read_back() {
    for st in [PurchaseOrderStatus::Draft, PurchaseOrderStatus::Confirmed, PurchaseOrderStatus::Voided] {
        assert_eq!(parse_purchase_order_status(st.as_str()).unwrap(), st);
    }
    for st in [
        SalesOrderStatus::Draft,
        SalesOrderStatus::Confirmed,
        SalesOrderStatus::ReturnedPartial,
        SalesOrderStatus::ReturnedFull,
        SalesOrderStatus::Voided,
    ] {
        assert_eq!(parse_sales_order_status(st.as_str()).unwrap(), st);
    }
    for st in [StockCheckStatus::Draft, StockCheckStatus::Counting, StockCheckStatus::Confirmed] {
        assert_eq!(parse_stock_check_status(st.as_str()).unwrap(), st);
    }
    for st in [BarcodeLookupStatus::Found, BarcodeLookupStatus::NotFound] {
        assert_eq!(parse_barcode_lookup_status(st.as_str()).unwrap(), st);
        assert_eq!(repository_sqlite::parse_barcode_lookup_status(st.as_str()).unwrap(), st);
    }
    for r in [UserRole::Owner, UserRole::Admin, UserRole::Purchaser, UserRole::Sales] {
        assert_eq!(repository_sqlite::parse_user_role(r.as_str()).unwrap(), r);
    }
    for r in [UserRole::Owner, UserRole::Purchaser, UserRole::Sales] {
        assert_eq!(parse_user_role(r.as_str()).unwrap(), r);
    }
}

#[test]
fn unknown_stored_values_are_internal_errors() {
    let err = parse_user_role("ADMIN").unwrap_err();
    assert!(matches!(&err, RepoError::UnknownStoredValue { kind: StoredValueKind::UserRole, raw } if raw == "ADMIN"));
    let e = err.into_app_error();
    assert_eq!((e.status, e.code), (500, 5000));
    assert_eq!(e.message, "未知角色: ADMIN");
    let e = repository_sqlite::parse_user_role("root").unwrap_err().into_app_error();
    assert_eq!(e.message, "未知用户角色: root");
    assert_eq!(parse_barcode_lookup_status("MAYBE").unwrap_err().into_app_error().message, "未知条码缓存状态: MAYBE");
    assert_eq!(
        repository_sqlite::parse_barcode_lookup_status("found").unwrap_err().into_app_error().message,
        "未知条码查询状态: found"
    );
    assert_eq!(parse_purchase_order_status("draft").unwrap_err().into_app_error().message, "未知采购单状态: draft");
    assert_eq!(parse_sales_order_status("").unwrap_err().into_app_error().message, "未知销售单状态: ");
    assert_eq!(parse_stock_check_status("DONE").unwrap_err().into_app_error().message, "未知盘点单状态: DONE");
}

#[test]
fn sql_states_classify_insert_failures() {
    assert!(is_sql_state(Some("23505"), "23505"));
    assert!(!is_sql_state(Some("23503"), "23505"));
    assert!(!is_sql_state(None, "23505"));
    let biz_no = "PO-1".to_string();
    let e = insert_failure(DocKind::PurchaseOrder, &biz_no, InsertStage::Header, Some("23505")).unwrap().into_app_error();
    assert_eq!((e.status, e.code), (409, 4090));
    assert_eq!(e.message, "采购单号已存在");
    assert!(matches!(&e.data, ErrorData::BizNo { biz_no } if biz_no == "PO-1"));
    assert_eq!(
        insert_failure(DocKind::SalesOrder, &biz_no, InsertStage::Header, Some("23505")).unwrap().into_app_error().message,
        "销售单号已存在"
    );
    assert_eq!(
        insert_failure(DocKind::StockCheck, &biz_no, InsertStage::Header, Some("23505")).unwrap().into_app_error().message,
        "盘点单号已存在"
    );
    assert!(matches!(
        insert_failure(DocKind::SalesOrder, &biz_no, InsertStage::Line, Some("23503")),
        Some(RepoError::NotFound(Resource::Product))
    ));
    assert!(insert_failure(DocKind::SalesOrder, &biz_no, InsertStage::Line, Some("23505")).is_none());
    assert!(insert_failure(DocKind::SalesOrder, &biz_no, InsertStage::Header, None).is_none());
    let e = user_insert_failure(&"alice".to_string(), Some("23505")).unwrap().into_app_error();
    assert_eq!((e.status, e.code), (409, 4090));
    assert_eq!(e.message, "用户名已存在");
    assert!(matches!(&e.data, ErrorData::Username { username } if username == "alice"));
    assert!(user_insert_failure(&"alice".to_string(), Some("40001")).is_none());
}

#[test]
fn local_store_reports_uniqueness_failures_by_message() {
    assert!(repository_sqlite::is_sql_state("error returned from database: UNIQUE constraint failed: users.username", "23505"));
    assert!(!repository_sqlite::is_sql_state("FOREIGN KEY constraint failed", "23503"));
    assert!(repository_sqlite::contains("abc", ""));
    assert!(!repository_sqlite::contains("", "a"));
    assert!(repository_sqlite::contains("aab", "ab"));
}

#[test]
fn listed_orders_receive_their_own_lines_in_order() {
    let rows = vec![po_row(1, "DRAFT"), po_row(2, "CONFIRMED"), po_row(3, "VOIDED")];
    let items = vec![po_item_row(2, 20, 1), po_item_row(1, 10, 2), po_item_row(2, 21, 3), po_item_row(9, 90, 4)];
    let orders = assemble_purchase_orders(&rows, &items).unwrap();
    assert_eq!(orders.len(), 3);
    assert_eq!(orders[0].status, PurchaseOrderStatus::Draft);
    assert_eq!(orders[0].items.iter().map(|i| i.product_id).collect::<Vec<_>>(), vec![10]);
    assert_eq!(orders[1].items.iter().map(|i| i.product_id).collect::<Vec<_>>(), vec![20, 21]);
    assert!(orders[2].items.is_empty());
    assert_eq!(orders[1].biz_no, "PO-2");
    assert_eq!(orders[1].supplier_id, Some(3));
}

#[test]
fn a_repeated_order_row_gets_no_lines_the_second_time() {
    let rows = vec![po_row(1, "DRAFT"), po_row(1, "DRAFT")];
    let items = vec![po_item_row(1, 10, 2)];
    let orders = assemble_purchase_orders(&rows, &items).unwrap();
    assert_eq!(orders[0].items.len(), 1);
    assert!(orders[1].items.is_empty());
}

#[test]
fn a_listing_with_an_unknown_status_fails_on_the_first_one() {
    let rows = vec![so_row(1, "CONFIRMED"), so_row(2, "LOST"), so_row(3, "GONE")];
    let err = assemble_sales_orders(&rows, &vec![]).unwrap_err();
    assert!(matches!(&err, RepoError::UnknownStoredValue { kind: StoredValueKind::SalesOrderStatus, raw } if raw == "LOST"));
    assert!(assemble_sales_orders(&vec![], &vec![]).unwrap().is_empty());
}

#[test]
fn a_found_order_carries_its_row_and_lines() {
    let lines = vec![SalesOrderItem {
        product_id: 5,
        qty: 2,
        sell_price: Money::from_units(7),
        returned_qty: 1,
        product_name_snapshot: Some("n".to_string()),
    }];
    let o = assemble_sales_order(&so_row(8, "RETURNED_PARTIAL"), lines).unwrap();
    assert_eq!(o.id, 8);
    assert_eq!(o.status, SalesOrderStatus::ReturnedPartial);
    assert_eq!(o.version, 4);
    assert_eq!(o.confirmed_at, Some("cf".to_string()));
    assert_eq!(o.items[0].returned_qty, 1);
    let items_rows = vec![SalesItemRow {
        sales_order_id: 8,
        item: SalesOrderItem { product_id: 6, qty: 1, sell_price: Money::from_units(1), returned_qty: 0, product_name_snapshot: None },
    }];
    let listed = assemble_sales_orders(&vec![so_row(8, "DRAFT")], &items_rows).unwrap();
    assert_eq!(listed[0].items[0].product_id, 6);
    let check = assemble_stock_check(
        &StockCheckRow {
            id: 4,
            tenant_id: 1,
            biz_no: "SC-4".to_string(),
            status: "COUNTING".to_string(),
            remark: None,
            created_by: 2,
            version: 2,
            counting_at: Some("s".to_string()),
            confirmed_at: None,
            created_at: "c".to_string(),
            updated_at: "u".to_string(),
        },
        vec![StockCheckItem { product_id: 1, book_stock: 3, actual_stock: None, delta_qty: None }],
    )
    .unwrap();
    assert_eq!(check.status, StockCheckStatus::Counting);
    assert_eq!(check.items[0].book_stock, 3);
}

#[test]
fn persistence_settings() {
    assert_eq!(sqlite_url("/data/jxc.db"), "sqlite:///data/jxc.db?mode=rwc");
    let mut c = jxc_server::config::AppConfig::from_vars(&jxc_server::config::ConfigVars {
        app_host: None,
        app_port: None,
        jwt_secret: None,
        jwt_access_expires: None,
        jwt_refresh_expires: None,
        allow_negative_stock: None,
        storage_backend: None,
        database_url: None,
        sqlite_path: None,
        redis_url: None,
        pg_max_connections: None,
        barcode_lookup_api_url: None,
        barcode_lookup_api_key: None,
        barcode_lookup_timeout_ms: None,
        barcode_lookup_found_ttl_secs: None,
        barcode_lookup_not_found_ttl_secs: None,
    });
    let e = require_database_url(&c).unwrap_err();
    assert_eq!((e.status, e.code), (500, 5000));
    assert_eq!(e.message, "STORAGE_BACKEND=postgres 时必须配置 DATABASE_URL");
    assert!(redis_missing_for_postgres(&c));
    c.database_url = Some("postgres://x".to_string());
    assert_eq!(require_database_url(&c).unwrap(), "postgres://x");
    c.storage_backend = StorageBackend::Sqlite;
    assert!(!redis_missing_for_postgres(&c));
    assert_eq!(pending_migrations(&vec![true, false, true, false, false]), vec![1, 3, 4]);
    assert!(pending_migrations(&vec![true, true]).is_empty());
}

#[test]
fn stock_log_now_keeps_every_field_and_stamps_time() {
    let l = StockLog::now(
        7,
        1,
        3,
        "IN_PURCHASE",
        "PO-0001",
        5,
        15,
        Money::from_units(123_456),
        None,
        Some(Money::from_units(100_000)),
        2,
    );
    assert_eq!(l.id, 7);
    assert_eq!(l.tenant_id, 1);
    assert_eq!(l.product_id, 3);
    assert_eq!(l.biz_type, "IN_PURCHASE");
    assert_eq!(l.biz_no, "PO-0001");
    assert_eq!(l.delta_qty, 5);
    assert_eq!(l.snapshot_stock, 15);
    assert_eq!(l.snapshot_cost, Money::from_units(123_456));
    assert_eq!(l.snapshot_sell_price, None);
    assert_eq!(l.snapshot_inbound_unit_cost, Some(Money::from_units(100_000)));
    assert_eq!(l.operator_id, 2);
    assert!(l.created_at.contains('T'));
}

#[test]
fn audit_log_now_keeps_every_field_and_stamps_time() {
    let before = serde_json::Value::String("DRAFT".to_string());
    let after = serde_json::Value::Bool(true);
    let a = AuditLog::now(9, 1, 2, "PURCHASE_ORDER_CONFIRM", "purchase_order", "42", before.clone(), after.clone(), "req-1");
    assert_eq!(a.id, 9);
    assert_eq!(a.tenant_id, 1);
    assert_eq!(a.operator_id, 2);
    assert_eq!(a.action, "PURCHASE_ORDER_CONFIRM");
    assert_eq!(a.target_type, "purchase_order");
    assert_eq!(a.target_id, "42");
    assert_eq!(a.before_data, before);
    assert_eq!(a.after_data, after);
    assert_eq!(a.request_id, "req-1");
    assert!(a.created_at.contains('T'));
}
