//! Failures of the service: the structured reasons that the logic decides, and the
//! `(HTTP status, business code, message, data)` error that answers a request.

use vstd::prelude::*;

use crate::models::DocStatus;
use crate::money::Money;

verus! {

/// The kind of record a failure speaks of.
#[derive(Debug, Clone, Copy, PartialEq, Eq, Structural)]
pub enum Resource {
    Product,
    PurchaseOrder,
    SalesOrder,
    StockCheck,
    User,
    Category,
    Supplier,
    Batch,
}

impl Resource {
    /// The name of the resource in the data of a version conflict.
    pub open spec fn key_spec(self) -> Seq<char> {
        match self {
            Resource::Product => "product"@,
            Resource::PurchaseOrder => "purchase_order"@,
            Resource::SalesOrder => "sales_order"@,
            Resource::StockCheck => "stock_check"@,
            Resource::User => "user"@,
            Resource::Category => "category"@,
            Resource::Supplier => "supplier"@,
            Resource::Batch => "batch"@,
        }
    }

    pub fn key(&self) -> (s: &'static str)
        ensures
            s@ == self.key_spec(),
    {
        match self {
            Resource::Product => "product",
            Resource::PurchaseOrder => "purchase_order",
            Resource::SalesOrder => "sales_order",
            Resource::StockCheck => "stock_check",
            Resource::User => "user",
            Resource::Category => "category",
            Resource::Supplier => "supplier",
            Resource::Batch => "batch",
        }
    }

    pub open spec fn not_found_message_spec(self) -> Seq<char> {
        match self {
            Resource::Product => "商品不存在"@,
            Resource::PurchaseOrder => "采购单不存在"@,
            Resource::SalesOrder => "销售单不存在"@,
            Resource::StockCheck => "盘点单不存在"@,
            Resource::User => "员工不存在"@,
            Resource::Category => "分类不存在"@,
            Resource::Supplier => "供应商不存在"@,
            Resource::Batch => "批次不存在"@,
        }
    }

    pub fn not_found_message(&self) -> (s: &'static str)
        ensures
            s@ == self.not_found_message_spec(),
    {
        match self {
            Resource::Product => "商品不存在",
            Resource::PurchaseOrder => "采购单不存在",
            Resource::SalesOrder => "销售单不存在",
            Resource::StockCheck => "盘点单不存在",
            Resource::User => "员工不存在",
            Resource::Category => "分类不存在",
            Resource::Supplier => "供应商不存在",
            Resource::Batch => "批次不存在",
        }
    }
}

/// What a version conflict reports of a product as it now stands.
#[derive(Debug, Clone, Copy, PartialEq, Eq, Structural)]
pub struct ProductSnapshot {
    pub id: i64,
    pub current_stock: i32,
    pub cost_price: Money,
    pub version: i32,
}

/// What a version conflict or an audit entry reports of a document as it stands.
#[derive(Debug)]
pub struct DocSnapshot {
    pub id: i64,
    pub biz_no: String,
    pub status: DocStatus,
    pub version: i32,
    pub updated_at: String,
}

/// The current state of the record that a stale write targeted.
#[derive(Debug)]
pub enum Snapshot {
    Product(ProductSnapshot),
    Doc(DocSnapshot),
}

impl Clone for DocSnapshot {
    fn clone(&self) -> (r: Self)
        ensures
            r == *self,
    {
        DocSnapshot {
            id: self.id,
            biz_no: self.biz_no.clone(),
            status: self.status,
            version: self.version,
            updated_at: self.updated_at.clone(),
        }
    }
}

impl Clone for Snapshot {
    fn clone(&self) -> (r: Self)
        ensures
            r == *self,
    {
        match self {
            Snapshot::Product(p) => Snapshot::Product(*p),
            Snapshot::Doc(d) => Snapshot::Doc(d.clone()),
        }
    }
}

/// The kind of document whose business number is unique per tenant.
#[derive(Debug, Clone, Copy, PartialEq, Eq, Structural)]
pub enum DocKind {
    PurchaseOrder,
    SalesOrder,
    StockCheck,
}

/// The state rule that a document transition broke.
#[derive(Debug, Clone, Copy, PartialEq, Eq, Structural)]
pub enum StatusRule {
    ConfirmPurchaseOrderNeedsDraft,
    ConfirmSalesOrderNeedsDraft,
    VoidSalesOrderNeedsDraft,
    ReturnNeedsConfirmedOrPartial,
    StartStockCheckNeedsDraft,
    ConfirmStockCheckNeedsCounting,
}

/// A stored value that has no meaning to the service.
#[derive(Debug, Clone, Copy, PartialEq, Eq, Structural)]
pub enum StoredValueKind {
    UserRole,
    BarcodeLookupStatus,
    PurchaseOrderStatus,
    SalesOrderStatus,
    StockCheckStatus,
    /// A user role as the local (SQLite) store reports it.
    LocalUserRole,
    /// A barcode lookup status as the local (SQLite) store reports it.
    LocalBarcodeLookupStatus,
}

/// Why an operation of the service did not take place.
#[derive(Debug, Clone)]
pub enum RepoError {
    /// A quantity to move was zero or negative.
    QtyNotPositive,
    /// A request listed no items.
    ItemsEmpty,
    /// A listed item had a quantity of zero or less.
    ItemQtyNotPositive,
    /// A product to return is not on the sales order.
    ReturnProductNotInOrder { product_id: i64 },
    /// A counted stock was negative.
    ActualStockNegative,
    /// A product was counted twice.
    DuplicateCheckProduct,
    /// The counted items are not as many as the check lists.
    CheckItemCountMismatch { expected_items: usize, actual_items: usize },
    /// A counted product is not on the check.
    CheckProductNotInCheck { product_id: i64 },
    /// A product of the check was not counted.
    CheckItemIncomplete { product_id: i64 },
    /// The record does not exist (or is deleted).
    NotFound(Resource),
    /// The caller's expected version is not the record's current version.
    VersionConflict { resource: Resource, resource_id: i64, expected_version: i32, current_version: i32, latest: Snapshot },
    /// The stock of a product moved since the check recorded its book stock.
    BookStockDrift { product_id: i64, book_stock: i32, current_stock: i32, latest: ProductSnapshot },
    /// Stock would go below zero on an outbound movement.
    InsufficientStock { failed_product_id: i64, available_stock: i32, required_qty: i32 },
    /// Stock would go below zero when a confirmed purchase order is voided.
    InsufficientStockForVoid { failed_product_id: i64, available_stock: i32, required_qty: i32 },
    /// The document is not in a state that allows the transition.
    StatusNotAllowed { rule: StatusRule, status: DocStatus },
    /// The purchase order is already voided.
    PurchaseOrderAlreadyVoided,
    /// More would be returned than was sold and not yet returned.
    ReturnExceedsRemaining { product_id: i64, remain_qty: i64, request_qty: i32 },
    /// The business number is already used by another document of the tenant.
    BizNoTaken { kind: DocKind, biz_no: String },
    /// The user name is taken within the tenant.
    UsernameTaken { username: String },
    /// A value read back from storage is not one the service knows.
    UnknownStoredValue { kind: StoredValueKind, raw: String },
    /// A stock or money figure left the range its column holds.
    NumericOverflow,
}

/// The data attached to an error answer.
#[derive(Debug, Clone)]
pub enum ErrorData {
    Empty,
    VersionConflict { resource: Resource, resource_id: i64, expected_version: i32, current_version: i32, latest_snapshot: Snapshot },
    BookStockDrift { resource_id: i64, book_stock: i32, current_stock: i32, latest_snapshot: ProductSnapshot },
    InsufficientStock { failed_product_id: i64, available_stock: i32, required_qty: i32 },
    Status { status: DocStatus },
    ReturnExceeds { product_id: i64, remain_qty: i64, request_qty: i32 },
    ProductId { product_id: i64 },
    ItemCount { expected_items: usize, actual_items: usize },
    BizNo { biz_no: String },
    Username { username: String },
}

/// An error answer: HTTP status, business code, message, data and the request it answers.
#[derive(Debug, Clone)]
pub struct AppError {
    pub status: u16,
    pub code: i32,
    pub message: String,
    pub data: ErrorData,
    pub request_id: Option<String>,
}

pub const STATUS_BAD_REQUEST: u16 = 400;
pub const STATUS_UNAUTHORIZED: u16 = 401;
pub const STATUS_FORBIDDEN: u16 = 403;
pub const STATUS_NOT_FOUND: u16 = 404;
pub const STATUS_CONFLICT: u16 = 409;
pub const STATUS_INTERNAL_SERVER_ERROR: u16 = 500;

impl AppError {
    fn new(status: u16, code: i32, message: String) -> (e: AppError)
        ensures
            e.status == status,
            e.code == code,
            e.message == message,
            e.data is Empty,
            e.request_id is None,
    {
        AppError { status, code, message, data: ErrorData::Empty, request_id: None }
    }

    /// An error with the given status and code.
    pub fn business(status: u16, code: i32, message: String) -> (e: AppError)
        ensures
            e.status == status,
            e.code == code,
            e.message == message,
            e.data is Empty,
            e.request_id is None,
    {
        Self::new(status, code, message)
    }

    pub fn unauthorized(message: String) -> (e: AppError)
        ensures
            e.status == STATUS_UNAUTHORIZED,
            e.code == 4010,
            e.message == message,
            e.data is Empty,
            e.request_id is None,
    {
        Self::new(STATUS_UNAUTHORIZED, 4010, message)
    }

    pub fn forbidden(message: String) -> (e: AppError)
        ensures
            e.status == STATUS_FORBIDDEN,
            e.code == 4030,
            e.message == message,
            e.data is Empty,
            e.request_id is None,
    {
        Self::new(STATUS_FORBIDDEN, 4030, message)
    }

    pub fn bad_request(message: String) -> (e: AppError)
        ensures
            e.status == STATUS_BAD_REQUEST,
            e.code == 4000,
            e.message == message,
            e.data is Empty,
            e.request_id is None,
    {
        Self::new(STATUS_BAD_REQUEST, 4000, message)
    }

    pub fn not_found(message: String) -> (e: AppError)
        ensures
            e.status == STATUS_NOT_FOUND,
            e.code == 4040,
            e.message == message,
            e.data is Empty,
            e.request_id is None,
    {
        Self::new(STATUS_NOT_FOUND, 4040, message)
    }

    pub fn conflict(code: i32, message: String) -> (e: AppError)
        ensures
            e.status == STATUS_CONFLICT,
            e.code == code,
            e.message == message,
            e.data is Empty,
            e.request_id is None,
    {
        Self::new(STATUS_CONFLICT, code, message)
    }

    pub fn internal(message: String) -> (e: AppError)
        ensures
            e.status == STATUS_INTERNAL_SERVER_ERROR,
            e.code == 5000,
            e.message == message,
            e.data is Empty,
            e.request_id is None,
    {
        Self::new(STATUS_INTERNAL_SERVER_ERROR, 5000, message)
    }

    /// The same error carrying `data`.
    pub fn with_data(self, data: ErrorData) -> (e: AppError)
        ensures
            e.status == self.status,
            e.code == self.code,
            e.message == self.message,
            e.data == data,
            e.request_id == self.request_id,
    {
        let mut e = self;
        e.data = data;
        e
    }

    /// The same error, answering the request `request_id`.
    pub fn with_request_id(self, request_id: String) -> (e: AppError)
        ensures
            e.status == self.status,
            e.code == self.code,
            e.message == self.message,
            e.data == self.data,
            e.request_id == Some(request_id),
    {
        let mut e = self;
        e.request_id = Some(request_id);
        e
    }
}

pub open spec fn status_rule_message_spec(rule: StatusRule) -> Seq<char> {
    match rule {
        StatusRule::ConfirmPurchaseOrderNeedsDraft => "仅 DRAFT 状态可确认采购单"@,
        StatusRule::ConfirmSalesOrderNeedsDraft => "仅 DRAFT 状态可确认销售单"@,
        StatusRule::VoidSalesOrderNeedsDraft => "仅 DRAFT 状态可作废销售单"@,
        StatusRule::ReturnNeedsConfirmedOrPartial => "当前状态不允许退货"@,
        StatusRule::StartStockCheckNeedsDraft => "仅 DRAFT 状态可开始盘点"@,
        StatusRule::ConfirmStockCheckNeedsCounting => "仅 COUNTING 状态可确认盘点"@,
    }
}

fn status_rule_message(rule: StatusRule) -> (s: &'static str)
    ensures
        s@ == status_rule_message_spec(rule),
{
    match rule {
        StatusRule::ConfirmPurchaseOrderNeedsDraft => "仅 DRAFT 状态可确认采购单",
        StatusRule::ConfirmSalesOrderNeedsDraft => "仅 DRAFT 状态可确认销售单",
        StatusRule::VoidSalesOrderNeedsDraft => "仅 DRAFT 状态可作废销售单",
        StatusRule::ReturnNeedsConfirmedOrPartial => "当前状态不允许退货",
        StatusRule::StartStockCheckNeedsDraft => "仅 DRAFT 状态可开始盘点",
        StatusRule::ConfirmStockCheckNeedsCounting => "仅 COUNTING 状态可确认盘点",
    }
}

pub open spec fn biz_no_taken_message_spec(kind: DocKind) -> Seq<char> {
    match kind {
        DocKind::PurchaseOrder => "采购单号已存在"@,
        DocKind::SalesOrder => "销售单号已存在"@,
        DocKind::StockCheck => "盘点单号已存在"@,
    }
}

fn biz_no_taken_message(kind: DocKind) -> (s: &'static str)
    ensures
        s@ == biz_no_taken_message_spec(kind),
{
    match kind {
        DocKind::PurchaseOrder => "采购单号已存在",
        DocKind::SalesOrder => "销售单号已存在",
        DocKind::StockCheck => "盘点单号已存在",
    }
}

pub open spec fn stored_value_prefix_spec(kind: StoredValueKind) -> Seq<char> {
    match kind {
        StoredValueKind::UserRole => "未知角色: "@,
        StoredValueKind::BarcodeLookupStatus => "未知条码缓存状态: "@,
        StoredValueKind::PurchaseOrderStatus => "未知采购单状态: "@,
        StoredValueKind::SalesOrderStatus => "未知销售单状态: "@,
        StoredValueKind::StockCheckStatus => "未知盘点单状态: "@,
        StoredValueKind::LocalUserRole => "未知用户角色: "@,
        StoredValueKind::LocalBarcodeLookupStatus => "未知条码查询状态: "@,
    }
}

fn stored_value_prefix(kind: StoredValueKind) -> (s: &'static str)
    ensures
        s@ == stored_value_prefix_spec(kind),
{
    match kind {
        StoredValueKind::UserRole => "未知角色: ",
        StoredValueKind::BarcodeLookupStatus => "未知条码缓存状态: ",
        StoredValueKind::PurchaseOrderStatus => "未知采购单状态: ",
        StoredValueKind::SalesOrderStatus => "未知销售单状态: ",
        StoredValueKind::StockCheckStatus => "未知盘点单状态: ",
        StoredValueKind::LocalUserRole => "未知用户角色: ",
        StoredValueKind::LocalBarcodeLookupStatus => "未知条码查询状态: ",
    }
}

impl RepoError {
    /// HTTP status of the answer to this failure.
    pub open spec fn http_status_spec(self) -> u16 {
        match self {
            RepoError::NotFound(_) => STATUS_NOT_FOUND,
            RepoError::VersionConflict { .. } | RepoError::BookStockDrift { .. }
            | RepoError::StatusNotAllowed { .. } | RepoError::PurchaseOrderAlreadyVoided
            | RepoError::ReturnExceedsRemaining { .. } | RepoError::BizNoTaken { .. }
            | RepoError::UsernameTaken { .. } => STATUS_CONFLICT,
            RepoError::UnknownStoredValue { .. } | RepoError::NumericOverflow => STATUS_INTERNAL_SERVER_ERROR,
            _ => STATUS_BAD_REQUEST,
        }
    }

    /// Business code of the answer to this failure.
    pub open spec fn code_spec(self) -> i32 {
        match self {
            RepoError::NotFound(_) => 4040,
            RepoError::VersionConflict { .. } | RepoError::BookStockDrift { .. } => 4091,
            RepoError::StatusNotAllowed { .. } | RepoError::PurchaseOrderAlreadyVoided
            | RepoError::ReturnExceedsRemaining { .. } | RepoError::BizNoTaken { .. }
            | RepoError::UsernameTaken { .. } => 4090,
            RepoError::InsufficientStock { .. } | RepoError::InsufficientStockForVoid { .. } => 4001,
            RepoError::UnknownStoredValue { .. } | RepoError::NumericOverflow => 5000,
            _ => 4000,
        }
    }

    /// Message of the answer to this failure.
    pub open spec fn message_spec(self) -> Seq<char> {
        match self {
            RepoError::QtyNotPositive => "qty 必须大于 0"@,
            RepoError::ItemsEmpty => "items 不能为空"@,
            RepoError::ItemQtyNotPositive => "items.qty 必须大于 0"@,
            RepoError::ReturnProductNotInOrder { .. } => "退货商品不在销售单中"@,
            RepoError::ActualStockNegative => "actual_stock 不能小于 0"@,
            RepoError::DuplicateCheckProduct => "items.product_id 存在重复"@,
            RepoError::CheckItemCountMismatch { .. } => "盘点项数量不匹配"@,
            RepoError::CheckProductNotInCheck { .. } => "盘点商品不在盘点单中"@,
            RepoError::CheckItemIncomplete { .. } => "盘点项不完整"@,
            RepoError::NotFound(r) => r.not_found_message_spec(),
            RepoError::VersionConflict { .. } => "版本冲突，请刷新后重试"@,
            RepoError::BookStockDrift { .. } => "盘点基准库存已变化，请重新发起盘点"@,
            RepoError::InsufficientStock { .. } => "库存不足"@,
            RepoError::InsufficientStockForVoid { .. } => "库存不足，无法执行反向作废"@,
            RepoError::StatusNotAllowed { rule, .. } => status_rule_message_spec(rule),
            RepoError::PurchaseOrderAlreadyVoided => "采购单已作废"@,
            RepoError::ReturnExceedsRemaining { .. } => "退货数量超过可退数量"@,
            RepoError::BizNoTaken { kind, .. } => biz_no_taken_message_spec(kind),
            RepoError::UsernameTaken { .. } => "用户名已存在"@,
            RepoError::UnknownStoredValue { kind, raw } => stored_value_prefix_spec(kind) + raw@,
            RepoError::NumericOverflow => "数值超出存储范围"@,
        }
    }

    /// Data of the answer to this failure.
    pub open spec fn data_spec(self) -> ErrorData {
        match self {
            RepoError::ReturnProductNotInOrder { product_id } => ErrorData::ProductId { product_id },
            RepoError::CheckItemCountMismatch { expected_items, actual_items } => ErrorData::ItemCount {
                expected_items,
                actual_items,
            },
            RepoError::CheckProductNotInCheck { product_id } => ErrorData::ProductId { product_id },
            RepoError::CheckItemIncomplete { product_id } => ErrorData::ProductId { product_id },
            RepoError::VersionConflict { resource, resource_id, expected_version, current_version, latest } =>
                ErrorData::VersionConflict {
                resource,
                resource_id,
                expected_version,
                current_version,
                latest_snapshot: latest,
            },
            RepoError::BookStockDrift { product_id, book_stock, current_stock, latest } =>
                ErrorData::BookStockDrift {
                resource_id: product_id,
                book_stock,
                current_stock,
                latest_snapshot: latest,
            },
            RepoError::InsufficientStock { failed_product_id, available_stock, required_qty } =>
                ErrorData::InsufficientStock { failed_product_id, available_stock, required_qty },
            RepoError::InsufficientStockForVoid { failed_product_id, available_stock, required_qty } =>
                ErrorData::InsufficientStock { failed_product_id, available_stock, required_qty },
            RepoError::StatusNotAllowed { status, .. } => ErrorData::Status { status },
            RepoError::ReturnExceedsRemaining { product_id, remain_qty, request_qty } =>
                ErrorData::ReturnExceeds { product_id, remain_qty, request_qty },
            RepoError::BizNoTaken { biz_no, .. } => ErrorData::BizNo { biz_no },
            RepoError::UsernameTaken { username } => ErrorData::Username { username },
            _ => ErrorData::Empty,
        }
    }

    fn message(&self) -> (m: String)
        ensures
            m@ == self.message_spec(),
    {
        match self {
            RepoError::QtyNotPositive => String::from_str("qty 必须大于 0"),
            RepoError::ItemsEmpty => String::from_str("items 不能为空"),
            RepoError::ItemQtyNotPositive => String::from_str("items.qty 必须大于 0"),
            RepoError::ReturnProductNotInOrder { .. } => String::from_str("退货商品不在销售单中"),
            RepoError::ActualStockNegative => String::from_str("actual_stock 不能小于 0"),
            RepoError::DuplicateCheckProduct => String::from_str("items.product_id 存在重复"),
            RepoError::CheckItemCountMismatch { .. } => String::from_str("盘点项数量不匹配"),
            RepoError::CheckProductNotInCheck { .. } => String::from_str("盘点商品不在盘点单中"),
            RepoError::CheckItemIncomplete { .. } => String::from_str("盘点项不完整"),
            RepoError::NotFound(r) => String::from_str(r.not_found_message()),
            RepoError::VersionConflict { .. } => String::from_str("版本冲突，请刷新后重试"),
            RepoError::BookStockDrift { .. } => String::from_str("盘点基准库存已变化，请重新发起盘点"),
            RepoError::InsufficientStock { .. } => String::from_str("库存不足"),
            RepoError::InsufficientStockForVoid { .. } => String::from_str("库存不足，无法执行反向作废"),
            RepoError::StatusNotAllowed { rule, .. } => String::from_str(status_rule_message(*rule)),
            RepoError::PurchaseOrderAlreadyVoided => String::from_str("采购单已作废"),
            RepoError::ReturnExceedsRemaining { .. } => String::from_str("退货数量超过可退数量"),
            RepoError::BizNoTaken { kind, .. } => String::from_str(biz_no_taken_message(*kind)),
            RepoError::UsernameTaken { .. } => String::from_str("用户名已存在"),
            RepoError::UnknownStoredValue { kind, raw } => {
                let mut m = String::from_str(stored_value_prefix(*kind));
                m.append(raw.as_str());
                m
            },
            RepoError::NumericOverflow => String::from_str("数值超出存储范围"),
        }
    }

    fn data(&self) -> (d: ErrorData)
        ensures
            d == self.data_spec(),
    {
        match self {
            RepoError::ReturnProductNotInOrder { product_id } => ErrorData::ProductId { product_id: *product_id },
            RepoError::CheckItemCountMismatch { expected_items, actual_items } => ErrorData::ItemCount {
                expected_items: *expected_items,
                actual_items: *actual_items,
            },
            RepoError::CheckProductNotInCheck { product_id } => ErrorData::ProductId { product_id: *product_id },
            RepoError::CheckItemIncomplete { product_id } => ErrorData::ProductId { product_id: *product_id },
            RepoError::VersionConflict { resource, resource_id, expected_version, current_version, latest } =>
                ErrorData::VersionConflict {
                resource: *resource,
                resource_id: *resource_id,
                expected_version: *expected_version,
                current_version: *current_version,
                latest_snapshot: latest.clone(),
            },
            RepoError::BookStockDrift { product_id, book_stock, current_stock, latest } =>
                ErrorData::BookStockDrift {
                resource_id: *product_id,
                book_stock: *book_stock,
                current_stock: *current_stock,
                latest_snapshot: *latest,
            },
            RepoError::InsufficientStock { failed_product_id, available_stock, required_qty } =>
                ErrorData::InsufficientStock {
                failed_product_id: *failed_product_id,
                available_stock: *available_stock,
                required_qty: *required_qty,
            },
            RepoError::InsufficientStockForVoid { failed_product_id, available_stock, required_qty } =>
                ErrorData::InsufficientStock {
                failed_product_id: *failed_product_id,
                available_stock: *available_stock,
                required_qty: *required_qty,
            },
            RepoError::StatusNotAllowed { status, .. } => ErrorData::Status { status: *status },
            RepoError::ReturnExceedsRemaining { product_id, remain_qty, request_qty } =>
                ErrorData::ReturnExceeds {
                product_id: *product_id,
                remain_qty: *remain_qty,
                request_qty: *request_qty,
            },
            RepoError::BizNoTaken { biz_no, .. } => ErrorData::BizNo { biz_no: biz_no.clone() },
            RepoError::UsernameTaken { username } => ErrorData::Username { username: username.clone() },
            _ => ErrorData::Empty,
        }
    }

    /// The error answer for this failure.
    pub fn into_app_error(&self) -> (e: AppError)
        ensures
            e.status == self.http_status_spec(),
            e.code == self.code_spec(),
            e.message@ == self.message_spec(),
            e.data == self.data_spec(),
            e.request_id is None,
    {
        let status: u16 = match self {
            RepoError::NotFound(_) => STATUS_NOT_FOUND,
            RepoError::VersionConflict { .. } | RepoError::BookStockDrift { .. }
            | RepoError::StatusNotAllowed { .. } | RepoError::PurchaseOrderAlreadyVoided
            | RepoError::ReturnExceedsRemaining { .. } | RepoError::BizNoTaken { .. }
            | RepoError::UsernameTaken { .. } => STATUS_CONFLICT,
            RepoError::UnknownStoredValue { .. } | RepoError::NumericOverflow => STATUS_INTERNAL_SERVER_ERROR,
            _ => STATUS_BAD_REQUEST,
        };
        let code: i32 = match self {
            RepoError::NotFound(_) => 4040,
            RepoError::VersionConflict { .. } | RepoError::BookStockDrift { .. } => 4091,
            RepoError::StatusNotAllowed { .. } | RepoError::PurchaseOrderAlreadyVoided
            | RepoError::ReturnExceedsRemaining { .. } | RepoError::BizNoTaken { .. }
            | RepoError::UsernameTaken { .. } => 4090,
            RepoError::InsufficientStock { .. } | RepoError::InsufficientStockForVoid { .. } => 4001,
            RepoError::UnknownStoredValue { .. } | RepoError::NumericOverflow => 5000,
            _ => 4000,
        };
        AppError { status, code, message: self.message(), data: self.data(), request_id: None }
    }
}

} // verus!
