//! Roles, document states and the records that the inventory logic reads and writes.

use chrono::Utc;
use sha2::{Digest, Sha256};
use vstd::prelude::*;
use vstd::string::StringSliceAdditionalSpecFns;

use crate::money::Money;
use crate::text::clone_opt_string;

verus! {

/// A user's role within a tenant.
#[derive(Debug, Clone, Copy, PartialEq, Eq, Structural)]
pub enum UserRole {
    Owner,
    Admin,
    Purchaser,
    Sales,
}

impl UserRole {
    pub open spec fn name_spec(self) -> Seq<char> {
        match self {
            UserRole::Owner => "OWNER"@,
            UserRole::Admin => "ADMIN"@,
            UserRole::Purchaser => "PURCHASER"@,
            UserRole::Sales => "SALES"@,
        }
    }

    pub open spec fn rank_spec(self) -> u8 {
        match self {
            UserRole::Owner => 100,
            UserRole::Admin => 50,
            UserRole::Purchaser => 10,
            UserRole::Sales => 10,
        }
    }

    /// The stored and transmitted name of the role.
    pub fn as_str(&self) -> (s: &'static str)
        ensures
            s@ == self.name_spec(),
    {
        match self {
            UserRole::Owner => "OWNER",
            UserRole::Admin => "ADMIN",
            UserRole::Purchaser => "PURCHASER",
            UserRole::Sales => "SALES",
        }
    }

    /// Level of the role: the larger, the more it may do.
    pub fn rank(&self) -> (r: u8)
        ensures
            r == self.rank_spec(),
    {
        match self {
            UserRole::Owner => 100,
            UserRole::Admin => 50,
            UserRole::Purchaser => 10,
            UserRole::Sales => 10,
        }
    }
}

/// Outcome of an external barcode lookup.
#[derive(Debug, Clone, Copy, PartialEq, Eq, Structural)]
pub enum BarcodeLookupStatus {
    Found,
    NotFound,
}

impl BarcodeLookupStatus {
    pub open spec fn name_spec(self) -> Seq<char> {
        match self {
            BarcodeLookupStatus::Found => "FOUND"@,
            BarcodeLookupStatus::NotFound => "NOT_FOUND"@,
        }
    }

    pub fn as_str(&self) -> (s: &'static str)
        ensures
            s@ == self.name_spec(),
    {
        match self {
            BarcodeLookupStatus::Found => "FOUND",
            BarcodeLookupStatus::NotFound => "NOT_FOUND",
        }
    }
}

/// State of a purchase order: `DRAFT -> CONFIRMED -> VOIDED`, or `DRAFT -> VOIDED`.
#[derive(Debug, Clone, Copy, PartialEq, Eq, Structural)]
pub enum PurchaseOrderStatus {
    Draft,
    Confirmed,
    Voided,
}

impl PurchaseOrderStatus {
    pub open spec fn name_spec(self) -> Seq<char> {
        match self {
            PurchaseOrderStatus::Draft => "DRAFT"@,
            PurchaseOrderStatus::Confirmed => "CONFIRMED"@,
            PurchaseOrderStatus::Voided => "VOIDED"@,
        }
    }

    pub fn as_str(&self) -> (s: &'static str)
        ensures
            s@ == self.name_spec(),
    {
        match self {
            PurchaseOrderStatus::Draft => "DRAFT",
            PurchaseOrderStatus::Confirmed => "CONFIRMED",
            PurchaseOrderStatus::Voided => "VOIDED",
        }
    }
}

/// State of a sales order: `DRAFT -> CONFIRMED -> RETURNED_PARTIAL / RETURNED_FULL`,
/// or `DRAFT -> VOIDED`.
#[derive(Debug, Clone, Copy, PartialEq, Eq, Structural)]
pub enum SalesOrderStatus {
    Draft,
    Confirmed,
    ReturnedPartial,
    ReturnedFull,
    Voided,
}

impl SalesOrderStatus {
    pub open spec fn name_spec(self) -> Seq<char> {
        match self {
            SalesOrderStatus::Draft => "DRAFT"@,
            SalesOrderStatus::Confirmed => "CONFIRMED"@,
            SalesOrderStatus::ReturnedPartial => "RETURNED_PARTIAL"@,
            SalesOrderStatus::ReturnedFull => "RETURNED_FULL"@,
            SalesOrderStatus::Voided => "VOIDED"@,
        }
    }

    pub fn as_str(&self) -> (s: &'static str)
        ensures
            s@ == self.name_spec(),
    {
        match self {
            SalesOrderStatus::Draft => "DRAFT",
            SalesOrderStatus::Confirmed => "CONFIRMED",
            SalesOrderStatus::ReturnedPartial => "RETURNED_PARTIAL",
            SalesOrderStatus::ReturnedFull => "RETURNED_FULL",
            SalesOrderStatus::Voided => "VOIDED",
        }
    }
}

/// State of a stock check: `DRAFT -> COUNTING -> CONFIRMED`.
#[derive(Debug, Clone, Copy, PartialEq, Eq, Structural)]
pub enum StockCheckStatus {
    Draft,
    Counting,
    Confirmed,
}

impl StockCheckStatus {
    pub open spec fn name_spec(self) -> Seq<char> {
        match self {
            StockCheckStatus::Draft => "DRAFT"@,
            StockCheckStatus::Counting => "COUNTING"@,
            StockCheckStatus::Confirmed => "CONFIRMED"@,
        }
    }

    pub fn as_str(&self) -> (s: &'static str)
        ensures
            s@ == self.name_spec(),
    {
        match self {
            StockCheckStatus::Draft => "DRAFT",
            StockCheckStatus::Counting => "COUNTING",
            StockCheckStatus::Confirmed => "CONFIRMED",
        }
    }
}

/// The state of any of the three kinds of document.
#[derive(Debug, Clone, Copy, PartialEq, Eq, Structural)]
pub enum DocStatus {
    Purchase(PurchaseOrderStatus),
    Sales(SalesOrderStatus),
    Check(StockCheckStatus),
}

impl DocStatus {
    pub open spec fn name_spec(self) -> Seq<char> {
        match self {
            DocStatus::Purchase(s) => s.name_spec(),
            DocStatus::Sales(s) => s.name_spec(),
            DocStatus::Check(s) => s.name_spec(),
        }
    }

    pub fn as_str(&self) -> (s: &'static str)
        ensures
            s@ == self.name_spec(),
    {
        match self {
            DocStatus::Purchase(s) => s.as_str(),
            DocStatus::Sales(s) => s.as_str(),
            DocStatus::Check(s) => s.as_str(),
        }
    }
}

/// A product row as the inventory logic reads and writes it.
/// Identifiers of tenants are carried as the 128-bit value of their UUID.
#[derive(Debug)]
pub struct Product {
    pub id: i64,
    pub tenant_id: u128,
    pub sku: String,
    pub barcode: String,
    pub name: String,
    pub unit: String,
    pub current_stock: i32,
    pub cost_price: Money,
    pub retail_price: Money,
    pub last_inbound_unit_cost: Option<Money>,
    pub min_stock_limit: i32,
    pub version: i32,
    pub is_deleted: bool,
    pub category_id: Option<i64>,
    pub track_batches: bool,
}

impl Clone for Product {
    fn clone(&self) -> (r: Self)
        ensures
            r == *self,
    {
        Product {
            id: self.id,
            tenant_id: self.tenant_id,
            sku: self.sku.clone(),
            barcode: self.barcode.clone(),
            name: self.name.clone(),
            unit: self.unit.clone(),
            current_stock: self.current_stock,
            cost_price: self.cost_price,
            retail_price: self.retail_price,
            last_inbound_unit_cost: self.last_inbound_unit_cost,
            min_stock_limit: self.min_stock_limit,
            version: self.version,
            is_deleted: self.is_deleted,
            category_id: self.category_id,
            track_batches: self.track_batches,
        }
    }
}

/// One line of a purchase order.
#[derive(Debug)]
pub struct PurchaseOrderItem {
    pub product_id: i64,
    pub qty: i32,
    pub unit_cost: Money,
    pub product_name_snapshot: Option<String>,
}

/// A purchase order with its lines. Times are RFC 3339 strings.
#[derive(Debug)]
pub struct PurchaseOrder {
    pub id: i64,
    pub tenant_id: u128,
    pub biz_no: String,
    pub supplier_id: Option<i64>,
    pub status: PurchaseOrderStatus,
    pub items: Vec<PurchaseOrderItem>,
    pub remark: Option<String>,
    pub created_by: u128,
    pub version: i32,
    pub confirmed_at: Option<String>,
    pub voided_at: Option<String>,
    pub created_at: String,
    pub updated_at: String,
}

/// One line of a sales order.
#[derive(Debug)]
pub struct SalesOrderItem {
    pub product_id: i64,
    pub qty: i32,
    pub sell_price: Money,
    pub returned_qty: i32,
    pub product_name_snapshot: Option<String>,
}

/// A sales order with its lines. Times are RFC 3339 strings.
#[derive(Debug)]
pub struct SalesOrder {
    pub id: i64,
    pub tenant_id: u128,
    pub biz_no: String,
    pub customer_id: Option<i64>,
    pub status: SalesOrderStatus,
    pub items: Vec<SalesOrderItem>,
    pub remark: Option<String>,
    pub created_by: u128,
    pub version: i32,
    pub confirmed_at: Option<String>,
    pub returned_at: Option<String>,
    pub voided_at: Option<String>,
    pub created_at: String,
    pub updated_at: String,
}

/// One line of a stock check: the book stock when the check was drawn up and,
/// once confirmed, the counted stock and the difference.
#[derive(Debug, Clone, Copy, PartialEq, Eq, Structural)]
pub struct StockCheckItem {
    pub product_id: i64,
    pub book_stock: i32,
    pub actual_stock: Option<i32>,
    pub delta_qty: Option<i32>,
}

/// A stock check with its lines. Times are RFC 3339 strings.
#[derive(Debug)]
pub struct StockCheck {
    pub id: i64,
    pub tenant_id: u128,
    pub biz_no: String,
    pub status: StockCheckStatus,
    pub items: Vec<StockCheckItem>,
    pub remark: Option<String>,
    pub created_by: u128,
    pub version: i32,
    pub counting_at: Option<String>,
    pub confirmed_at: Option<String>,
    pub created_at: String,
    pub updated_at: String,
}

/// A purchase order with its lines as a sequence.
pub struct PurchaseOrderView {
    pub id: i64,
    pub tenant_id: u128,
    pub biz_no: String,
    pub supplier_id: Option<i64>,
    pub status: PurchaseOrderStatus,
    pub items: Seq<PurchaseOrderItem>,
    pub remark: Option<String>,
    pub created_by: u128,
    pub version: i32,
    pub confirmed_at: Option<String>,
    pub voided_at: Option<String>,
    pub created_at: String,
    pub updated_at: String,
}

impl View for PurchaseOrder {
    type V = PurchaseOrderView;

    open spec fn view(&self) -> PurchaseOrderView {
        PurchaseOrderView {
            id: self.id,
            tenant_id: self.tenant_id,
            biz_no: self.biz_no,
            supplier_id: self.supplier_id,
            status: self.status,
            items: self.items@,
            remark: self.remark,
            created_by: self.created_by,
            version: self.version,
            confirmed_at: self.confirmed_at,
            voided_at: self.voided_at,
            created_at: self.created_at,
            updated_at: self.updated_at,
        }
    }
}

/// A sales order with its lines as a sequence.
pub struct SalesOrderView {
    pub id: i64,
    pub tenant_id: u128,
    pub biz_no: String,
    pub customer_id: Option<i64>,
    pub status: SalesOrderStatus,
    pub items: Seq<SalesOrderItem>,
    pub remark: Option<String>,
    pub created_by: u128,
    pub version: i32,
    pub confirmed_at: Option<String>,
    pub returned_at: Option<String>,
    pub voided_at: Option<String>,
    pub created_at: String,
    pub updated_at: String,
}

impl View for SalesOrder {
    type V = SalesOrderView;

    open spec fn view(&self) -> SalesOrderView {
        SalesOrderView {
            id: self.id,
            tenant_id: self.tenant_id,
            biz_no: self.biz_no,
            customer_id: self.customer_id,
            status: self.status,
            items: self.items@,
            remark: self.remark,
            created_by: self.created_by,
            version: self.version,
            confirmed_at: self.confirmed_at,
            returned_at: self.returned_at,
            voided_at: self.voided_at,
            created_at: self.created_at,
            updated_at: self.updated_at,
        }
    }
}

/// A stock check with its lines as a sequence.
pub struct StockCheckView {
    pub id: i64,
    pub tenant_id: u128,
    pub biz_no: String,
    pub status: StockCheckStatus,
    pub items: Seq<StockCheckItem>,
    pub remark: Option<String>,
    pub created_by: u128,
    pub version: i32,
    pub counting_at: Option<String>,
    pub confirmed_at: Option<String>,
    pub created_at: String,
    pub updated_at: String,
}

impl View for StockCheck {
    type V = StockCheckView;

    open spec fn view(&self) -> StockCheckView {
        StockCheckView {
            id: self.id,
            tenant_id: self.tenant_id,
            biz_no: self.biz_no,
            status: self.status,
            items: self.items@,
            remark: self.remark,
            created_by: self.created_by,
            version: self.version,
            counting_at: self.counting_at,
            confirmed_at: self.confirmed_at,
            created_at: self.created_at,
            updated_at: self.updated_at,
        }
    }
}

impl Clone for PurchaseOrderItem {
    fn clone(&self) -> (r: Self)
        ensures
            r == *self,
    {
        PurchaseOrderItem {
            product_id: self.product_id,
            qty: self.qty,
            unit_cost: self.unit_cost,
            product_name_snapshot: clone_opt_string(&self.product_name_snapshot),
        }
    }
}

impl Clone for SalesOrderItem {
    fn clone(&self) -> (r: Self)
        ensures
            r == *self,
    {
        SalesOrderItem {
            product_id: self.product_id,
            qty: self.qty,
            sell_price: self.sell_price,
            returned_qty: self.returned_qty,
            product_name_snapshot: clone_opt_string(&self.product_name_snapshot),
        }
    }
}

/// A copy of the lines of a purchase order.
pub fn clone_purchase_items(v: &Vec<PurchaseOrderItem>) -> (r: Vec<PurchaseOrderItem>)
    ensures
        r@ == v@,
{
    let mut r: Vec<PurchaseOrderItem> = Vec::new();
    let mut i: usize = 0;
    while i < v.len()
        invariant
            i <= v@.len(),
            r@ == v@.subrange(0, i as int),
        decreases v@.len() - i,
    {
        r.push(v[i].clone());
        i = i + 1;
    }
    assert(r@ =~= v@);
    r
}

/// A copy of the lines of a sales order.
pub fn clone_sales_items(v: &Vec<SalesOrderItem>) -> (r: Vec<SalesOrderItem>)
    ensures
        r@ == v@,
{
    let mut r: Vec<SalesOrderItem> = Vec::new();
    let mut i: usize = 0;
    while i < v.len()
        invariant
            i <= v@.len(),
            r@ == v@.subrange(0, i as int),
        decreases v@.len() - i,
    {
        r.push(v[i].clone());
        i = i + 1;
    }
    assert(r@ =~= v@);
    r
}

/// A copy of the lines of a stock check.
pub fn clone_check_items(v: &Vec<StockCheckItem>) -> (r: Vec<StockCheckItem>)
    ensures
        r@ == v@,
{
    let mut r: Vec<StockCheckItem> = Vec::new();
    let mut i: usize = 0;
    while i < v.len()
        invariant
            i <= v@.len(),
            r@ == v@.subrange(0, i as int),
        decreases v@.len() - i,
    {
        r.push(v[i]);
        i = i + 1;
    }
    assert(r@ =~= v@);
    r
}

impl Clone for PurchaseOrder {
    fn clone(&self) -> (r: Self)
        ensures
            r@ == self@,
    {
        PurchaseOrder {
            id: self.id,
            tenant_id: self.tenant_id,
            biz_no: self.biz_no.clone(),
            supplier_id: self.supplier_id,
            status: self.status,
            items: clone_purchase_items(&self.items),
            remark: clone_opt_string(&self.remark),
            created_by: self.created_by,
            version: self.version,
            confirmed_at: clone_opt_string(&self.confirmed_at),
            voided_at: clone_opt_string(&self.voided_at),
            created_at: self.created_at.clone(),
            updated_at: self.updated_at.clone(),
        }
    }
}

impl Clone for SalesOrder {
    fn clone(&self) -> (r: Self)
        ensures
            r@ == self@,
    {
        SalesOrder {
            id: self.id,
            tenant_id: self.tenant_id,
            biz_no: self.biz_no.clone(),
            customer_id: self.customer_id,
            status: self.status,
            items: clone_sales_items(&self.items),
            remark: clone_opt_string(&self.remark),
            created_by: self.created_by,
            version: self.version,
            confirmed_at: clone_opt_string(&self.confirmed_at),
            returned_at: clone_opt_string(&self.returned_at),
            voided_at: clone_opt_string(&self.voided_at),
            created_at: self.created_at.clone(),
            updated_at: self.updated_at.clone(),
        }
    }
}

impl Clone for StockCheck {
    fn clone(&self) -> (r: Self)
        ensures
            r@ == self@,
    {
        StockCheck {
            id: self.id,
            tenant_id: self.tenant_id,
            biz_no: self.biz_no.clone(),
            status: self.status,
            items: clone_check_items(&self.items),
            remark: clone_opt_string(&self.remark),
            created_by: self.created_by,
            version: self.version,
            counting_at: clone_opt_string(&self.counting_at),
            confirmed_at: clone_opt_string(&self.confirmed_at),
            created_at: self.created_at.clone(),
            updated_at: self.updated_at.clone(),
        }
    }
}

/// A user of a tenant; ids are UUIDs as 128-bit integers.
#[derive(Debug, Clone)]
pub struct User {
    pub id: u128,
    pub tenant_id: u128,
    pub username: String,
    pub name: String,
    pub role: UserRole,
    pub password_hash: String,
}

/// A tenant: one business using the service.
#[derive(Debug, Clone)]
pub struct Tenant {
    pub id: u128,
    pub code: String,
    pub name: String,
}

/// The SHA-256 digest of `data`, as `sha2` computes it.
pub uninterp spec fn sha256_spec(data: Seq<u8>) -> Seq<u8>;

/// `Sha256::digest` from `sha2`: the contract names the digest `sha256_spec(data)` and
/// states its length of 32 bytes; the digest's bytes themselves are not stated.
#[verifier::external_body]
fn sha256_digest(data: &[u8]) -> (d: Vec<u8>)
    ensures
        d@ == sha256_spec(data@),
        d@.len() == 32,
{
    Sha256::digest(data).to_vec()
}

/// The lower-case hexadecimal digit of value `d` (below 16).
pub open spec fn hex_digit_spec(d: int) -> char {
    if d < 10 {
        (('0' as int) + d) as char
    } else {
        (('a' as int) + d - 10) as char
    }
}

/// `bytes` as lower-case hexadecimal text, two digits per byte, high half first, as the
/// `{:x}` format writes a digest.
pub open spec fn lower_hex_spec(bytes: Seq<u8>) -> Seq<char>
    decreases bytes.len(),
{
    if bytes.len() == 0 {
        Seq::empty()
    } else {
        lower_hex_spec(bytes.drop_last()).push(hex_digit_spec(bytes.last() as int / 16)).push(
            hex_digit_spec(bytes.last() as int % 16),
        )
    }
}

fn hex_digit(d: u8) -> (c: &'static str)
    requires
        d < 16,
    ensures
        c@ == seq![hex_digit_spec(d as int)],
{
    proof {
        reveal_strlit("0");
        reveal_strlit("1");
        reveal_strlit("2");
        reveal_strlit("3");
        reveal_strlit("4");
        reveal_strlit("5");
        reveal_strlit("6");
        reveal_strlit("7");
        reveal_strlit("8");
        reveal_strlit("9");
        reveal_strlit("a");
        reveal_strlit("b");
        reveal_strlit("c");
        reveal_strlit("d");
        reveal_strlit("e");
        reveal_strlit("f");
    }
    match d {
        0 => "0",
        1 => "1",
        2 => "2",
        3 => "3",
        4 => "4",
        5 => "5",
        6 => "6",
        7 => "7",
        8 => "8",
        9 => "9",
        10 => "a",
        11 => "b",
        12 => "c",
        13 => "d",
        14 => "e",
        _ => "f",
    }
}

/// `bytes` as lower-case hexadecimal text.
pub fn lower_hex(bytes: &Vec<u8>) -> (s: String)
    ensures
        s@ == lower_hex_spec(bytes@),
{
    let mut s = String::new();
    let mut i: usize = 0;
    while i < bytes.len()
        invariant
            i <= bytes@.len(),
            s@ == lower_hex_spec(bytes@.subrange(0, i as int)),
        decreases bytes@.len() - i,
    {
        let b = bytes[i];
        proof {
            assert(bytes@.subrange(0, i + 1).drop_last() =~= bytes@.subrange(0, i as int));
        }
        s.append(hex_digit(b / 16));
        s.append(hex_digit(b % 16));
        i = i + 1;
    }
    proof {
        assert(bytes@.subrange(0, bytes@.len() as int) =~= bytes@);
    }
    s
}

/// The stored hash of password `raw`: its SHA-256 digest in lower-case hexadecimal.
pub fn hash_password(raw: &str) -> (h: String)
    ensures
        h@ == lower_hex_spec(sha256_spec(raw.spec_bytes())),
{
    let d = sha256_digest(raw.as_bytes());
    lower_hex(&d)
}

/// `serde_json::Value`, carried through as it is: the library does not look inside it.
#[verifier::external_type_specification]
#[verifier::external_body]
pub struct ExJsonValue(serde_json::Value);

/// The current time as RFC 3339 text, by `chrono::Utc::now().to_rfc3339()`. Nothing is
/// stated of the text: it depends on the clock.
#[verifier::external_body]
fn now_rfc3339() -> (s: String)
{
    Utc::now().to_rfc3339()
}

/// A stored stock-log entry: one movement of one product's stock, with the product's state
/// after it, who made it and when.
#[derive(Debug, Clone)]
pub struct StockLog {
    pub id: i64,
    pub tenant_id: u128,
    pub product_id: i64,
    pub biz_type: String,
    pub biz_no: String,
    pub delta_qty: i32,
    pub snapshot_stock: i32,
    pub snapshot_cost: Money,
    pub snapshot_sell_price: Option<Money>,
    pub snapshot_inbound_unit_cost: Option<Money>,
    pub operator_id: u128,
    pub created_at: String,
}

impl StockLog {
    /// The entry with the given fields, stamped with the current time.
    pub fn now(
        id: i64,
        tenant_id: u128,
        product_id: i64,
        biz_type: &str,
        biz_no: &str,
        delta_qty: i32,
        snapshot_stock: i32,
        snapshot_cost: Money,
        snapshot_sell_price: Option<Money>,
        snapshot_inbound_unit_cost: Option<Money>,
        operator_id: u128,
    ) -> (l: StockLog)
        ensures
            l.id == id,
            l.tenant_id == tenant_id,
            l.product_id == product_id,
            l.biz_type@ == biz_type@,
            l.biz_no@ == biz_no@,
            l.delta_qty == delta_qty,
            l.snapshot_stock == snapshot_stock,
            l.snapshot_cost == snapshot_cost,
            l.snapshot_sell_price == snapshot_sell_price,
            l.snapshot_inbound_unit_cost == snapshot_inbound_unit_cost,
            l.operator_id == operator_id,
    {
        StockLog {
            id,
            tenant_id,
            product_id,
            biz_type: String::from_str(biz_type),
            biz_no: String::from_str(biz_no),
            delta_qty,
            snapshot_stock,
            snapshot_cost,
            snapshot_sell_price,
            snapshot_inbound_unit_cost,
            operator_id,
            created_at: now_rfc3339(),
        }
    }
}

/// A stored audit entry: who did what to which target, the target before and after as JSON,
/// the request it came with and when.
#[derive(Debug)]
pub struct AuditLog {
    pub id: i64,
    pub tenant_id: u128,
    pub operator_id: u128,
    pub action: String,
    pub target_type: String,
    pub target_id: String,
    pub before_data: serde_json::Value,
    pub after_data: serde_json::Value,
    pub request_id: String,
    pub created_at: String,
}

impl AuditLog {
    /// The entry with the given fields, stamped with the current time.
    pub fn now(
        id: i64,
        tenant_id: u128,
        operator_id: u128,
        action: &str,
        target_type: &str,
        target_id: &str,
        before_data: serde_json::Value,
        after_data: serde_json::Value,
        request_id: &str,
    ) -> (a: AuditLog)
        ensures
            a.id == id,
            a.tenant_id == tenant_id,
            a.operator_id == operator_id,
            a.action@ == action@,
            a.target_type@ == target_type@,
            a.target_id@ == target_id@,
            a.before_data == before_data,
            a.after_data == after_data,
            a.request_id@ == request_id@,
    {
        AuditLog {
            id,
            tenant_id,
            operator_id,
            action: String::from_str(action),
            target_type: String::from_str(target_type),
            target_id: String::from_str(target_id),
            before_data,
            after_data,
            request_id: String::from_str(request_id),
            created_at: now_rfc3339(),
        }
    }
}

} // verus!
