use jxc_server::config::{AppConfig, ConfigVars, StorageBackend};
use jxc_server::error::{AppError, ErrorData};
use jxc_server::extractors::{map_json_rejection, AppJson};
use jxc_server::middleware::{auth_context, check_access_token, extract_bearer_token, find_user, JwtClaims};
use jxc_server::models::{hash_password, lower_hex, User, UserRole};
use jxc_server::response::{
    build_response_headers, error_response, generate_request_id, resolve_request_id, ApiResponse, HeaderText,
    X_IDEMPOTENT_REPLAY_HEADER, X_REQUEST_ID_HEADER,
};
use jxc_server::serials::{plan_serial_inbound, plan_serial_outbound, SerialState};
use jxc_server::standalone::{
    default_admin, get_server_port, local_tenant, start_result_code, ServerPort, StartOutcome, LOCAL_TENANT_ID,
};

fn looks_generated(id: &str) -> bool {
    id.len() == 36
        && id.starts_with("req_")
        && id[4..].chars().all(|c| c.is_ascii_digit() || ('a'..='f').contains(&c))
}

fn user(id: u128, tenant_id: u128, role: UserRole) -> User {
    User {
        id,
        tenant_id,
        username: format!("u{id}"),
        name: "用户".to_string(),
        role,
        password_hash: hash_password("pw"),
    }
}

#[test]
fn password_hash_is_lowercase_hex_sha256() {
    assert_eq!(hash_password("admin123"), "240be518fabd2724ddb6f04eeb1da5967448d7e831c08c8fa822809f74c720a9");
    assert_eq!(hash_password(""), "e3b0c44298fc1c149afbf4c8996fb92427ae41e4649b934ca495991b7852b855");
    assert_eq!(lower_hex(&vec![0x00, 0x0f, 0xa0, 0xff]), "000fa0ff");
}

#[test]
fn generated_request_ids_are_fresh() {
    let a = generate_request_id();
    let b = generate_request_id();
    assert!(looks_generated(&a) && looks_generated(&b));
    assert_ne!(a, b);
}

#[test]
fn request_id_comes_from_the_header_when_it_says_something() {
    assert_eq!(resolve_request_id(&HeaderText::Text("  req-123 ".to_string())), "req-123");
    assert!(looks_generated(&resolve_request_id(&HeaderText::Text("   ".to_string()))));
    assert!(looks_generated(&resolve_request_id(&HeaderText::Missing)));
    assert!(looks_generated(&resolve_request_id(&HeaderText::NotVisibleAscii)));
}

#[test]
fn response_headers_carry_request_id_and_replay_mark() {
    assert_eq!(X_REQUEST_ID_HEADER, "x-request-id");
    assert_eq!(X_IDEMPOTENT_REPLAY_HEADER, "x-idempotent-replay");
    assert_eq!(build_response_headers("r1", false), vec![("x-request-id".to_string(), "r1".to_string())]);
    assert_eq!(
        build_response_headers("r1", true),
        vec![
            ("x-request-id".to_string(), "r1".to_string()),
            ("x-idempotent-replay".to_string(), "true".to_string())
        ]
    );
    assert_eq!(
        build_response_headers("bad\nid", true),
        vec![("x-idempotent-replay".to_string(), "true".to_string())]
    );
    assert_eq!(build_response_headers("编号\t1", false).len(), 1);
}

#[test]
fn answers_carry_code_message_data_and_request_id() {
    let ok = ApiResponse::success(7u32, "r9".to_string());
    assert_eq!((ok.code, ok.message.as_str(), ok.data, ok.request_id.as_str()), (200, "success", 7, "r9"));
    let err = ApiResponse::business_error(4090, "m".to_string(), ErrorData::Empty, "r8".to_string());
    assert_eq!((err.code, err.message.as_str(), err.request_id.as_str()), (4090, "m", "r8"));
}

#[test]
fn error_answers_keep_their_request_id_or_get_one() {
    let e = AppError::not_found("商品不存在".to_string()).with_request_id("req-7".to_string());
    let r = error_response(e);
    assert_eq!(r.status, 404);
    assert_eq!(r.body.code, 4040);
    assert_eq!(r.body.message, "商品不存在");
    assert_eq!(r.body.request_id, "req-7");
    assert_eq!(r.headers, vec![("x-request-id".to_string(), "req-7".to_string())]);
    let r = error_response(AppError::internal("boom".to_string()));
    assert_eq!((r.status, r.body.code), (500, 5000));
    assert!(looks_generated(&r.body.request_id));
    assert_eq!(r.headers[0].1, r.body.request_id);
}

#[test]
fn app_error_constructors() {
    let cases = [
        (AppError::unauthorized("a".to_string()), 401, 4010),
        (AppError::forbidden("a".to_string()), 403, 4030),
        (AppError::bad_request("a".to_string()), 400, 4000),
        (AppError::not_found("a".to_string()), 404, 4040),
        (AppError::conflict(4092, "a".to_string()), 409, 4092),
        (AppError::internal("a".to_string()), 500, 5000),
        (AppError::business(422, 4220, "a".to_string()), 422, 4220),
    ];
    for (e, status, code) in cases {
        assert_eq!((e.status, e.code), (status, code));
        assert!(matches!(e.data, ErrorData::Empty));
        assert!(e.request_id.is_none());
    }
    let e = AppError::bad_request("x".to_string()).with_data(ErrorData::ProductId { product_id: 3 });
    assert!(matches!(e.data, ErrorData::ProductId { product_id: 3 }));
}

#[test]
fn unreadable_json_bodies_are_bad_requests() {
    let e = map_json_rejection(415, "Expected request with `Content-Type: application/json`", "req-1");
    assert_eq!((e.status, e.code), (415, 4000));
    assert_eq!(e.message, "请求体解析失败：Expected request with `Content-Type: application/json`");
    assert_eq!(e.request_id, Some("req-1".to_string()));
    let AppJson(v) = AppJson(5);
    assert_eq!(v, 5);
}

#[test]
fn bearer_tokens() {
    assert_eq!(extract_bearer_token(&HeaderText::Text("Bearer abc.def".to_string())).unwrap(), "abc.def");
    assert_eq!(extract_bearer_token(&HeaderText::Text("Bearer ".to_string())).unwrap(), "");
    let e = extract_bearer_token(&HeaderText::Text("bearer abc".to_string())).unwrap_err();
    assert_eq!((e.status, e.code, e.message.as_str()), (401, 4010, "Authorization 格式错误"));
    let e = extract_bearer_token(&HeaderText::Missing).unwrap_err();
    assert_eq!(e.message, "缺少 Authorization");
    let e = extract_bearer_token(&HeaderText::NotVisibleAscii).unwrap_err();
    assert_eq!(e.message, "Authorization 非法");
}

#[test]
fn issued_claims_name_the_user() {
    let user_id: u128 = 0xa1a2a3a4_b1b2_c1c2_d1d2_d3d4d5d6d7d8;
    let c = JwtClaims::issue(7, user_id, "OWNER", "access", 7200).unwrap();
    assert_eq!(c.sub, "a1a2a3a4-b1b2-c1c2-d1d2-d3d4d5d6d7d8");
    assert_eq!((c.tenant_id, c.user_id), (7, user_id));
    assert_eq!((c.role.as_str(), c.token_type.as_str()), ("OWNER", "access"));
    assert!(c.exp > 1_600_000_000);
    let r = JwtClaims::issue(7, 1, "SALES", "refresh", 604800).unwrap();
    assert_eq!(r.sub, "00000000-0000-0000-0000-000000000001");
    assert!(r.exp > c.exp);
    assert!(JwtClaims::issue(7, 1, "SALES", "access", i64::MAX).is_none());
}

#[test]
fn only_access_tokens_authenticate_requests() {
    let mut c = JwtClaims::issue(7, 1, "OWNER", "access", 60).unwrap();
    let rid = "req-5".to_string();
    assert!(check_access_token(&c, &rid).is_ok());
    c.token_type = "refresh".to_string();
    let e = check_access_token(&c, &rid).unwrap_err();
    assert_eq!((e.status, e.code, e.message.as_str()), (401, 4010, "token_type 非 access"));
    assert_eq!(e.request_id, Some(rid));
}

#[test]
fn request_acts_for_the_user_its_token_names() {
    let users = vec![user(1, 10, UserRole::Sales), user(2, 10, UserRole::Owner), user(2, 11, UserRole::Purchaser)];
    assert_eq!(find_user(&users, 10, 2), Some(1));
    assert_eq!(find_user(&users, 11, 2), Some(2));
    assert_eq!(find_user(&users, 12, 2), None);
    let rid = "req-6".to_string();
    let ctx = auth_context(Some(&users[1]), &rid).unwrap();
    assert_eq!((ctx.tenant_id, ctx.user_id, ctx.role.as_str()), (10, 2, "OWNER"));
    let e = auth_context(None, &rid).unwrap_err();
    assert_eq!((e.status, e.code, e.message.as_str()), (401, 4010, "用户不存在或无效"));
    assert_eq!(e.request_id, Some(rid));
}

#[test]
fn roles_and_ranks() {
    assert_eq!(UserRole::Owner.rank(), 100);
    assert_eq!(UserRole::Admin.rank(), 50);
    assert_eq!(UserRole::Purchaser.rank(), 10);
    assert_eq!(UserRole::Sales.rank(), 10);
    assert_eq!(UserRole::Purchaser.as_str(), "PURCHASER");
}

#[test]
fn standalone_mode_setup() {
    let t = local_tenant();
    assert_eq!((t.id, t.code.as_str(), t.name.as_str()), (1, "local", "本地企业"));
    assert_eq!(LOCAL_TENANT_ID, 1);
    let a = default_admin(LOCAL_TENANT_ID);
    let b = default_admin(LOCAL_TENANT_ID);
    assert_eq!((a.username.as_str(), a.name.as_str(), a.role), ("admin", "管理员", UserRole::Admin));
    assert_eq!(a.password_hash, hash_password("admin123"));
    assert_ne!(a.id, b.id);
    let base = AppConfig::from_vars(&ConfigVars {
        app_host: None,
        app_port: Some("9999".to_string()),
        jwt_secret: Some("s".to_string()),
        jwt_access_expires: None,
        jwt_refresh_expires: None,
        allow_negative_stock: Some("true".to_string()),
        storage_backend: None,
        database_url: Some("postgres://db".to_string()),
        sqlite_path: None,
        redis_url: Some("redis://r".to_string()),
        pg_max_connections: None,
        barcode_lookup_api_url: None,
        barcode_lookup_api_key: None,
        barcode_lookup_timeout_ms: None,
        barcode_lookup_found_ttl_secs: None,
        barcode_lookup_not_found_ttl_secs: None,
    });
    let c = base.standalone("/app/data");
    assert_eq!(c.storage_backend, StorageBackend::Sqlite);
    assert_eq!(c.sqlite_path, "/app/data/jxc.db");
    assert_eq!((c.host.as_str(), c.port), ("127.0.0.1", 0));
    assert_eq!((c.redis_url, c.database_url), (None, None));
    assert_eq!(c.jwt_secret, "s");
    assert!(c.allow_negative_stock);
    assert_eq!(start_result_code(StartOutcome::Listening(43_210)), 43_210);
    assert_eq!(start_result_code(StartOutcome::Failed), -1);
    assert_eq!(start_result_code(StartOutcome::TimedOut), -2);
    assert_eq!(get_server_port(&ServerPort(Some(5173))), Ok(5173));
    assert_eq!(get_server_port(&ServerPort(None)), Err("server not yet started".to_string()));
}

#[test]
fn serial_inbound() {
    let sns = vec!["SN1".to_string(), "SN2".to_string(), "SN3".to_string()];
    assert_eq!(plan_serial_inbound(&sns, &vec![false, false, false]).unwrap(), 3);
    let e = plan_serial_inbound(&sns, &vec![false, true, true]).unwrap_err();
    assert_eq!((e.status, e.code), (409, 4093));
    assert_eq!(e.message, "序列号「SN2」已在库，不能重复入库");
    let e = plan_serial_inbound(&vec![], &vec![]).unwrap_err();
    assert_eq!((e.status, e.code, e.message.as_str()), (400, 4000, "序列号列表不能为空"));
}

#[test]
fn serial_outbound() {
    let state = |status: &str, product_id: i64| Some(SerialState { status: status.to_string(), product_id });
    let sns = vec!["A".to_string(), "B".to_string(), "C".to_string()];
    let d = plan_serial_outbound(&sns, &vec![state("IN_STOCK", 7), state("IN_STOCK", 8), state("IN_STOCK", 7)]).unwrap();
    assert_eq!(d, vec![(7, 2), (8, 1)]);
    let e = plan_serial_outbound(&sns, &vec![state("IN_STOCK", 7), None, state("IN_STOCK", 7)]).unwrap_err();
    assert_eq!((e.status, e.code, e.message.as_str()), (404, 4040, "序列号「B」不存在"));
    let e = plan_serial_outbound(&sns, &vec![state("IN_STOCK", 7), state("SOLD", 8), None]).unwrap_err();
    assert_eq!((e.status, e.code, e.message.as_str()), (409, 4094, "序列号「B」状态为 SOLD，不能出库"));
    let twice = vec!["A".to_string(), "A".to_string()];
    let e = plan_serial_outbound(&twice, &vec![state("IN_STOCK", 7), state("IN_STOCK", 7)]).unwrap_err();
    assert_eq!(e.message, "序列号「A」状态为 SOLD，不能出库");
    let e = plan_serial_outbound(&vec![], &vec![]).unwrap_err();
    assert_eq!(e.message, "序列号列表不能为空");
}

#[test]
fn claims_with_expiry_carry_the_given_expiry() {
    let c = JwtClaims::with_expiry(7, 0x0123_4567_89ab_cdef_0123_4567_89ab_cdef, "OWNER", "refresh", 1_700_000_000);
    assert_eq!(c.sub, "01234567-89ab-cdef-0123-456789abcdef");
    assert_eq!(c.tenant_id, 7);
    assert_eq!(c.user_id, 0x0123_4567_89ab_cdef_0123_4567_89ab_cdef);
    assert_eq!(c.role, "OWNER");
    assert_eq!(c.exp, 1_700_000_000);
    assert_eq!(c.token_type, "refresh");
}
