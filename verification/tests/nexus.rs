use whoah::config::{NexusConfig, QuotaConfig};
use whoah::nexus::{
    auth_failure_message, check_ip_pool, check_quotas, create_ip_pool_requests, ip_pool_status,
    ip_pools_path, login_command, needs_reauth, parse_response, pool_step_ok, quota_status,
    quotas_body, quotas_path, request_command, request_failure, session_token, ApiResponse,
    CheckError, IpPoolStatus, QuotaStatus,
};

fn resp(status: u16, body: &str) -> ApiResponse {
    ApiResponse { status, body: body.to_string() }
}

#[test]
fn response_status_range() {
    assert!(resp(200, "").is_ok());
    assert!(resp(299, "").is_ok());
    assert!(!resp(300, "").is_ok());
    assert!(!resp(199, "").is_ok());
    assert!(needs_reauth(&resp(401, "")));
    assert!(pool_step_ok(&resp(409, "")));
    assert!(!pool_step_ok(&resp(500, "")));
}

#[test]
fn login_and_token() {
    let c = NexusConfig::default();
    assert_eq!(
        login_command("10.0.0.3", &c),
        "curl -sf -X POST http://10.0.0.3/v1/login/recovery/local -H 'Content-Type: application/json' -d '{\"username\":\"recovery\",\"password\":\"oxide\"}' -D - 2>/dev/null"
    );
    let out = "HTTP/1.1 204 No Content\r\nSet-Cookie: session=abc123; Path=/; HttpOnly\r\n\r\n";
    assert_eq!(session_token(out).as_deref(), Some("abc123"));
    assert_eq!(session_token("set-cookie: session=xyz\n").as_deref(), Some("xyz"));
    assert_eq!(session_token("HTTP/1.1 401\n"), None);
    assert_eq!(auth_failure_message(22), "Nexus auth failed: no session cookie in response (exit 22)");
}

#[test]
fn request_command_forms() {
    assert_eq!(
        request_command("10.0.0.3", "GET", "v1/ip-pools?limit=50", "tok", None),
        "curl -s -o /dev/stdout -w '\\n%{http_code}' -X GET -H 'Cookie: session=tok'  http://10.0.0.3/v1/ip-pools?limit=50 2>/dev/null"
    );
    let put = request_command("h", "PUT", "p", "t", Some("{}"));
    assert!(put.contains("-d '{}' -H 'Content-Type: application/json' http://h/p"));
}

#[test]
fn responses_read_from_output() {
    let r = parse_response("{\"a\":1}\n{\"b\":2}\n200\n");
    assert_eq!(r.status, 200);
    assert_eq!(r.body, "{\"a\":1}\n{\"b\":2}");
    let only = parse_response("\n404\n");
    assert_eq!((only.status, only.body.as_str()), (404, ""));
    let text = parse_response("oops");
    assert_eq!((text.status, text.body.as_str()), (0, "oops"));
    let empty = parse_response("");
    assert_eq!((empty.status, empty.body.as_str()), (0, ""));
}

#[test]
fn quota_states() {
    let q = QuotaConfig { cpus: 10, memory: 20, storage: 30 };
    assert!(matches!(quota_status(0, 0, 0, &q), QuotaStatus::ZeroQuotas));
    assert!(matches!(quota_status(10, 20, 30, &q), QuotaStatus::InSync { cpus: 10, memory: 20, storage: 30 }));
    assert!(matches!(quota_status(10, 21, 30, &q), QuotaStatus::Mismatch { current_memory: 21, expected_memory: 20, .. }));
}

#[test]
fn quota_check_from_response() {
    let mut c = NexusConfig::default();
    c.quotas = QuotaConfig { cpus: 10, memory: 20, storage: 30 };
    let ok = check_quotas(&resp(200, "{\"cpus\":10,\"memory\":20,\"storage\":30}"), &c).unwrap();
    assert!(matches!(ok, QuotaStatus::InSync { .. }));
    let zero = check_quotas(&resp(200, "{}"), &c).unwrap();
    assert!(matches!(zero, QuotaStatus::ZeroQuotas));
    match check_quotas(&resp(403, ""), &c) {
        Err(CheckError::AuthFailed(m)) => assert_eq!(m, "HTTP 403"),
        _ => panic!("expected an auth failure"),
    }
    assert!(matches!(check_quotas(&resp(500, ""), &c), Err(CheckError::Unreachable)));
    assert!(matches!(check_quotas(&resp(200, "not json"), &c), Err(CheckError::ParseError(_))));
    assert_eq!(quotas_path("recovery"), "v1/system/silos/recovery/quotas");
}

#[test]
fn ip_pool_check_from_response() {
    let c = NexusConfig::default();
    let found = check_ip_pool(&resp(200, "{\"items\":[{\"name\":\"other\"},{\"name\":\"default\"}]}"), &c).unwrap();
    match found {
        IpPoolStatus::Present { name } => assert_eq!(name, "default"),
        IpPoolStatus::Missing => panic!("expected the pool"),
    }
    assert!(matches!(check_ip_pool(&resp(200, "{\"items\":[]}"), &c).unwrap(), IpPoolStatus::Missing));
    assert!(matches!(check_ip_pool(&resp(200, "{}"), &c).unwrap(), IpPoolStatus::Missing));
    assert!(matches!(check_ip_pool(&resp(401, ""), &c), Err(CheckError::AuthFailed(_))));
    assert!(matches!(ip_pool_status(&vec![None, Some("x".to_string())], "x"), IpPoolStatus::Present { .. }));
    assert_eq!(ip_pools_path(), "v1/ip-pools?limit=50");
}

#[test]
fn change_requests() {
    let q = QuotaConfig { cpus: 1, memory: 2, storage: 3 };
    assert_eq!(quotas_body(&q), "{\"cpus\":1,\"memory\":2,\"storage\":3}");
    let reqs = create_ip_pool_requests(&NexusConfig::default(), "10.0.0.51", "10.0.0.60");
    assert_eq!(reqs.len(), 3);
    assert_eq!(reqs[0].path, "v1/ip-pools");
    assert_eq!(reqs[1].path, "v1/system/ip-pools/default/silos");
    assert_eq!(reqs[1].body, "{\"silo\":\"recovery\",\"is_default\":true}");
    assert_eq!(reqs[2].body, "{\"first\":\"10.0.0.51\",\"last\":\"10.0.0.60\"}");
    assert_eq!(request_failure("Failed to set quotas", &resp(500, "boom")), "Failed to set quotas (HTTP 500): boom");
    assert_eq!(CheckError::Unreachable.to_text(), "unreachable");
    assert_eq!(CheckError::ParseError("x".to_string()).to_text(), "parse error: x");
}
