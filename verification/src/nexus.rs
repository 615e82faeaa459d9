//! Talking to the control plane's API (Nexus) through `curl` on the host:
//! the login and request commands, how their output reads, and the checks
//! and changes of silo quotas and the IP pool.
//!
//! The caller runs the commands; on a 401 it logs in again and retries once.
use vstd::prelude::*;
use crate::config::{NexusConfig, QuotaConfig};
use crate::parse::network::strings_view;
use crate::text::{decimal, join, join_exec, lines, lines_exec, opt_view, parse_unsigned, parse_unsigned_exec, push_str, push_u64, split_char, split_char_exec, str_eq, string_from, string_of, strip_prefix, strip_prefix_str, to_chars, trim, trim_chars, views};

verus! {

/// What an API request gave back.
#[derive(Debug)]
pub struct ApiResponse {
    /// The HTTP status, 0 when none could be read.
    pub status: u16,
    pub body: String,
}

impl ApiResponse {
    /// A 2xx status.
    pub fn is_ok(&self) -> (r: bool)
        ensures
            r == (200 <= self.status < 300),
    {
        200 <= self.status && self.status < 300
    }
}

/// `curl` call that logs in to the silo and prints the response headers.
pub open spec fn spec_login_command(ip: Seq<char>, silo: Seq<char>, user: Seq<char>, password: Seq<char>) -> Seq<char> {
    "curl -sf -X POST http://"@ + ip + "/v1/login/"@ + silo
        + "/local -H 'Content-Type: application/json' -d '{\"username\":\""@ + user
        + "\",\"password\":\""@ + password + "\"}' -D - 2>/dev/null"@
}

/// The login command.
pub fn login_command(ip: &str, config: &NexusConfig) -> (r: String)
    ensures
        r@ == spec_login_command(ip@, config.silo_name@, config.username@, config.password@),
{
    let mut s = string_from("curl -sf -X POST http://");
    push_str(&mut s, ip);
    push_str(&mut s, "/v1/login/");
    push_str(&mut s, config.silo_name.as_str());
    push_str(&mut s, "/local -H 'Content-Type: application/json' -d '{\"username\":\"");
    push_str(&mut s, config.username.as_str());
    push_str(&mut s, "\",\"password\":\"");
    push_str(&mut s, config.password.as_str());
    push_str(&mut s, "\"}' -D - 2>/dev/null");
    s
}

/// The session token on a header line: the cookie value up to its first
/// `;`, after `set-cookie: session=` or `Set-Cookie: session=`.
pub open spec fn spec_cookie_token(line: Seq<char>) -> Option<Seq<char>> {
    match strip_prefix(line, "set-cookie: session="@) {
        Some(c) => Some(split_char(c, ';')[0]),
        None => match strip_prefix(line, "Set-Cookie: session="@) {
            Some(c) => Some(split_char(c, ';')[0]),
            None => None,
        },
    }
}

/// The first session token in the login output.
pub open spec fn spec_first_token(ls: Seq<Seq<char>>) -> Option<Seq<char>>
    decreases ls.len(),
{
    if ls.len() == 0 {
        None
    } else {
        match spec_cookie_token(ls[0]) {
            Some(t) => Some(t),
            None => spec_first_token(ls.drop_first()),
        }
    }
}

fn cookie_token(line: &[char]) -> (r: Option<String>)
    ensures
        opt_view(r) == spec_cookie_token(line@),
{
    let c = match strip_prefix_str(line, "set-cookie: session=") {
        Some(c) => c,
        None => match strip_prefix_str(line, "Set-Cookie: session=") {
            Some(c) => c,
            None => {
                return None;
            },
        },
    };
    let parts = split_char_exec(c, ';');
    assert(views(parts@)[0] == parts@[0]@);
    Some(string_of(parts[0]))
}

/// The session token in the login output, if the login succeeded.
pub fn session_token(stdout: &str) -> (r: Option<String>)
    ensures
        opt_view(r) == spec_first_token(lines(stdout@)),
{
    let v = to_chars(stdout);
    let ls = lines_exec(v.as_slice());
    let ghost lv = views(ls@);
    let mut i: usize = 0;
    assert(lv.skip(0) =~= lv);
    while i < ls.len()
        invariant
            i <= ls@.len(),
            lv == views(ls@),
            lv == lines(stdout@),
            spec_first_token(lv) == spec_first_token(lv.skip(i as int)),
        decreases ls@.len() - i,
    {
        assert(lv.skip(i as int)[0] == ls@[i as int]@);
        assert(lv.skip(i as int).drop_first() =~= lv.skip(i + 1));
        match cookie_token(ls[i]) {
            Some(t) => {
                return Some(t);
            },
            None => {},
        }
        i = i + 1;
    }
    assert(lv.skip(i as int) =~= Seq::<Seq<char>>::empty());
    None
}

/// The error when the login output holds no session.
pub fn auth_failure_message(exit_code: i32) -> (r: String)
    ensures
        r@ == "Nexus auth failed: no session cookie in response (exit "@ + crate::text::signed_decimal(
            exit_code as int,
        ) + ")"@,
{
    let mut s = string_from("Nexus auth failed: no session cookie in response (exit ");
    crate::text::push_i64(&mut s, exit_code as i64);
    push_str(&mut s, ")");
    s
}

/// `curl` call for an API request; the status code is printed on a line
/// of its own after the body.
pub open spec fn spec_request_command(ip: Seq<char>, method: Seq<char>, path: Seq<char>, token: Seq<char>, body: Option<Seq<char>>) -> Seq<char> {
    "curl -s -o /dev/stdout -w '\\n%{http_code}' -X "@ + method + " -H 'Cookie: session="@ + token
        + "' "@ + (match body {
        Some(b) => "-d '"@ + b + "' -H 'Content-Type: application/json'"@,
        None => seq![],
    }) + " http://"@ + ip + "/"@ + path + " 2>/dev/null"@
}

/// The request command.
pub fn request_command(ip: &str, method: &str, path: &str, token: &str, body: Option<&str>) -> (r: String)
    ensures
        r@ == spec_request_command(
            ip@,
            method@,
            path@,
            token@,
            match body {
                Some(b) => Some(b@),
                None => None,
            },
        ),
{
    let mut s = string_from("curl -s -o /dev/stdout -w '\\n%{http_code}' -X ");
    push_str(&mut s, method);
    push_str(&mut s, " -H 'Cookie: session=");
    push_str(&mut s, token);
    push_str(&mut s, "' ");
    match body {
        Some(b) => {
            push_str(&mut s, "-d '");
            push_str(&mut s, b);
            push_str(&mut s, "' -H 'Content-Type: application/json'");
        },
        None => {
            assert(s@ + Seq::<char>::empty() =~= s@);
        },
    }
    push_str(&mut s, " http://");
    push_str(&mut s, ip);
    push_str(&mut s, "/");
    push_str(&mut s, path);
    push_str(&mut s, " 2>/dev/null");
    s
}

/// A status code on a line: its number, 0 when it does not read as one.
pub open spec fn spec_status_code(line: Seq<char>) -> u16 {
    match parse_unsigned(line, 65535) {
        Some(v) => v as u16,
        None => 0,
    }
}

/// The response in a request's output: the last line of the trimmed
/// output is the status and the lines before it the body; a single line is
/// a status when it reads as a non-zero one, else a body.
pub open spec fn spec_response(stdout: Seq<char>) -> (Seq<char>, u16) {
    let ls = lines(trim(stdout));
    if ls.len() >= 2 {
        (join(ls.drop_last(), "\n"@), spec_status_code(ls.last()))
    } else if ls.len() == 1 {
        if spec_status_code(ls[0]) > 0 {
            (seq![], spec_status_code(ls[0]))
        } else {
            (ls[0], 0)
        }
    } else {
        (seq![], 0)
    }
}

fn status_code(line: &[char]) -> (r: u16)
    ensures
        r == spec_status_code(line@),
{
    match parse_unsigned_exec(line, 65535) {
        Some(v) => v as u16,
        None => 0,
    }
}

/// Read a request's output.
pub fn parse_response(stdout: &str) -> (r: ApiResponse)
    ensures
        (r.body@, r.status) == spec_response(stdout@),
{
    let v = to_chars(stdout);
    let t = trim_chars(v.as_slice());
    let ls = lines_exec(t);
    let ghost lv = views(ls@);
    let n = ls.len();
    if n >= 2 {
        let mut body_lines: Vec<String> = Vec::new();
        let mut i: usize = 0;
        while i + 1 < n
            invariant
                n == ls@.len(),
                n >= 2,
                i + 1 <= n,
                lv == views(ls@),
                body_lines@.len() == i,
                strings_view(body_lines@) == lv.take(i as int),
            decreases n - i,
        {
            assert(lv[i as int] == ls@[i as int]@);
            let ghost before = body_lines@;
            body_lines.push(string_of(ls[i]));
            assert(body_lines@ == before.push(body_lines@[i as int]));
            assert(strings_view(body_lines@) =~= lv.take(i + 1));
            i = i + 1;
        }
        assert(lv.take(i as int) =~= lv.drop_last());
        let body = join_exec(&body_lines, "\n");
        assert(lv.last() == ls@[n - 1]@);
        let status = status_code(ls[n - 1]);
        ApiResponse { status, body }
    } else if n == 1 {
        assert(lv[0] == ls@[0]@);
        let s = status_code(ls[0]);
        if s > 0 {
            ApiResponse { status: s, body: String::new() }
        } else {
            ApiResponse { status: 0, body: string_of(ls[0]) }
        }
    } else {
        ApiResponse { status: 0, body: String::new() }
    }
}

/// Log in again and retry once: the request was refused as unauthorized.
pub fn needs_reauth(r: &ApiResponse) -> (b: bool)
    ensures
        b == (r.status == 401),
{
    r.status == 401
}

/// Why a check could not tell the state.
#[derive(Debug, Clone)]
pub enum CheckError {
    AuthFailed(String),
    Unreachable,
    ParseError(String),
}

impl CheckError {
    /// How the error reads.
    pub fn to_text(&self) -> (r: String)
        ensures
            r@ == match self {
                CheckError::AuthFailed(e) => "auth failed: "@ + e@,
                CheckError::Unreachable => "unreachable"@,
                CheckError::ParseError(e) => "parse error: "@ + e@,
            },
    {
        match self {
            CheckError::AuthFailed(e) => {
                let mut s = string_from("auth failed: ");
                push_str(&mut s, e.as_str());
                s
            },
            CheckError::Unreachable => string_from("unreachable"),
            CheckError::ParseError(e) => {
                let mut s = string_from("parse error: ");
                push_str(&mut s, e.as_str());
                s
            },
        }
    }
}

/// The silo quotas against what the configuration asks.
#[derive(Debug, Clone)]
pub enum QuotaStatus {
    /// As configured (`Ok` in the operator's words).
    InSync { cpus: u64, memory: u64, storage: u64 },
    /// All zero: never set.
    ZeroQuotas,
    Mismatch {
        current_cpus: u64,
        current_memory: u64,
        current_storage: u64,
        expected_cpus: u64,
        expected_memory: u64,
        expected_storage: u64,
    },
}

/// Whether the configured IP pool exists.
#[derive(Debug, Clone)]
pub enum IpPoolStatus {
    /// It exists (`Ok` in the operator's words).
    Present { name: String },
    Missing,
}

/// The error for a response that is not 2xx: 401 and 403 are refused
/// logins, anything else means the API could not be reached.
pub open spec fn spec_response_error(status: u16) -> Option<Seq<char>> {
    if status == 401 || status == 403 {
        Some("HTTP "@ + decimal(status as nat))
    } else {
        None
    }
}

fn response_error(status: u16) -> (r: CheckError)
    ensures
        match spec_response_error(status) {
            Some(m) => r matches CheckError::AuthFailed(e) && e@ == m,
            None => r is Unreachable,
        },
{
    if status == 401 || status == 403 {
        let mut s = string_from("HTTP ");
        push_u64(&mut s, status as u64);
        CheckError::AuthFailed(s)
    } else {
        CheckError::Unreachable
    }
}

/// The quota state from the values read: all zero, different from the
/// configuration, or as configured.
pub open spec fn spec_quota_status(cpus: u64, memory: u64, storage: u64, q: QuotaConfig) -> QuotaStatus {
    if cpus == 0 && memory == 0 && storage == 0 {
        QuotaStatus::ZeroQuotas
    } else if cpus != q.cpus || memory != q.memory || storage != q.storage {
        QuotaStatus::Mismatch {
            current_cpus: cpus,
            current_memory: memory,
            current_storage: storage,
            expected_cpus: q.cpus,
            expected_memory: q.memory,
            expected_storage: q.storage,
        }
    } else {
        QuotaStatus::InSync { cpus, memory, storage }
    }
}

/// What the quotas read from Nexus are judged to be: all three zero means
/// none were set; otherwise they are in sync exactly when the CPUs, memory
/// and storage each equal the configured value, and in sync they carry the
/// values read; a mismatch carries the values read and the configured ones.
pub proof fn law_quota_verdict(cpus: u64, memory: u64, storage: u64, q: QuotaConfig)
    ensures
        (spec_quota_status(cpus, memory, storage, q) is ZeroQuotas) == (cpus == 0 && memory == 0 && storage == 0),
        (spec_quota_status(cpus, memory, storage, q) is InSync) == (!(cpus == 0 && memory == 0 && storage == 0)
            && cpus == q.cpus && memory == q.memory && storage == q.storage),
        spec_quota_status(cpus, memory, storage, q) matches QuotaStatus::InSync { cpus: c, memory: m, storage: st }
            ==> c == cpus && m == memory && st == storage,
        spec_quota_status(cpus, memory, storage, q) matches QuotaStatus::Mismatch {
            current_cpus,
            current_memory,
            current_storage,
            expected_cpus,
            expected_memory,
            expected_storage,
        } ==> current_cpus == cpus && current_memory == memory && current_storage == storage && expected_cpus
            == q.cpus && expected_memory == q.memory && expected_storage == q.storage,
{
}

/// Compare the quotas read with the configuration.
pub fn quota_status(cpus: u64, memory: u64, storage: u64, q: &QuotaConfig) -> (r: QuotaStatus)
    ensures
        r == spec_quota_status(cpus, memory, storage, *q),
{
    if cpus == 0 && memory == 0 && storage == 0 {
        QuotaStatus::ZeroQuotas
    } else if cpus != q.cpus || memory != q.memory || storage != q.storage {
        QuotaStatus::Mismatch {
            current_cpus: cpus,
            current_memory: memory,
            current_storage: storage,
            expected_cpus: q.cpus,
            expected_memory: q.memory,
            expected_storage: q.storage,
        }
    } else {
        QuotaStatus::InSync { cpus, memory, storage }
    }
}

/// What `serde_json` reads out of a JSON text for a top-level member: its
/// value as a `u64` (`None` when the member is missing or not such a
/// number), or the parser's message when the text is not JSON.
pub uninterp spec fn json_member_u64(body: Seq<char>, key: Seq<char>) -> Result<Option<u64>, Seq<char>>;

/// `serde_json::from_str::<Value>`, then `value[key].as_u64()`; a parse
/// error becomes its message (`Display`). The contract names the outcome;
/// JSON's grammar is not restated.
#[verifier::external_body]
fn json_u64(body: &str, key: &str) -> (r: Result<Option<u64>, String>)
    ensures
        match r {
            Ok(v) => json_member_u64(body@, key@) == Ok::<Option<u64>, Seq<char>>(v),
            Err(e) => json_member_u64(body@, key@) == Err::<Option<u64>, Seq<char>>(e@),
        },
{
    match serde_json::from_str::<serde_json::Value>(body) {
        Ok(v) => Ok(v[key].as_u64()),
        Err(e) => Err(e.to_string()),
    }
}

/// A member's value, 0 when it is missing or not a `u64`.
pub open spec fn or_zero(v: Option<u64>) -> u64 {
    match v {
        Some(n) => n,
        None => 0,
    }
}

/// The path of a silo's quotas.
pub fn quotas_path(silo: &str) -> (r: String)
    ensures
        r@ == "v1/system/silos/"@ + silo@ + "/quotas"@,
{
    let mut s = string_from("v1/system/silos/");
    push_str(&mut s, silo);
    push_str(&mut s, "/quotas");
    s
}

/// Check the silo quotas from the API's answer: a refused or failed request
/// is an error; so is a body that is not JSON (with the parser's message);
/// else the `cpus`, `memory` and `storage` members (0 where missing) are
/// compared with the configuration.
pub fn check_quotas(response: &ApiResponse, config: &NexusConfig) -> (r: Result<QuotaStatus, CheckError>)
    ensures
        !(200 <= response.status < 300) ==> match spec_response_error(response.status) {
            Some(m) => r matches Err(CheckError::AuthFailed(e)) && e@ == m,
            None => r matches Err(CheckError::Unreachable),
        },
        200 <= response.status < 300 ==> match (
            json_member_u64(response.body@, "cpus"@),
            json_member_u64(response.body@, "memory"@),
            json_member_u64(response.body@, "storage"@),
        ) {
            (Ok(c), Ok(m), Ok(s)) => r == Ok::<QuotaStatus, CheckError>(
                spec_quota_status(or_zero(c), or_zero(m), or_zero(s), config.quotas),
            ),
            (Err(e), _, _) => r matches Err(CheckError::ParseError(x)) && x@ == e,
            (Ok(_), Err(e), _) => r matches Err(CheckError::ParseError(x)) && x@ == e,
            (Ok(_), Ok(_), Err(e)) => r matches Err(CheckError::ParseError(x)) && x@ == e,
        },
{
    if !response.is_ok() {
        return Err(response_error(response.status));
    }
    let body = response.body.as_str();
    let cpus = match json_u64(body, "cpus") {
        Ok(v) => v,
        Err(e) => {
            return Err(CheckError::ParseError(e));
        },
    };
    let memory = match json_u64(body, "memory") {
        Ok(v) => v,
        Err(e) => {
            return Err(CheckError::ParseError(e));
        },
    };
    let storage = match json_u64(body, "storage") {
        Ok(v) => v,
        Err(e) => {
            return Err(CheckError::ParseError(e));
        },
    };
    let c: u64 = match cpus {
        Some(n) => n,
        None => 0,
    };
    let m: u64 = match memory {
        Some(n) => n,
        None => 0,
    };
    let s: u64 = match storage {
        Some(n) => n,
        None => 0,
    };
    Ok(quota_status(c, m, s, &config.quotas))
}

/// What `serde_json` reads out of a JSON text for the `name` of each entry
/// of its `items` array: `None` when there is no such array; per entry, the
/// name when it is a string. Or the parser's message when the text is not
/// JSON.
pub uninterp spec fn json_item_names(body: Seq<char>) -> Result<Option<Seq<Option<Seq<char>>>>, Seq<char>>;

/// The names of an optional list of strings.
pub open spec fn names_view(v: Seq<Option<String>>) -> Seq<Option<Seq<char>>> {
    v.map_values(|o: Option<String>| opt_view(o))
}

/// `serde_json::from_str::<Value>`, then `value["items"].as_array()` and,
/// for each entry, `entry["name"].as_str()`. The contract names the outcome.
#[verifier::external_body]
fn json_names(body: &str) -> (r: Result<Option<Vec<Option<String>>>, String>)
    ensures
        match r {
            Ok(Some(v)) => json_item_names(body@) == Ok::<Option<Seq<Option<Seq<char>>>>, Seq<char>>(
                Some(names_view(v@)),
            ),
            Ok(None) => json_item_names(body@) == Ok::<Option<Seq<Option<Seq<char>>>>, Seq<char>>(
                None,
            ),
            Err(e) => json_item_names(body@) == Err::<Option<Seq<Option<Seq<char>>>>, Seq<char>>(
                e@,
            ),
        },
{
    match serde_json::from_str::<serde_json::Value>(body) {
        Ok(v) => Ok(v["items"].as_array().map(
            |a| a.iter().map(|p| p["name"].as_str().map(|n| n.to_string())).collect(),
        )),
        Err(e) => Err(e.to_string()),
    }
}

/// The pool state from the names listed: present when one is the
/// configured name.
pub fn ip_pool_status(names: &Vec<Option<String>>, pool: &str) -> (r: IpPoolStatus)
    ensures
        (exists|i: int| 0 <= i < names@.len() && names_view(names@)[i] == Some(pool@)) ==> (r matches IpPoolStatus::Present { name } && name@ == pool@),
        !(exists|i: int| 0 <= i < names@.len() && names_view(names@)[i] == Some(pool@)) ==> r is Missing,
{
    let mut i: usize = 0;
    while i < names.len()
        invariant
            i <= names@.len(),
            forall|j: int| 0 <= j < i ==> names_view(names@)[j] != Some(pool@),
        decreases names@.len() - i,
    {
        match &names[i] {
            Some(n) => {
                if str_eq(n.as_str(), pool) {
                    assert(names_view(names@)[i as int] == Some(pool@));
                    return IpPoolStatus::Present { name: string_from(pool) };
                }
            },
            None => {},
        }
        assert(names_view(names@)[i as int] != Some(pool@));
        i = i + 1;
    }
    IpPoolStatus::Missing
}

/// Check the IP pool from the answer to `GET v1/ip-pools?limit=50`.
pub fn check_ip_pool(response: &ApiResponse, config: &NexusConfig) -> (r: Result<IpPoolStatus, CheckError>)
    ensures
        !(200 <= response.status < 300) ==> match spec_response_error(response.status) {
            Some(m) => r matches Err(CheckError::AuthFailed(e)) && e@ == m,
            None => r matches Err(CheckError::Unreachable),
        },
        200 <= response.status < 300 ==> match json_item_names(response.body@) {
            Err(e) => r matches Err(CheckError::ParseError(x)) && x@ == e,
            Ok(None) => r matches Ok(IpPoolStatus::Missing),
            Ok(Some(ns)) => if exists|i: int| 0 <= i < ns.len() && ns[i] == Some(config.ip_pool_name@) {
                r matches Ok(IpPoolStatus::Present { name }) && name@ == config.ip_pool_name@
            } else {
                r matches Ok(IpPoolStatus::Missing)
            },
        },
{
    if !response.is_ok() {
        return Err(response_error(response.status));
    }
    match json_names(response.body.as_str()) {
        Err(e) => Err(CheckError::ParseError(e)),
        Ok(None) => Ok(IpPoolStatus::Missing),
        Ok(Some(names)) => Ok(ip_pool_status(&names, config.ip_pool_name.as_str())),
    }
}

/// The pools query.
pub fn ip_pools_path() -> (r: &'static str)
    ensures
        r@ == "v1/ip-pools?limit=50"@,
{
    "v1/ip-pools?limit=50"
}

/// The body that sets the configured quotas.
pub fn quotas_body(q: &QuotaConfig) -> (r: String)
    ensures
        r@ == "{\"cpus\":"@ + decimal(q.cpus as nat) + ",\"memory\":"@ + decimal(q.memory as nat)
            + ",\"storage\":"@ + decimal(q.storage as nat) + "}"@,
{
    let mut s = string_from("{\"cpus\":");
    push_u64(&mut s, q.cpus);
    push_str(&mut s, ",\"memory\":");
    push_u64(&mut s, q.memory);
    push_str(&mut s, ",\"storage\":");
    push_u64(&mut s, q.storage);
    push_str(&mut s, "}");
    s
}

/// `<what> (HTTP <status>): <body>`.
pub fn request_failure(what: &str, r: &ApiResponse) -> (m: String)
    ensures
        m@ == what@ + " (HTTP "@ + decimal(r.status as nat) + "): "@ + r.body@,
{
    let mut s = string_from(what);
    push_str(&mut s, " (HTTP ");
    push_u64(&mut s, r.status as u64);
    push_str(&mut s, "): ");
    push_str(&mut s, r.body.as_str());
    s
}

/// A step of creating the IP pool went through: 2xx, or 409 (it exists
/// already).
pub fn pool_step_ok(r: &ApiResponse) -> (b: bool)
    ensures
        b == (200 <= r.status < 300 || r.status == 409),
{
    r.is_ok() || r.status == 409
}

/// A request of the API: method, path and JSON body.
pub struct ApiRequest {
    pub method: &'static str,
    pub path: String,
    pub body: String,
    /// How a refusal reads.
    pub failure: &'static str,
}

/// The three requests that create the pool, make it the silo's default and
/// give it its range, in order.
pub fn create_ip_pool_requests(config: &NexusConfig, first: &str, last: &str) -> (r: Vec<ApiRequest>)
    ensures
        r@.len() == 3,
        r@[0].method@ == "POST"@ && r@[0].path@ == "v1/ip-pools"@ && r@[0].body@ == "{\"name\":\""@
            + config.ip_pool_name@ + "\",\"description\":\"Default IP pool for instances\"}"@
            && r@[0].failure@ == "Failed to create IP pool"@,
        r@[1].method@ == "POST"@ && r@[1].path@ == "v1/system/ip-pools/"@ + config.ip_pool_name@
            + "/silos"@ && r@[1].body@ == "{\"silo\":\""@ + config.silo_name@
            + "\",\"is_default\":true}"@ && r@[1].failure@ == "Failed to link IP pool to silo"@,
        r@[2].method@ == "POST"@ && r@[2].path@ == "v1/ip-pools/"@ + config.ip_pool_name@
            + "/ranges/add"@ && r@[2].body@ == "{\"first\":\""@ + first@ + "\",\"last\":\""@ + last@
            + "\"}"@ && r@[2].failure@ == "Failed to add IP range"@,
{
    let mut b0 = string_from("{\"name\":\"");
    push_str(&mut b0, config.ip_pool_name.as_str());
    push_str(&mut b0, "\",\"description\":\"Default IP pool for instances\"}");
    let mut p1 = string_from("v1/system/ip-pools/");
    push_str(&mut p1, config.ip_pool_name.as_str());
    push_str(&mut p1, "/silos");
    let mut b1 = string_from("{\"silo\":\"");
    push_str(&mut b1, config.silo_name.as_str());
    push_str(&mut b1, "\",\"is_default\":true}");
    let mut p2 = string_from("v1/ip-pools/");
    push_str(&mut p2, config.ip_pool_name.as_str());
    push_str(&mut p2, "/ranges/add");
    let mut b2 = string_from("{\"first\":\"");
    push_str(&mut b2, first);
    push_str(&mut b2, "\",\"last\":\"");
    push_str(&mut b2, last);
    push_str(&mut b2, "\"}");
    let mut v: Vec<ApiRequest> = Vec::new();
    v.push(ApiRequest {
        method: "POST",
        path: string_from("v1/ip-pools"),
        body: b0,
        failure: "Failed to create IP pool",
    });
    v.push(ApiRequest { method: "POST", path: p1, body: b1, failure: "Failed to link IP pool to silo" });
    v.push(ApiRequest { method: "POST", path: p2, body: b2, failure: "Failed to add IP range" });
    v
}

} // verus!
