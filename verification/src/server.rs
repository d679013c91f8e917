//! Decisions of the web server: request vocabulary, content types and which
//! paths need a token.

use vstd::prelude::*;

use crate::cli::{type_of_word, InspectionType, ReportFormat};
use crate::config::{accepts, authenticate, Config, UserConfig};
use crate::jobs::{status_str, JobStatus};
use crate::utils::lang::Lang;
use crate::utils::text::{
    chars_of, ends_with, ends_with_str, lower_text, owned, push_str, starts_with, starts_with_str,
    str_eq, string_of, to_lowercase, trim, trim_end_char, trim_str,
};

verus! {

/// The inspection type of a request: unknown words mean all.
pub fn parse_inspection_type(s: &str) -> (r: InspectionType)
    ensures
        r == match type_of_word(lower_text(s@)) {
            Some(t) => t,
            None => InspectionType::All,
        },
{
    match InspectionType::parse(s) {
        Ok(t) => t,
        Err(_) => InspectionType::All,
    }
}

/// The language of a request: English for `en` (any case, white space
/// around ignored), Chinese otherwise.
pub fn parse_lang(s: &str) -> (r: Lang)
    ensures
        r == lang_word(lower_text(s@)),
{
    let low = to_lowercase(s);
    lang_of_word(low.as_str())
}

/// The language a lower-case word names: English for `en` (white space
/// around ignored), Chinese otherwise.
pub open spec fn lang_word(t: Seq<char>) -> Lang {
    if trim(t) == "en"@ {
        Lang::En
    } else {
        Lang::Zh
    }
}

/// The language a lower-case word names (see [`lang_word`]).
pub fn lang_of_word(l: &str) -> (r: Lang)
    ensures
        r == lang_word(l@),
{
    let t = trim_str(l);
    if crate::utils::text::eq_str(&t, "en") {
        Lang::En
    } else {
        Lang::Zh
    }
}

/// Content type of a static file, by its extension.
pub open spec fn content_type_spec(name: Seq<char>) -> Seq<char> {
    if ends_with(name, ".html"@) {
        "text/html; charset=utf-8"@
    } else if ends_with(name, ".css"@) {
        "text/css; charset=utf-8"@
    } else if ends_with(name, ".js"@) {
        "application/javascript; charset=utf-8"@
    } else if ends_with(name, ".svg"@) {
        "image/svg+xml"@
    } else if ends_with(name, ".png"@) {
        "image/png"@
    } else if ends_with(name, ".json"@) {
        "application/json"@
    } else {
        "application/octet-stream"@
    }
}

pub fn content_type(name: &str) -> (r: &'static str)
    ensures
        r@ == content_type_spec(name@),
{
    let v = chars_of(name);
    if ends_with_str(&v, ".html") {
        "text/html; charset=utf-8"
    } else if ends_with_str(&v, ".css") {
        "text/css; charset=utf-8"
    } else if ends_with_str(&v, ".js") {
        "application/javascript; charset=utf-8"
    } else if ends_with_str(&v, ".svg") {
        "image/svg+xml"
    } else if ends_with_str(&v, ".png") {
        "image/png"
    } else if ends_with_str(&v, ".json") {
        "application/json"
    } else {
        "application/octet-stream"
    }
}

/// Request to start an inspection.
#[derive(Debug, Clone)]
pub struct InspectRequest {
    pub types: Option<Vec<String>>,
    pub namespace: Option<String>,
    pub format: Option<String>,
    pub lang: Option<String>,
    pub level: Option<String>,
    pub node_inspector_namespace: Option<String>,
    pub cluster_name: Option<String>,
}

/// Query of a log read: where to continue.
#[derive(Debug, Clone)]
pub struct CursorQuery {
    pub cursor: Option<usize>,
}

/// Query of a report download: which format.
#[derive(Debug, Clone)]
pub struct FormatQuery {
    pub format: Option<String>,
}

/// Login request.
#[derive(Debug, Clone)]
pub struct LoginRequest {
    pub username: String,
    pub password: String,
}

/// Login response.
#[derive(Debug, Clone)]
pub struct LoginResponse {
    pub token: String,
    pub username: String,
}

/// The token of an `Authorization` header: what follows `Bearer `.
pub fn bearer_token(header: &str) -> (r: Option<String>)
    ensures
        match r {
            Some(t) => starts_with(header@, "Bearer "@) && t@ == header@.skip(7),
            None => !starts_with(header@, "Bearer "@),
        },
{
    let v = chars_of(header);
    if starts_with_str(&v, "Bearer ") {
        proof {
            reveal_strlit("Bearer ");
        }
        let rest = crate::utils::text::sub_vec(&v, 7, v.len());
        Some(string_of(&rest))
    } else {
        None
    }
}

/// The claims of a token that the server reads: the subject, and the
/// expiry and issue times.
#[derive(Debug, Clone)]
pub struct JwtClaims {
    pub sub: Option<String>,
    pub exp: Option<u64>,
    pub iat: Option<u64>,
}

pub open spec fn claims_view(c: JwtClaims) -> (Option<Seq<char>>, Option<u64>, Option<u64>) {
    (
        match c.sub {
            Some(s) => Some(s@),
            None => None,
        },
        c.exp,
        c.iat,
    )
}

/// The claims of a token whose HS256 signature checks under the secret:
/// the `sub` claim when it is a string, `exp` and `iat` when they are
/// non-negative integers; `None` when the signature does not check or the
/// payload is not JSON.
pub uninterp spec fn jwt_signed_claims(token: Seq<char>, secret: Seq<char>) -> Option<
    (Option<Seq<char>>, Option<u64>, Option<u64>),
>;

/// `jsonwebtoken::decode` of the token with an HMAC key made from the secret
/// and the default validation (HS256 signature, `exp` required and at most
/// 60 s in the past), with the claims read as JSON. A token that passes
/// has a signature that checks under the secret, so its claims are the
/// named ones; whether it passes also depends on the clock, so when `None`
/// comes back nothing more is stated. Reading the clock panics when it is
/// set before 1970.
#[verifier::external_body]
fn jwt_claims(token: &str, secret: &str) -> (r: Option<JwtClaims>)
    ensures
        r matches Some(c) ==> jwt_signed_claims(token@, secret@) == Some(claims_view(c)),
{
    let key = jsonwebtoken::DecodingKey::from_secret(secret.as_bytes());
    match jsonwebtoken::decode::<serde_json::Value>(token, &key, &jsonwebtoken::Validation::default()) {
        Ok(data) => Some(JwtClaims {
            sub: match data.claims.get("sub") {
                Some(serde_json::Value::String(sub)) => Some(sub.clone()),
                _ => None,
            },
            exp: data.claims.get("exp").and_then(serde_json::Value::as_u64),
            iat: data.claims.get("iat").and_then(serde_json::Value::as_u64),
        }),
        Err(_) => None,
    }
}

/// Whether claims are those of a login token: a subject, an expiry time
/// and an issue time.
pub open spec fn login_claims(c: (Option<Seq<char>>, Option<u64>, Option<u64>)) -> bool {
    c.0 is Some && c.1 is Some && c.2 is Some
}

/// The user that decoded claims name: the subject, when the claims also
/// hold the expiry and issue times that a login token carries.
pub fn token_subject(claims: Option<JwtClaims>) -> (r: Option<String>)
    ensures
        r == match claims {
            Some(c) => if c.exp is Some && c.iat is Some {
                c.sub
            } else {
                None
            },
            None => None,
        },
{
    match claims {
        Some(c) => if c.exp.is_some() && c.iat.is_some() {
            c.sub
        } else {
            None
        },
        None => None,
    }
}

/// What the token check may answer for a header: nothing for a header that
/// does not read `Bearer <token>`, and a user only as the subject of signed
/// login claims of the token.
pub open spec fn token_check_outcome(header: Seq<char>, secret: Seq<char>, r: Option<String>) -> bool {
    &&& !starts_with(header, "Bearer "@) ==> r is None
    &&& r matches Some(s) ==> starts_with(header, "Bearer "@) && (jwt_signed_claims(header.skip(7), secret)
        matches Some(c) && login_claims(c) && c.0 == Some(s@))
}

/// User name of an `Authorization` header: the header must read
/// `Bearer <token>`; the token, with the signing secret, goes to the JWT
/// check, and a user comes back only as the subject of a login token whose
/// signature checks under the secret.
pub fn verify_token(header: &str, secret: &str) -> (r: Option<String>)
    ensures
        token_check_outcome(header@, secret@, r),
{
    match bearer_token(header) {
        Some(token) => {
            let claims = jwt_claims(token.as_str(), secret);
            token_subject(claims)
        },
        None => None,
    }
}

/// Whether a request may go on, given whether its path needs a token and
/// the user that its token names, if any.
pub fn allowed_given(needs: bool, user: &Option<String>) -> (r: bool)
    ensures
        r == (!needs || user is Some),
{
    !needs || user.is_some()
}

/// Whether a request may go on: a path that needs no token always does;
/// any other needs an `Authorization` header whose token names a user.
pub fn request_allowed(enabled: bool, web_base: &str, path: &str, header: &str, secret: &str) -> (r: bool)
    ensures
        !needs_token_spec(enabled, web_base@, path@) ==> r,
        needs_token_spec(enabled, web_base@, path@) && !starts_with(header@, "Bearer "@) ==> !r,
        r && needs_token_spec(enabled, web_base@, path@) ==> starts_with(header@, "Bearer "@) && (
        jwt_signed_claims(header@.skip(7), secret@) matches Some(c) && login_claims(c)),
{
    let needs = needs_token(enabled, web_base, path);
    if !needs {
        return true;
    }
    let user = verify_token(header, secret);
    allowed_given(needs, &user)
}

/// `jsonwebtoken::encode` with the default header (HS256) and an HMAC key
/// made from the secret, of the claims `sub`, `exp` and `iat`. Encoding
/// with an HMAC key and HS256 always succeeds, and the token's signature
/// checks under the secret, so its claims are these.
#[verifier::external_body]
fn jwt_sign(sub: &str, exp: u64, iat: u64, secret: &str) -> (r: Option<String>)
    ensures
        r is Some,
        r matches Some(t) ==> jwt_signed_claims(t@, secret@) == Some((Some(sub@), Some(exp), Some(iat))),
{
    let mut claims = serde_json::Map::new();
    claims.insert("sub".to_string(), serde_json::Value::String(sub.to_string()));
    claims.insert("exp".to_string(), serde_json::Value::from(exp));
    claims.insert("iat".to_string(), serde_json::Value::from(iat));
    let key = jsonwebtoken::EncodingKey::from_secret(secret.as_bytes());
    jsonwebtoken::encode(&jsonwebtoken::Header::default(), &serde_json::Value::Object(claims), &key).ok()
}

/// Why a login is refused.
#[derive(Debug, Clone, Copy, PartialEq, Eq, Structural)]
pub enum LoginError {
    /// No account has the user name with that password.
    Unauthorized,
}

/// The token a login issues: refused unless an account has the user name
/// and accepts the password; otherwise a token signed with the secret whose
/// subject is the user, issued at `now` and expiring `ttl` seconds later.
pub fn login_token(users: &Vec<UserConfig>, username: &str, password: &str, now: u64, ttl: u64, secret: &str) -> (r:
    Result<String, LoginError>)
    requires
        now + ttl <= u64::MAX,
    ensures
        r is Err <==> !exists|i: int| 0 <= i < users.len() && accepts(#[trigger] users@[i], username@, password@),
        r matches Err(e) ==> e == LoginError::Unauthorized,
        r matches Ok(t) ==> jwt_signed_claims(t@, secret@) == Some((Some(username@), Some((now + ttl) as u64), Some(now))),
{
    if !authenticate(users, username, password) {
        return Err(LoginError::Unauthorized);
    }
    match jwt_sign(username, now + ttl, now, secret) {
        Some(t) => Ok(t),
        None => Err(LoginError::Unauthorized),
    }
}

/// A token issued at login names its user to the token check: whatever the
/// check answers for `Bearer <token>` is that user or nothing (it answers
/// nothing for an expired token, which depends on the clock).
pub proof fn law_issued_token_names_its_user(
    token: Seq<char>,
    secret: Seq<char>,
    user: Seq<char>,
    exp: u64,
    iat: u64,
    answer: Option<String>,
)
    requires
        jwt_signed_claims(token, secret) == Some((Some(user), Some(exp), Some(iat))),
        token_check_outcome("Bearer "@ + token, secret, answer),
    ensures
        answer matches Some(s) ==> s@ == user,
{
    reveal_strlit("Bearer ");
    assert(("Bearer "@ + token).skip(7) =~= token);
}

/// Whether a request path needs a valid token: with authentication on,
/// every path under `<web base>/api` but the login and init endpoints.
pub open spec fn needs_token_spec(enabled: bool, web_base: Seq<char>, path: Seq<char>) -> bool {
    let api = trim_end_char(web_base, '/') + "/api"@;
    enabled && starts_with(path, api) && path != api + "/auth/login"@ && path != api + "/auth/init"@
}

pub fn needs_token(enabled: bool, web_base: &str, path: &str) -> (r: bool)
    ensures
        r == needs_token_spec(enabled, web_base@, path@),
{
    if !enabled {
        return false;
    }
    let base = crate::config::trim_trailing_slashes(web_base);
    let mut api = base;
    push_str(&mut api, "/api");
    let pv = chars_of(path);
    if !starts_with_str(&pv, api.as_str()) {
        return false;
    }
    let mut login = api.clone();
    push_str(&mut login, "/auth/login");
    let mut init = api.clone();
    push_str(&mut init, "/auth/init");
    !(str_eq(path, login.as_str()) || str_eq(path, init.as_str()))
}


/// What a new inspection job runs with: the request's values, or the
/// configured defaults where it gives none.
#[derive(Debug, Clone)]
pub struct JobSettings {
    pub types: Vec<String>,
    pub format: String,
    pub lang: String,
    pub level: String,
    pub inspection_type: InspectionType,
    pub node_namespace: String,
}

pub open spec fn or_value(o: Option<String>, d: Seq<char>) -> Seq<char> {
    match o {
        Some(s) => s@,
        None => d,
    }
}

fn clone_or(o: &Option<String>, d: &String) -> (r: String)
    ensures
        r@ == or_value(*o, d@),
{
    match o {
        Some(s) => s.clone(),
        None => d.clone(),
    }
}

/// Settles an inspection request against the configuration: all types
/// without a list, the first type decides what runs.
pub fn resolve_inspect_request(req: &InspectRequest, cfg: &Config) -> (r: JobSettings)
    ensures
        r.types@.map_values(|s: String| s@) == match req.types {
            Some(ts) => ts@.map_values(|s: String| s@),
            None => seq!["all"@],
        },
        r.format@ == or_value(req.format, cfg.default_format@),
        r.lang@ == or_value(req.lang, cfg.default_lang@),
        r.level@ == or_value(req.level, cfg.default_level@),
        r.node_namespace@ == or_value(req.node_inspector_namespace, cfg.node_inspector_namespace@),
        r.inspection_type == if r.types@.len() > 0 {
            match type_of_word(lower_text(r.types@[0]@)) {
                Some(t) => t,
                None => InspectionType::All,
            }
        } else {
            InspectionType::All
        },
{
    let types: Vec<String> = match &req.types {
        Some(ts) => {
            let mut out: Vec<String> = Vec::new();
            let mut i: usize = 0;
            while i < ts.len()
                invariant
                    i <= ts.len(),
                    out@.map_values(|s: String| s@) == ts@.take(i as int).map_values(|s: String| s@),
                decreases ts.len() - i,
            {
                let ghost before = out@;
                let c = ts[i].clone();
                out.push(c);
                proof {
                    assert(out@.map_values(|s: String| s@) =~= before.map_values(|s: String| s@).push(c@));
                    assert(ts@.take(i as int + 1).map_values(|s: String| s@) =~= ts@.take(i as int).map_values(|s: String| s@).push(ts@[i as int]@));
                    assert(out@.map_values(|s: String| s@) =~= ts@.take(i as int + 1).map_values(|s: String| s@));
                }
                i = i + 1;
            }
            proof {
                assert(ts@.take(ts.len() as int) =~= ts@);
            }
            out
        },
        None => {
            let v = vec![owned("all")];
            proof {
                assert(v@.map_values(|s: String| s@) =~= seq!["all"@]);
            }
            v
        },
    };
    let inspection_type = if types.len() > 0 {
        parse_inspection_type(types[0].as_str())
    } else {
        InspectionType::All
    };
    JobSettings {
        types,
        format: clone_or(&req.format, &cfg.default_format),
        lang: clone_or(&req.lang, &cfg.default_lang),
        level: clone_or(&req.level, &cfg.default_level),
        inspection_type,
        node_namespace: clone_or(&req.node_inspector_namespace, &cfg.node_inspector_namespace),
    }
}

/// How a job ends when a stage fails: cancelled when a cancel was
/// requested, failed otherwise.
pub fn failed_job_status(cancel_requested: bool) -> (r: JobStatus)
    ensures
        r == if cancel_requested { JobStatus::Cancelled } else { JobStatus::Failed },
{
    if cancel_requested {
        JobStatus::Cancelled
    } else {
        JobStatus::Failed
    }
}


/// The part of a name after its last dot (all of it without a dot).
pub open spec fn last_dot_segment(s: Seq<char>) -> Seq<char>
    decreases s.len(),
{
    if s.len() == 0 {
        s
    } else if s.last() == '.' {
        ""@
    } else {
        last_dot_segment(s.drop_last()).push(s.last())
    }
}

fn last_dot_segment_exec(v: &Vec<char>) -> (r: Vec<char>)
    ensures
        r@ == last_dot_segment(v@),
{
    let mut start: usize = v.len();
    proof {
        assert(v@.take(v.len() as int) =~= v@);
        assert(v@.skip(v.len() as int) =~= Seq::<char>::empty());
        assert(last_dot_segment(v@) =~= last_dot_segment(v@.take(v.len() as int)) + v@.skip(v.len() as int));
    }
    while start > 0 && v[start - 1] != '.'
        invariant
            start <= v.len(),
            forall|j: int| start <= j < v.len() ==> v@[j] != '.',
            last_dot_segment(v@) == last_dot_segment(v@.take(start as int)) + v@.skip(start as int),
        decreases start,
    {
        proof {
            let t = v@.take(start as int);
            assert(t.drop_last() =~= v@.take(start - 1));
            assert(t.last() == v@[start - 1]);
            assert(last_dot_segment(t) == last_dot_segment(v@.take(start - 1)).push(v@[start - 1]));
            assert(last_dot_segment(v@.take(start - 1)).push(v@[start - 1]) + v@.skip(start as int) =~= last_dot_segment(
                v@.take(start - 1),
            ) + v@.skip(start - 1));
        }
        start = start - 1;
    }
    proof {
        if start > 0 {
            let t = v@.take(start as int);
            assert(t.last() == v@[start - 1]);
            reveal_strlit("");
            assert(last_dot_segment(t) =~= Seq::<char>::empty());
            assert(v@.skip(start as int) =~= Seq::<char>::empty() + v@.skip(start as int));
        } else {
            assert(v@.take(0) =~= Seq::<char>::empty());
        }
    }
    crate::utils::text::sub_vec(v, start, v.len())
}

/// Content type of a downloaded report, by the part of its file name after
/// the last dot.
pub open spec fn download_type_spec(name: Seq<char>) -> Seq<char> {
    let ext = last_dot_segment(name);
    if ext == "html"@ {
        "text/html; charset=utf-8"@
    } else if ext == "csv"@ {
        "text/csv"@
    } else if ext == "json"@ {
        "application/json"@
    } else {
        "text/markdown"@
    }
}

pub fn download_content_type(name: &str) -> (r: &'static str)
    ensures
        r@ == download_type_spec(name@),
{
    let v = chars_of(name);
    let ext = last_dot_segment_exec(&v);
    if crate::utils::text::eq_str(&ext, "html") {
        "text/html; charset=utf-8"
    } else if crate::utils::text::eq_str(&ext, "csv") {
        "text/csv"
    } else if crate::utils::text::eq_str(&ext, "json") {
        "application/json"
    } else {
        "text/markdown"
    }
}

/// The report format named by a request: JSON, CSV or HTML by name,
/// Markdown for anything else.
pub fn report_format_of(format: &str) -> (r: ReportFormat)
    ensures
        r == if format@ == "json"@ {
            ReportFormat::Json
        } else if format@ == "csv"@ {
            ReportFormat::Csv
        } else if format@ == "html"@ {
            ReportFormat::Html
        } else {
            ReportFormat::Md
        },
{
    if str_eq(format, "json") {
        ReportFormat::Json
    } else if str_eq(format, "csv") {
        ReportFormat::Csv
    } else if str_eq(format, "html") {
        ReportFormat::Html
    } else {
        ReportFormat::Md
    }
}

/// File name of a report generated by the server.
pub fn report_file_name(timestamp: &str, format: &str) -> (r: String)
    ensures
        r@ == "kubernetes-inspection-report-"@ + timestamp@ + "."@ + format@,
{
    let mut s = owned("kubernetes-inspection-report-");
    push_str(&mut s, timestamp);
    push_str(&mut s, ".");
    push_str(&mut s, format);
    s
}


/// What the event stream of a job does next.
#[derive(Debug, Clone, Copy, PartialEq, Eq, Structural)]
pub enum StreamStep {
    /// Close the stream.
    End,
    /// Send the job's status, then close the stream at the next step.
    SendStatus,
    /// Send the next unsent log line.
    SendLine,
    /// Send the job's progress.
    SendProgress,
    /// Wait, then look again.
    Wait,
}

/// The next step of a job's event stream, from whether the final status
/// was already sent, the job's status (none when the job is unknown),
/// whether a log line is unsent, and whether the progress changed since it
/// was last sent: a job that is not running gets its status once and the
/// stream closes; an unknown job closes it; otherwise new log lines come
/// first, then progress.
pub fn stream_step(status_sent: bool, status: Option<JobStatus>, has_line: bool, progress_changed: bool) -> (r:
    StreamStep)
    ensures
        r == if status_sent {
            StreamStep::End
        } else {
            match status {
                Some(JobStatus::Running) => if has_line {
                    StreamStep::SendLine
                } else if progress_changed {
                    StreamStep::SendProgress
                } else {
                    StreamStep::Wait
                },
                Some(_) => StreamStep::SendStatus,
                None => StreamStep::End,
            }
        },
{
    if status_sent {
        return StreamStep::End;
    }
    match status {
        Some(JobStatus::Running) => {
            if has_line {
                StreamStep::SendLine
            } else if progress_changed {
                StreamStep::SendProgress
            } else {
                StreamStep::Wait
            }
        },
        Some(_) => StreamStep::SendStatus,
        None => StreamStep::End,
    }
}

/// The status event of a job's stream: `[状态] ` and the status name.
pub fn status_event_text(status: JobStatus) -> (r: String)
    ensures
        r@ == "[状态] "@ + status_str(status),
{
    let mut s = owned("[状态] ");
    push_str(&mut s, status.as_str());
    s
}

} // verus!
