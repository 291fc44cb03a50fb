use eden_server::auth::{
    acl_from_conf, claims_of, verify, AuthenticatedAgent, Claims, JWTAuthenticationMiddleware, ACL,
};
use eden_server::config::ACLConf;
use eden_server::error::{AuthenticationError, VerifyError};
use eden_server::http::{Fault, HttpError};
use jsonwebtoken::{encode, EncodingKey, Header};
use serde_json::{Number, Value};

const SECRET: &str = "a shared secret";
const FAR_FUTURE: u64 = 32_503_680_000;

fn payload(members: &[(&str, Value)]) -> Value {
    let mut object = serde_json::Map::new();
    for (name, value) in members {
        object.insert(name.to_string(), value.clone());
    }
    Value::Object(object)
}

fn text(s: &str) -> Value {
    Value::String(s.to_string())
}

fn number(n: u64) -> Value {
    Value::Number(Number::from(n))
}

fn token(claims: &Value, secret: &str) -> String {
    encode(&Header::default(), claims, &EncodingKey::from_secret(secret.as_bytes())).unwrap()
}

fn token_for(iss: &str, role: &str) -> String {
    let claims = payload(&[("iss", text(iss)), ("role", text(role)), ("exp", number(FAR_FUTURE))]);
    token(&claims, SECRET)
}

fn acl(name: &str, roles: &[&str]) -> ACL {
    acl_from_conf(ACLConf {
        name: name.to_string(),
        roles: roles.iter().map(|r| r.to_string()).collect(),
    })
}

fn middleware(acls: Vec<ACL>) -> JWTAuthenticationMiddleware {
    JWTAuthenticationMiddleware::new(SECRET.to_string(), acls)
}

fn claims(iss: &str, role: &str) -> Claims {
    Claims { iss: iss.to_string(), role: role.to_string() }
}

#[test]
fn verify_yields_the_claims_of_a_signed_token() {
    let got = verify(&token_for("device-42", "sensor"), SECRET);
    assert_eq!(got, Ok(claims("device-42", "sensor")));
}

#[test]
fn verify_ignores_claims_it_does_not_read() {
    let body = payload(&[
        ("iss", text("device-42")),
        ("role", text("sensor")),
        ("exp", number(FAR_FUTURE)),
        ("site", text("roof")),
    ]);
    assert_eq!(verify(&token(&body, SECRET), SECRET), Ok(claims("device-42", "sensor")));
}

#[test]
fn verify_rejects_a_token_signed_with_another_key() {
    let forged = token(
        &payload(&[("iss", text("device-42")), ("role", text("sensor")), ("exp", number(FAR_FUTURE))]),
        "another secret",
    );
    assert_eq!(verify(&forged, SECRET), Err(VerifyError::InvalidSignature));
}

#[test]
fn verify_rejects_a_token_whose_payload_was_replaced() {
    let honest = token_for("device-42", "sensor");
    let other = token_for("device-42", "admin");
    let honest_parts: Vec<&str> = honest.split('.').collect();
    let other_parts: Vec<&str> = other.split('.').collect();
    let spliced = format!("{}.{}.{}", honest_parts[0], other_parts[1], honest_parts[2]);
    assert_eq!(verify(&spliced, SECRET), Err(VerifyError::InvalidSignature));
}

#[test]
fn verify_rejects_what_is_no_token() {
    assert_eq!(verify("not a token", SECRET), Err(VerifyError::MalformedToken));
    assert_eq!(verify("", SECRET), Err(VerifyError::MalformedToken));
    assert_eq!(verify("a.b", SECRET), Err(VerifyError::MalformedToken));
}

#[test]
fn verify_reads_no_clock() {
    let body = payload(&[("iss", text("device-42")), ("role", text("sensor")), ("exp", number(1))]);
    let old = token(&body, SECRET);
    assert_eq!(verify(&old, SECRET), Ok(claims("device-42", "sensor")));
    assert_eq!(verify(&old, SECRET), verify(&old, SECRET));
}

#[test]
fn verify_gives_the_same_result_for_the_same_token_and_key() {
    let good = token_for("device-42", "sensor");
    assert_eq!(verify(&good, SECRET), verify(&good, SECRET));
    assert_eq!(verify(&good, "another secret"), verify(&good, "another secret"));
    assert_eq!(verify("a.b.c", SECRET), verify("a.b.c", SECRET));
}

#[test]
fn verify_asks_for_no_audience() {
    let body = payload(&[("iss", text("device-42")), ("role", text("sensor")), ("aud", text("anyone"))]);
    assert_eq!(verify(&token(&body, SECRET), SECRET), Ok(claims("device-42", "sensor")));
}

#[test]
fn verify_rejects_a_payload_that_is_no_json() {
    let good = token_for("device-42", "sensor");
    let parts: Vec<&str> = good.split('.').collect();
    let broken = token(&text("x"), SECRET);
    let broken_parts: Vec<&str> = broken.split('.').collect();
    assert_eq!(verify(&format!("{}.{}", parts[0], parts[1]), SECRET), Err(VerifyError::MalformedToken));
    assert_eq!(verify(&format!("{}.!!!.{}", parts[0], parts[2]), SECRET), Err(VerifyError::InvalidSignature));
    assert!(verify(&broken, SECRET).is_err());
    assert_eq!(broken_parts.len(), 3);
}

#[test]
fn verify_misses_the_role() {
    let body = payload(&[("iss", text("device-42")), ("exp", number(FAR_FUTURE))]);
    assert_eq!(verify(&token(&body, SECRET), SECRET), Err(VerifyError::MissingClaim));
}

#[test]
fn verify_misses_the_issuer() {
    let body = payload(&[("role", text("sensor")), ("exp", number(FAR_FUTURE))]);
    assert_eq!(verify(&token(&body, SECRET), SECRET), Err(VerifyError::MissingClaim));
}

#[test]
fn verify_asks_for_no_expiry() {
    let body = payload(&[("iss", text("device-42")), ("role", text("sensor"))]);
    assert_eq!(verify(&token(&body, SECRET), SECRET), Ok(claims("device-42", "sensor")));
}

#[test]
fn verify_misses_both_claims() {
    let body = payload(&[("exp", number(FAR_FUTURE))]);
    assert_eq!(verify(&token(&body, SECRET), SECRET), Err(VerifyError::MissingClaim));
    assert_eq!(verify(&token(&payload(&[]), SECRET), SECRET), Err(VerifyError::MissingClaim));
}

#[test]
fn claims_of_reads_issuer_and_role() {
    let body = payload(&[("iss", text("device-42")), ("role", text("sensor"))]);
    assert_eq!(claims_of(Ok(body)), Ok(claims("device-42", "sensor")));
}

#[test]
fn claims_of_does_not_hand_the_member_name_back() {
    let body = payload(&[("iss", text("a")), ("role", text("b"))]);
    let got = claims_of(Ok(body)).unwrap();
    assert_ne!(got.iss, "iss");
    assert_ne!(got.role, "role");
    assert_eq!(got.iss, "a");
    assert_eq!(got.role, "b");
}

#[test]
fn claims_of_takes_only_strings() {
    let body = payload(&[("iss", number(42)), ("role", text("sensor"))]);
    assert_eq!(claims_of(Ok(body)), Err(VerifyError::MissingClaim));
    let body = payload(&[("iss", text("device-42")), ("role", Value::Null)]);
    assert_eq!(claims_of(Ok(body)), Err(VerifyError::MissingClaim));
}

#[test]
fn claims_of_finds_nothing_outside_an_object() {
    assert_eq!(claims_of(Ok(text("iss"))), Err(VerifyError::MissingClaim));
    assert_eq!(claims_of(Ok(Value::Array(vec![text("iss"), text("role")]))), Err(VerifyError::MissingClaim));
    assert_eq!(claims_of(Ok(Value::Null)), Err(VerifyError::MissingClaim));
}

#[test]
fn claims_of_passes_a_failure_on() {
    assert_eq!(claims_of(Err(VerifyError::InvalidSignature)), Err(VerifyError::InvalidSignature));
    assert_eq!(claims_of(Err(VerifyError::MalformedToken)), Err(VerifyError::MalformedToken));
    assert_eq!(claims_of(Err(VerifyError::MissingClaim)), Err(VerifyError::MissingClaim));
}

#[test]
fn acl_ok_needs_issuer_and_role_in_one_entry() {
    let g = middleware(vec![acl("device-42", &["sensor", "admin"]), acl("device-7", &["guest"])]);
    assert!(g.acl_ok(&claims("device-42", "sensor")));
    assert!(g.acl_ok(&claims("device-42", "admin")));
    assert!(g.acl_ok(&claims("device-7", "guest")));
    assert!(!g.acl_ok(&claims("device-42", "guest")));
    assert!(!g.acl_ok(&claims("device-7", "sensor")));
    assert!(!g.acl_ok(&claims("device-8", "sensor")));
    assert!(!g.acl_ok(&claims("sensor", "device-42")));
}

#[test]
fn acl_ok_adds_up_entries_of_one_issuer() {
    let g = middleware(vec![acl("device-42", &["sensor"]), acl("device-42", &["admin"])]);
    assert!(g.acl_ok(&claims("device-42", "sensor")));
    assert!(g.acl_ok(&claims("device-42", "admin")));
    assert!(!g.acl_ok(&claims("device-42", "guest")));
}

#[test]
fn acl_ok_permits_nothing_without_entries() {
    assert!(!middleware(vec![]).acl_ok(&claims("device-42", "sensor")));
    assert!(!middleware(vec![acl("device-42", &[])]).acl_ok(&claims("device-42", "sensor")));
}

#[test]
fn authorize_turns_permitted_claims_into_an_identity() {
    let g = middleware(vec![acl("device-42", &["sensor", "admin"])]);
    assert_eq!(
        g.authorize(Ok(claims("device-42", "sensor"))),
        Ok(AuthenticatedAgent { name: "device-42".to_string(), role: "sensor".to_string() })
    );
    assert_eq!(g.authorize(Ok(claims("device-42", "guest"))), Err(AuthenticationError {}));
    assert_eq!(g.authorize(Err(VerifyError::InvalidSignature)), Err(AuthenticationError {}));
    assert_eq!(g.authorize(Err(VerifyError::MalformedToken)), Err(AuthenticationError {}));
    assert_eq!(g.authorize(Err(VerifyError::MissingClaim)), Err(AuthenticationError {}));
}

#[test]
fn authenticate_admits_a_sensor_of_device_42() {
    let g = middleware(vec![acl("device-42", &["sensor", "admin"])]);
    assert_eq!(
        g.authenticate(&token_for("device-42", "sensor")),
        Ok(AuthenticatedAgent { name: "device-42".to_string(), role: "sensor".to_string() })
    );
}

#[test]
fn authenticate_refuses_a_guest_of_device_42() {
    let g = middleware(vec![acl("device-42", &["sensor", "admin"])]);
    assert_eq!(g.authenticate(&token_for("device-42", "guest")), Err(AuthenticationError {}));
}

#[test]
fn authenticate_refuses_an_invalid_signature() {
    let g = middleware(vec![acl("device-42", &["sensor", "admin"])]);
    let forged = token(
        &payload(&[("iss", text("device-42")), ("role", text("sensor")), ("exp", number(FAR_FUTURE))]),
        "guessed",
    );
    assert_eq!(g.authenticate(&forged), Err(AuthenticationError {}));
}

#[test]
fn before_turns_a_request_without_a_token_away() {
    let g = middleware(vec![acl("device-42", &["sensor"])]);
    let e = g.before(None).unwrap_err();
    assert_eq!(e, HttpError { status: 401, fault: Fault::Authentication(AuthenticationError {}) });
}

#[test]
fn before_turns_a_bad_token_away() {
    let g = middleware(vec![acl("device-42", &["sensor"])]);
    assert_eq!(g.before(Some("rubbish")).unwrap_err().status, 401);
    assert_eq!(g.before(Some(&token_for("device-42", "guest"))).unwrap_err().status, 401);
}

#[test]
fn before_gives_the_identity_that_the_token_names() {
    let g = middleware(vec![acl("device-1", &["admin"]), acl("device-42", &["guest", "sensor"])]);
    assert_eq!(
        g.before(Some(&token_for("device-42", "sensor"))),
        Ok(AuthenticatedAgent { name: "device-42".to_string(), role: "sensor".to_string() })
    );
    assert_eq!(
        g.authenticate(&token_for("device-42", "guest")),
        Ok(AuthenticatedAgent { name: "device-42".to_string(), role: "guest".to_string() })
    );
    assert_eq!(g.before(Some(&token_for("device-1", "sensor"))).unwrap_err().status, 401);
    let nameless = token(&payload(&[("role", text("admin"))]), SECRET);
    assert_eq!(g.before(Some(&nameless)).unwrap_err().status, 401);
}

#[test]
fn before_attaches_the_identity() {
    let g = middleware(vec![acl("device-42", &["sensor"])]);
    assert_eq!(
        g.before(Some(&token_for("device-42", "sensor"))),
        Ok(AuthenticatedAgent { name: "device-42".to_string(), role: "sensor".to_string() })
    );
}

#[test]
fn catch_says_nothing_of_the_cause() {
    let g = middleware(vec![]);
    let inner = HttpError::message(500, "table sensors is locked by pid 4711");
    assert_eq!(
        g.catch(inner),
        HttpError {
            status: 400,
            fault: Fault::Message(eden_server::error::StringError { description: "error".to_string() })
        }
    );
    assert_eq!(g.catch(HttpError::unauthorized()).status, 400);
}

#[test]
fn errors_describe_themselves() {
    assert_eq!(AuthenticationError {}.description(), "Authentication failed");
    let e = eden_server::error::StringError { description: "invalid body".to_string() };
    assert_eq!(e.description(), "invalid body");
}
