use eden_server::auth::{acl_from_conf, AuthenticatedAgent, Chain, JWTAuthenticationMiddleware};
use eden_server::config::ACLConf;
use eden_server::error::{AuthenticationError, StringError};
use eden_server::handler::{Measurement, Message, MetaData, Number, SensorDataHandler};
use eden_server::http::{Fault, HttpError, Method, Request};
use eden_server::server::{EdenServer, RouteProvider, Router};
use jsonwebtoken::{encode, EncodingKey, Header};
use serde_json::Value;

const SECRET: &str = "a shared secret";

fn agent() -> AuthenticatedAgent {
    AuthenticatedAgent { name: "device-42".to_string(), role: "sensor".to_string() }
}

fn message(device: &str, timestamp: i64) -> Message {
    Message {
        meta: MetaData { name: device.to_string(), role: None },
        data: vec![Measurement::Simple {
            name: "t".to_string(),
            value: Number { bits: 20.5f64.to_bits() },
            unit: "C".to_string(),
        }],
        timestamp,
    }
}

fn token_for(iss: &str, role: &str, secret: &str) -> String {
    let mut claims = serde_json::Map::new();
    claims.insert("iss".to_string(), Value::String(iss.to_string()));
    claims.insert("role".to_string(), Value::String(role.to_string()));
    claims.insert("exp".to_string(), Value::from(32_503_680_000u64));
    encode(&Header::default(), &Value::Object(claims), &EncodingKey::from_secret(secret.as_bytes())).unwrap()
}

fn chain(route: &str) -> Chain {
    let acls = vec![acl_from_conf(ACLConf {
        name: "device-42".to_string(),
        roles: vec!["sensor".to_string(), "admin".to_string()],
    })];
    JWTAuthenticationMiddleware::new(SECRET.to_string(), acls).add_before(SensorDataHandler::new(route))
}

fn request(method: Method, path: &str, bearer: Option<String>, body: Option<Vec<Message>>) -> Request {
    Request { method, path: path.to_string(), bearer, body }
}

fn bad_request(text: &str, status: u16) -> HttpError {
    HttpError { status, fault: Fault::Message(StringError { description: text.to_string() }) }
}

fn unauthorized() -> HttpError {
    HttpError { status: 401, fault: Fault::Authentication(AuthenticationError {}) }
}

#[test]
fn put_and_post_enqueue_each_message_under_the_agent() {
    let handler = SensorDataHandler::new("temperature");
    for method in [Method::Put, Method::Post] {
        let reply = handler.handle(&method, Some(vec![message("a", 1), message("b", 2)]), agent()).unwrap();
        assert_eq!(reply.status, 200);
        assert_eq!(reply.body, "[\"Done\"]");
        assert_eq!(reply.enqueue.len(), 2);
        assert_eq!(*reply.enqueue[0].0, agent());
        assert_eq!(reply.enqueue[0].1, message("a", 1));
        assert_eq!(*reply.enqueue[1].0, agent());
        assert_eq!(reply.enqueue[1].1, message("b", 2));
    }
}

#[test]
fn an_empty_array_is_done_with_nothing_enqueued() {
    let reply = SensorDataHandler::new("temperature").handle(&Method::Post, Some(vec![]), agent()).unwrap();
    assert_eq!(reply.status, 200);
    assert_eq!(reply.body, "[\"Done\"]");
    assert!(reply.enqueue.is_empty());
}

#[test]
fn a_body_that_cannot_be_read_is_a_bad_request() {
    let handler = SensorDataHandler::new("temperature");
    assert_eq!(handler.handle(&Method::Put, None, agent()), Err(bad_request("invalid body", 400)));
    assert_eq!(handler.handle(&Method::Post, None, agent()), Err(bad_request("invalid body", 400)));
}

#[test]
fn other_methods_are_not_allowed() {
    let handler = SensorDataHandler::new("temperature");
    let others = [
        Method::Get,
        Method::Delete,
        Method::Head,
        Method::Options,
        Method::Trace,
        Method::Connect,
        Method::Patch,
        Method::Extension("PURGE".to_string()),
    ];
    for method in others {
        assert_eq!(handler.handle(&method, Some(vec![message("a", 1)]), agent()), Err(bad_request("Error", 405)));
        assert_eq!(handler.handle(&method, None, agent()), Err(bad_request("Error", 405)));
    }
}

#[test]
fn the_handler_provides_its_route() {
    assert_eq!(SensorDataHandler::new("temperature").get_route(), "temperature");
    assert_eq!(chain("a/b").get_endpoint().get_route(), "a/b");
}

#[test]
fn a_request_without_authorization_is_unauthorized_and_enqueues_nothing() {
    let c = chain("temperature");
    let got = c.handle(request(Method::Post, "temperature", None, Some(vec![message("a", 1)])));
    assert_eq!(got, Err(unauthorized()));
}

#[test]
fn a_request_with_a_forged_token_is_unauthorized() {
    let c = chain("temperature");
    let forged = token_for("device-42", "sensor", "guessed");
    let got = c.handle(request(Method::Post, "temperature", Some(forged), Some(vec![message("a", 1)])));
    assert_eq!(got, Err(unauthorized()));
}

#[test]
fn a_request_in_a_role_that_is_not_granted_is_unauthorized() {
    let c = chain("temperature");
    let guest = token_for("device-42", "guest", SECRET);
    let got = c.handle(request(Method::Post, "temperature", Some(guest), Some(vec![message("a", 1)])));
    assert_eq!(got, Err(unauthorized()));
}

#[test]
fn an_authorized_request_reaches_the_endpoint() {
    let c = chain("temperature");
    let good = token_for("device-42", "sensor", SECRET);
    let reply = c
        .handle(request(Method::Put, "temperature", Some(good), Some(vec![message("a", 1), message("b", 2)])))
        .unwrap();
    assert_eq!(reply.status, 200);
    assert_eq!(reply.body, "[\"Done\"]");
    assert_eq!(reply.enqueue.len(), 2);
    assert_eq!(*reply.enqueue[1].0, agent());
    assert_eq!(reply.enqueue[1].1.timestamp, 2);
}

#[test]
fn malformed_json_from_an_authorized_agent_is_a_bad_request() {
    let c = chain("temperature");
    let good = token_for("device-42", "sensor", SECRET);
    let got = c.handle(request(Method::Post, "temperature", Some(good), None));
    assert_eq!(got, Err(bad_request("invalid body", 400)));
}

#[test]
fn the_wrong_method_from_an_authorized_agent_is_not_allowed() {
    let c = chain("temperature");
    let good = token_for("device-42", "sensor", SECRET);
    let got = c.handle(request(Method::Get, "temperature", Some(good), None));
    assert_eq!(got, Err(bad_request("Error", 405)));
}

#[test]
fn dispatch_passes_a_rejection_through() {
    let c = chain("temperature");
    let got = c.dispatch(Err(unauthorized()), &Method::Post, Some(vec![message("a", 1)]));
    assert_eq!(got, Err(unauthorized()));
    let reply = c.dispatch(Ok(agent()), &Method::Post, Some(vec![message("a", 1)])).unwrap();
    assert_eq!(reply.enqueue.len(), 1);
}

#[test]
fn the_router_answers_not_found_for_an_unknown_path() {
    let mut router = Router::new();
    let reply = router.handle(request(Method::Post, "temperature", None, None)).unwrap();
    assert_eq!((reply.status, reply.body.as_str(), reply.enqueue.len()), (404, "", 0));
    router.add_route("temperature".to_string(), chain("temperature"));
    let reply = router.handle(request(Method::Post, "pressure", None, None)).unwrap();
    assert_eq!((reply.status, reply.body.as_str(), reply.enqueue.len()), (404, "", 0));
    let reply = router.handle(request(Method::Post, "temperature/", None, None)).unwrap();
    assert_eq!(reply.status, 404);
}

#[test]
fn the_router_hands_a_request_to_the_chain_of_its_path() {
    let mut router = Router::new();
    router.add_route("temperature".to_string(), chain("temperature"));
    let got = router.handle(request(Method::Post, "temperature", None, Some(vec![message("a", 1)])));
    assert_eq!(got, Err(unauthorized()));
    let good = token_for("device-42", "sensor", SECRET);
    let reply = router
        .handle(request(Method::Post, "temperature", Some(good), Some(vec![message("a", 1)])))
        .unwrap();
    assert_eq!(reply.enqueue.len(), 1);
}

#[test]
fn a_route_added_later_replaces_an_earlier_one() {
    let mut router = Router::new();
    router.add_route("r".to_string(), chain("first"));
    router.add_route("s".to_string(), chain("other"));
    router.add_route("r".to_string(), chain("second"));
    assert_eq!(router.find(&"r".to_string()).unwrap().get_endpoint().get_route(), "second");
    assert_eq!(router.find(&"s".to_string()).unwrap().get_endpoint().get_route(), "other");
    assert!(router.find(&"t".to_string()).is_none());
}

#[test]
fn the_server_keeps_its_router() {
    let mut router = Router::new();
    router.add_route("temperature".to_string(), chain("temperature"));
    let server = EdenServer::new(router);
    assert!(server.router().find(&"temperature".to_string()).is_some());
    assert!(server.router().find(&"pressure".to_string()).is_none());
}
