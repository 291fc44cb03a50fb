//! Bearer-token verification, the access-control list, and the middleware that
//! runs before a request handler.

use vstd::prelude::*;
use crate::config::ACLConf;
use crate::error::{AuthenticationError, VerifyError};
use crate::handler::{handles, Message, SensorDataHandler};
use crate::http::{turned_away, HttpError, Method, Reply, Request};
use crate::json::{string_member, string_members};
use std::sync::Arc;

verus! {

/// The identity claims of a verified token.
#[derive(Debug, Clone, PartialEq, Eq, Default)]
pub struct Claims {
    pub iss: String,
    pub role: String,
}

/// One entry of the access-control list: an issuer and the roles it may
/// claim.
pub struct ACL {
    client_id: String,
    roles: Vec<String>,
}

/// An identity that passed authorization.
#[derive(Debug, Clone, PartialEq, Eq)]
pub struct AuthenticatedAgent {
    pub name: String,
    pub role: String,
}

impl ACL {
    /// The issuer that this entry is for.
    pub closed spec fn client_id(self) -> Seq<char> {
        self.client_id@
    }

    /// The roles of this entry, in configured order.
    pub closed spec fn roles(self) -> Seq<Seq<char>> {
        self.roles@.map_values(|r: String| r@)
    }

    /// Whether this entry grants `role` to `issuer`.
    pub open spec fn grants(self, issuer: Seq<char>, role: Seq<char>) -> bool {
        self.client_id() == issuer && self.roles().contains(role)
    }

    fn has_role(&self, role: &String) -> (found: bool)
        ensures
            found == self.roles().contains(role@),
    {
        let mut i: usize = 0;
        while i < self.roles.len()
            invariant
                i <= self.roles.len(),
                forall|j: int| 0 <= j < i ==> self.roles()[j] != role@,
            decreases self.roles.len() - i,
        {
            if self.roles[i] == *role {
                assert(self.roles()[i as int] == role@);
                return true;
            }
            i = i + 1;
        }
        false
    }
}

/// Whether some entry of `acls` grants `role` to `issuer`. Entries that share
/// an issuer add up.
pub open spec fn permits(acls: Seq<ACL>, issuer: Seq<char>, role: Seq<char>) -> bool {
    exists|i: int| 0 <= i < acls.len() && (#[trigger] acls[i]).grants(issuer, role)
}

/// Lists add up: what two lists permit together is what either of them
/// permits. So entries that share an issuer grant the union of their roles.
pub proof fn lists_add_up(first: Seq<ACL>, second: Seq<ACL>, issuer: Seq<char>, role: Seq<char>)
    ensures
        permits(first + second, issuer, role) <==> permits(first, issuer, role) || permits(
            second,
            issuer,
            role,
        ),
{
    let both = first + second;
    if permits(first, issuer, role) {
        let i = choose|i: int| 0 <= i < first.len() && (#[trigger] first[i]).grants(issuer, role);
        assert(both[i] == first[i]);
    }
    if permits(second, issuer, role) {
        let i = choose|i: int| 0 <= i < second.len() && (#[trigger] second[i]).grants(issuer, role);
        assert(both[first.len() + i] == second[i]);
    }
    if permits(both, issuer, role) {
        let i = choose|i: int| 0 <= i < both.len() && (#[trigger] both[i]).grants(issuer, role);
        if i < first.len() {
            assert(first[i] == both[i]);
        } else {
            assert(second[i - first.len()] == both[i]);
        }
    }
}

/// Makes an access-control entry of its configuration.
pub fn acl_from_conf(conf: ACLConf) -> (acl: ACL)
    ensures
        acl.client_id() == conf.name@,
        acl.roles() == conf.roles@.map_values(|r: String| r@),
{
    ACL { client_id: conf.name, roles: conf.roles }
}

/// What `jsonwebtoken::decode` makes of `token` under `secret`, with nothing
/// validated but the signature: the string members of the payload, by name,
/// or the kind of the failure. It rests on the two texts alone; no clock is
/// read.
pub uninterp spec fn decoding(token: Seq<char>, secret: Seq<char>) -> Result<
    Map<Seq<char>, Seq<char>>,
    VerifyError,
>;

/// Whether the signature of `token` verifies under `secret`, as
/// `jsonwebtoken::decode` checks it before it reads the payload: the token
/// has three parts, its header names HMAC with SHA-256, and the third part
/// is that code of the first two under the secret. It rests on the two texts
/// alone.
pub uninterp spec fn signature_verifies(token: Seq<char>, secret: Seq<char>) -> bool;

/// What a decoding holds: the string members of a payload, or the failure.
pub open spec fn outcome_of(decoded: Result<serde_json::Value, VerifyError>) -> Result<
    Map<Seq<char>, Seq<char>>,
    VerifyError,
> {
    match decoded {
        Ok(payload) => Ok(string_members(payload)),
        Err(e) => Err(e),
    }
}

/// Decodes a token with `jsonwebtoken::decode`, with `secret` as the HMAC
/// key, and hands out the payload. The validation asks for the signature
/// and for nothing else: no claim is required, and neither expiry nor
/// audience is checked, so the outcome rests on token and secret alone.
///
/// `decode` checks the signature first and reads the payload only of a
/// token whose signature verified, so a payload comes out only then; and it
/// reports an invalid signature only where that check failed. A failure is
/// told apart by its kind: an invalid signature, or anything else.
#[verifier::external_body]
fn decode(token: &str, secret: &str) -> (decoded: Result<serde_json::Value, VerifyError>)
    ensures
        outcome_of(decoded) == decoding(token@, secret@),
        decoded is Ok ==> signature_verifies(token@, secret@),
        decoded matches Err(VerifyError::InvalidSignature) ==> !signature_verifies(token@, secret@),
{
    let key = jsonwebtoken::DecodingKey::from_secret(secret.as_bytes());
    let mut validation = jsonwebtoken::Validation::default();
    validation.required_spec_claims.clear();
    validation.validate_exp = false;
    validation.validate_aud = false;
    match jsonwebtoken::decode::<serde_json::Value>(token, &key, &validation) {
        Ok(data) => Ok(data.claims),
        Err(e) => Err(
            match e.kind() {
                jsonwebtoken::errors::ErrorKind::InvalidSignature => VerifyError::InvalidSignature,
                _ => VerifyError::MalformedToken,
            },
        ),
    }
}

/// The issuer and the role among the string members of a payload, if both
/// are there.
pub open spec fn claims_among(members: Map<Seq<char>, Seq<char>>) -> Option<
    (Seq<char>, Seq<char>),
> {
    if members.contains_key("iss"@) && members.contains_key("role"@) {
        Some((members["iss"@], members["role"@]))
    } else {
        None
    }
}

/// What the verifier makes of a decoding: a failure stays what it is, a
/// payload gives its issuer and role, and a payload without one of them is
/// a missing claim.
pub open spec fn yields(
    outcome: Result<Map<Seq<char>, Seq<char>>, VerifyError>,
    claims: Result<Claims, VerifyError>,
) -> bool {
    match outcome {
        Err(e) => claims == Err::<Claims, VerifyError>(e),
        Ok(members) => match claims_among(members) {
            Some((iss, role)) => claims matches Ok(c) && c.iss@ == iss && c.role@ == role,
            None => claims == Err::<Claims, VerifyError>(VerifyError::MissingClaim),
        },
    }
}

/// Extracts the claims from a decoded token.
pub fn claims_of(decoded: Result<serde_json::Value, VerifyError>) -> (claims: Result<
    Claims,
    VerifyError,
>)
    ensures
        yields(outcome_of(decoded), claims),
{
    match decoded {
        Err(e) => Err(e),
        Ok(payload) => {
            let iss = string_member(&payload, "iss");
            let role = string_member(&payload, "role");
            match (iss, role) {
                (Some(iss), Some(role)) => Ok(Claims { iss, role }),
                _ => Err(VerifyError::MissingClaim),
            }
        },
    }
}

/// Verifies a bearer token against the shared secret and extracts its
/// claims.
///
/// The result rests on token and secret alone: it is what the decoding of
/// the token under the secret yields. A token whose signature does not
/// verify never yields claims.
pub fn verify(token: &str, secret: &str) -> (claims: Result<Claims, VerifyError>)
    ensures
        yields(decoding(token@, secret@), claims),
        !signature_verifies(token@, secret@) ==> claims is Err,
        claims matches Err(VerifyError::InvalidSignature) ==> !signature_verifies(token@, secret@),
{
    claims_of(decode(token, secret))
}

/// The middleware that authenticates a request before its handler runs.
pub struct JWTAuthenticationMiddleware {
    acls: Arc<Vec<ACL>>,
    secret: String,
}

impl JWTAuthenticationMiddleware {
    /// The access-control list that the middleware reads.
    pub closed spec fn acls(self) -> Seq<ACL> {
        self.acls@
    }

    /// The secret that tokens are verified against.
    pub closed spec fn secret(self) -> Seq<char> {
        self.secret@
    }

    pub fn new(secret: String, acls: Vec<ACL>) -> (middleware: JWTAuthenticationMiddleware)
        ensures
            middleware.acls() == acls@,
            middleware.secret() == secret@,
    {
        JWTAuthenticationMiddleware { acls: Arc::new(acls), secret: secret }
    }

    /// Decides whether the claimed issuer may act in the claimed role.
    pub fn acl_ok(&self, claims: &Claims) -> (ok: bool)
        ensures
            ok == permits(self.acls(), claims.iss@, claims.role@),
    {
        let mut i: usize = 0;
        while i < self.acls.len()
            invariant
                i <= self.acls().len(),
                self.acls() == self.acls@,
                forall|j: int| 0 <= j < i ==> !(#[trigger] self.acls()[j]).grants(
                    claims.iss@,
                    claims.role@,
                ),
            decreases self.acls.len() - i,
        {
            let acl = &self.acls[i];
            if acl.client_id == claims.iss && acl.has_role(&claims.role) {
                assert(self.acls()[i as int].grants(claims.iss@, claims.role@));
                return true;
            }
            i = i + 1;
        }
        false
    }

    /// What the middleware makes of a verification: verified claims that the list
    /// permits become an identity of the same issuer and role, and anything
    /// else is an authentication error.
    pub open spec fn authorizes(
        self,
        claims: Result<Claims, VerifyError>,
        agent: Result<AuthenticatedAgent, AuthenticationError>,
    ) -> bool {
        match claims {
            Ok(c) if permits(self.acls(), c.iss@, c.role@) => agent matches Ok(a) && a.name@
                == c.iss@ && a.role@ == c.role@,
            _ => agent is Err,
        }
    }

    /// Authorizes the outcome of a verification.
    pub fn authorize(&self, claims: Result<Claims, VerifyError>) -> (agent: Result<
        AuthenticatedAgent,
        AuthenticationError,
    >)
        ensures
            self.authorizes(claims, agent),
    {
        match claims {
            Ok(c) => {
                if self.acl_ok(&c) {
                    Ok(AuthenticatedAgent { name: c.iss, role: c.role })
                } else {
                    Err(AuthenticationError {  })
                }
            },
            Err(_) => Err(AuthenticationError {  }),
        }
    }

    /// The issuer and the role that a token is admitted under: those that
    /// its payload names, where the token decodes under the secret and the
    /// list permits them; none otherwise.
    pub open spec fn identity(self, token: Seq<char>) -> Option<(Seq<char>, Seq<char>)> {
        match decoding(token, self.secret()) {
            Ok(members) => match claims_among(members) {
                Some((iss, role)) => if permits(self.acls(), iss, role) {
                    Some((iss, role))
                } else {
                    None
                },
                None => None,
            },
            Err(_) => None,
        }
    }

    /// Whether `agent` is the answer to a token: the identity that the token
    /// is admitted under, by name and role, or an authentication error where
    /// it is admitted under none.
    pub open spec fn admitted(
        self,
        token: Seq<char>,
        agent: Result<AuthenticatedAgent, AuthenticationError>,
    ) -> bool {
        match self.identity(token) {
            Some((name, role)) => agent matches Ok(a) && a.name@ == name && a.role@ == role,
            None => agent is Err,
        }
    }

    /// Verifies a token and authorizes its claims.
    ///
    /// The identity that comes out carries the issuer and the role of the
    /// token itself. A token that does not decode, names no issuer or role,
    /// or claims what the list does not permit, is refused; so is every
    /// token whose signature does not verify.
    pub fn authenticate(&self, token: &str) -> (agent: Result<
        AuthenticatedAgent,
        AuthenticationError,
    >)
        ensures
            self.admitted(token@, agent),
            agent is Ok ==> signature_verifies(token@, self.secret()),
    {
        let claims = verify(token, self.secret.as_str());
        self.authorize(claims)
    }

    /// Whether `agent` is the middleware's answer to a request with this
    /// credential: the identity that the token is admitted under, by name
    /// and role, and a rejection as unauthorized where there is no token or
    /// the token is admitted under none.
    pub open spec fn guards(
        self,
        bearer: Option<Seq<char>>,
        agent: Result<AuthenticatedAgent, HttpError>,
    ) -> bool {
        match bearer {
            Some(token) => match self.identity(token) {
                Some((name, role)) => {
                    &&& agent matches Ok(a)
                    &&& a.name@ == name
                    &&& a.role@ == role
                    &&& signature_verifies(token, self.secret())
                },
                None => agent matches Err(e) && e.is_unauthorized(),
            },
            None => agent matches Err(e) && e.is_unauthorized(),
        }
    }

    /// Runs before the handler: authenticates the bearer token of a request.
    /// The identity that comes out is the one to attach to the request; a
    /// request that is turned away never reaches the handler.
    pub fn before(&self, bearer: Option<&str>) -> (agent: Result<AuthenticatedAgent, HttpError>)
        ensures
            self.guards(
                match bearer {
                    Some(t) => Some(t@),
                    None => None,
                },
                agent,
            ),
    {
        match bearer {
            Some(token) => match self.authenticate(token) {
                Ok(agent) => Ok(agent),
                Err(_) => Err(HttpError::unauthorized()),
            },
            None => Err(HttpError::unauthorized()),
        }
    }

    /// Puts the middleware before an endpoint. The chain that comes out runs the
    /// middleware first and the endpoint after it.
    pub fn add_before(self, endpoint: SensorDataHandler) -> (chain: Chain)
        ensures
            chain.middleware() == self,
            chain.endpoint() == endpoint,
    {
        Chain { middleware: self, endpoint }
    }

    /// Translates an error raised earlier in the chain into a client error
    /// that says nothing of its cause.
    pub fn catch(&self, error: HttpError) -> (translated: HttpError)
        ensures
            translated.is_message(crate::http::STATUS_BAD_REQUEST, "error"@),
    {
        HttpError::message(crate::http::STATUS_BAD_REQUEST, "error")
    }
}

/// A token that did not decode is never admitted. Whatever the decoding
/// failed on, an invalid signature among the rest, the verifier yields that
/// failure and no claims, and the middleware yields no identity.
pub proof fn failed_decoding_is_never_admitted(
    middleware: JWTAuthenticationMiddleware,
    failure: VerifyError,
    claims: Result<Claims, VerifyError>,
    agent: Result<AuthenticatedAgent, AuthenticationError>,
)
    requires
        yields(Err(failure), claims),
        middleware.authorizes(claims, agent),
    ensures
        claims == Err::<Claims, VerifyError>(failure),
        agent is Err,
{
}

/// An identity is always one that the list permits, under the issuer and
/// the role that the token's own payload names.
pub proof fn identity_is_claimed_and_permitted(
    middleware: JWTAuthenticationMiddleware,
    token: Seq<char>,
)
    ensures
        middleware.identity(token) matches Some((name, role)) ==> {
            &&& permits(middleware.acls(), name, role)
            &&& decoding(token, middleware.secret()) matches Ok(members)
            &&& claims_among(members) == Some((name, role))
        },
{
}

/// An endpoint behind the middleware.
pub struct Chain {
    middleware: JWTAuthenticationMiddleware,
    endpoint: SensorDataHandler,
}

/// The bearer token as the middleware reads it.
pub open spec fn token_of(bearer: Option<String>) -> Option<Seq<char>> {
    match bearer {
        Some(token) => Some(token@),
        None => None,
    }
}

/// Whether `result` is the answer to a request on which the middleware decided
/// `agent`: the endpoint's answer for an identity, and the middleware's rejection
/// otherwise, which the endpoint never sees.
pub open spec fn answers(
    agent: Result<AuthenticatedAgent, HttpError>,
    method: Method,
    body: Option<Vec<Message>>,
    result: Result<Reply, HttpError>,
) -> bool {
    match agent {
        Ok(a) => handles(method, body, a, result),
        Err(e) => result == Err::<Reply, HttpError>(e),
    }
}

impl Chain {
    /// The middleware of the chain.
    pub closed spec fn middleware(self) -> JWTAuthenticationMiddleware {
        self.middleware
    }

    /// The endpoint of the chain.
    pub closed spec fn endpoint(self) -> SensorDataHandler {
        self.endpoint
    }

    /// The endpoint, for its route.
    pub fn get_endpoint(&self) -> (endpoint: &SensorDataHandler)
        ensures
            *endpoint == self.endpoint(),
    {
        &self.endpoint
    }

    /// Answers a request on which the middleware has decided.
    pub fn dispatch(
        &self,
        agent: Result<AuthenticatedAgent, HttpError>,
        method: &Method,
        body: Option<Vec<Message>>,
    ) -> (result: Result<Reply, HttpError>)
        ensures
            answers(agent, *method, body, result),
    {
        match agent {
            Ok(a) => self.endpoint.handle(method, body, a),
            Err(e) => Err(e),
        }
    }

    /// Handles a request: the middleware first, then the endpoint.
    ///
    /// A request without a bearer token is unauthorized, and so is one whose
    /// token the middleware turns down, as it does every token whose
    /// signature does not verify; nothing goes to the channel for either.
    /// Otherwise the answer is the endpoint's, for an identity that the
    /// access-control list permits.
    pub fn handle(&self, request: Request) -> (result: Result<Reply, HttpError>)
        ensures
            exists|agent: Result<AuthenticatedAgent, HttpError>|
                self.middleware().guards(token_of(request.bearer), agent) && answers(
                    agent,
                    request.method,
                    request.body,
                    result,
                ),
            request.bearer is None ==> turned_away(result),
            request.bearer matches Some(token) ==> !signature_verifies(
                token@,
                self.middleware().secret(),
            ) ==> turned_away(result),
    {
        let Request { method, path: _, bearer, body } = request;
        let agent = match &bearer {
            Some(token) => self.middleware.before(Some(token.as_str())),
            None => self.middleware.before(None),
        };
        let result = self.dispatch(agent, &method, body);
        assert(self.middleware().guards(token_of(bearer), agent) && answers(agent, method, body, result));
        result
    }
}

} // verus!
