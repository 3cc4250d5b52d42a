//! The signed-request provider: IAM roles and API keys, each request signed
//! with a time-boxed HMAC-SHA256 credential.

use vstd::prelude::*;
use vstd::string::*;
use vstd::utf8::{encode_utf8, encode_utf8_decode_utf8};

use crate::clock::unix_seconds;
use crate::http::{failure_message, is_success, Header, Method, Request, Response};
use crate::signing::{
    base64_encode, base64_standard, hmac_sha256, hmac_sha256_code, lemma_base64_filling,
    lemma_base64_injective, lemma_base64_len,
};
use crate::text::{decimal, decimal_string};

verus! {

/// How a call to the provider can fail.
#[derive(Debug)]
pub enum ExoscaleError {
    /// The request did not reach the provider, or no answer came back.
    Request(String),
    /// The provider answered with a status outside 200 to 299.
    Api { status: u16, message: String },
    /// The provider answered with something of an unexpected shape.
    Protocol(String),
    /// No signature could be made.
    Signature(String),
}

impl ExoscaleError {
    /// The error in words.
    pub open spec fn text(self) -> Seq<char> {
        match self {
            ExoscaleError::Request(e) => "HTTP request failed: "@ + e@,
            ExoscaleError::Api { status, message } => "API error: "@ + message@ + " (status: "@
                + decimal(status as nat) + ")"@,
            ExoscaleError::Protocol(e) => "Invalid response: "@ + e@,
            ExoscaleError::Signature(e) => "Signature error: "@ + e@,
        }
    }

    /// The error in words.
    pub fn message(&self) -> (r: String)
        ensures
            r@ == self.text(),
    {
        match self {
            ExoscaleError::Request(e) => {
                let mut r = "HTTP request failed: ".to_owned();
                r.append(e.as_str());
                r
            },
            ExoscaleError::Api { status, message } => {
                let mut r = "API error: ".to_owned();
                r.append(message.as_str());
                r.append(" (status: ");
                r.append(decimal_string(*status as u128).as_str());
                r.append(")");
                assert(r@ =~= self.text());
                r
            },
            ExoscaleError::Protocol(e) => {
                let mut r = "Invalid response: ".to_owned();
                r.append(e.as_str());
                r
            },
            ExoscaleError::Signature(e) => {
                let mut r = "Signature error: ".to_owned();
                r.append(e.as_str());
                r
            },
        }
    }
}

/// A role of the provider's IAM.
#[derive(Clone, Debug)]
pub struct IamRole {
    pub id: String,
    pub name: Option<String>,
    pub description: Option<String>,
}

/// The answer to a call that completes later, such as the creation of a role.
#[derive(Clone, Debug)]
pub struct OperationResponse {
    pub id: String,
    pub state: String,
    pub reference: Option<OperationReference>,
}

/// The resource that an operation is about.
#[derive(Clone, Debug)]
pub struct OperationReference {
    pub id: String,
    pub link: Option<String>,
    pub command: Option<String>,
}

/// The answer to a listing of roles.
#[derive(Clone, Debug)]
pub struct IamRolesResponse {
    pub iam_roles: Vec<IamRole>,
}

/// An API key. The secret is there only in the answer to its creation.
#[derive(Clone, Debug)]
pub struct ApiKey {
    pub name: String,
    pub key: String,
    pub secret: Option<String>,
    pub role_id: Option<String>,
}

/// The answer to a listing of API keys.
#[derive(Clone, Debug)]
pub struct ApiKeysResponse {
    pub api_keys: Vec<ApiKey>,
}

/// One rule of a service policy: what to do where the expression holds.
#[derive(Clone, Debug)]
pub struct PolicyRule {
    pub action: String,
    pub expression: String,
}

/// The policy of one service.
#[derive(Clone, Debug)]
pub struct ServicePolicy {
    pub policy_type: String,
    pub rules: Option<Vec<PolicyRule>>,
}

/// The services that a role policy speaks of: object storage alone.
#[derive(Clone, Debug)]
pub struct RolePolicyServices {
    pub sos: ServicePolicy,
}

/// The policy that a role carries.
#[derive(Clone, Debug)]
pub struct RolePolicy {
    pub default_service_strategy: String,
    pub services: RolePolicyServices,
}

/// The body of the request that creates a role.
#[derive(Clone, Debug)]
pub struct CreateRoleRequest {
    pub name: String,
    pub description: String,
    pub editable: bool,
    pub policy: RolePolicy,
}

/// The body of the request that creates an API key.
#[derive(Clone, Debug)]
pub struct CreateApiKeyRequest {
    pub name: String,
    pub role_id: String,
}

/// The expression that admits listing the objects of `bucket`.
pub open spec fn list_expression(bucket: Seq<char>) -> Seq<char> {
    "operation == 'list-objects' && resources.bucket == '"@ + bucket + "'"@
}

/// The expression that admits reading, writing, deleting and probing the
/// objects of `bucket` whose key starts with `prefix`.
pub open spec fn object_expression(bucket: Seq<char>, prefix: Seq<char>) -> Seq<char> {
    "operation in ['get-object', 'put-object', 'delete-object', 'head-object'] && resources.bucket == '"@
        + bucket + "' && parameters.key.startsWith('"@ + prefix + "')"@
}

/// The role policy that denies by default and admits, in object storage,
/// listing `bucket` and working on its objects under `prefix`.
pub open spec fn is_scoped_policy(policy: RolePolicy, bucket: Seq<char>, prefix: Seq<char>) -> bool {
    &&& policy.default_service_strategy@ == "deny"@
    &&& policy.services.sos.policy_type@ == "rules"@
    &&& policy.services.sos.rules matches Some(rules)
    &&& rules@.len() == 2
    &&& rules@[0].action@ == "allow"@
    &&& rules@[0].expression@ == list_expression(bucket)
    &&& rules@[1].action@ == "allow"@
    &&& rules@[1].expression@ == object_expression(bucket, prefix)
}

impl RolePolicy {
    /// The policy of a role that may list `bucket` and work on its objects
    /// under `prefix`, and nothing else. Both are taken as they are.
    pub fn scoped(bucket: &str, prefix: &str) -> (policy: RolePolicy)
        ensures
            is_scoped_policy(policy, bucket@, prefix@),
    {
        let mut list = "operation == 'list-objects' && resources.bucket == '".to_owned();
        list.append(bucket);
        list.append("'");
        let mut objects =
            "operation in ['get-object', 'put-object', 'delete-object', 'head-object'] && resources.bucket == '".to_owned();
        objects.append(bucket);
        objects.append("' && parameters.key.startsWith('");
        objects.append(prefix);
        objects.append("')");
        assert(objects@ =~= object_expression(bucket@, prefix@));
        let mut rules: Vec<PolicyRule> = Vec::new();
        rules.push(PolicyRule { action: "allow".to_owned(), expression: list });
        rules.push(PolicyRule { action: "allow".to_owned(), expression: objects });
        RolePolicy {
            default_service_strategy: "deny".to_owned(),
            services: RolePolicyServices {
                sos: ServicePolicy { policy_type: "rules".to_owned(), rules: Some(rules) },
            },
        }
    }
}

impl CreateRoleRequest {
    /// The request for a role named `name` that cannot be edited and carries
    /// the policy scoped to `bucket` and `prefix`.
    pub fn new(name: &str, description: &str, bucket: &str, prefix: &str) -> (request: Self)
        ensures
            request.name@ == name@,
            request.description@ == description@,
            !request.editable,
            is_scoped_policy(request.policy, bucket@, prefix@),
    {
        CreateRoleRequest {
            name: name.to_owned(),
            description: description.to_owned(),
            editable: false,
            policy: RolePolicy::scoped(bucket, prefix),
        }
    }
}

impl CreateApiKeyRequest {
    /// The request for a key named `name`, bound to the role `role_id`.
    pub fn new(name: &str, role_id: &str) -> (request: Self)
        ensures
            request.name@ == name@,
            request.role_id@ == role_id@,
    {
        CreateApiKeyRequest { name: name.to_owned(), role_id: role_id.to_owned() }
    }
}

/// The seconds for which a signature stays valid.
pub const SIGNATURE_LIFETIME: u64 = 600;

/// The base of the API's addresses in `zone`.
pub open spec fn api_base_of(zone: Seq<char>) -> Seq<char> {
    "https://api-"@ + zone + ".exoscale.com"@
}

/// The message that is signed: five fields, each but the last closed by a
/// line feed. They are the method and the path with a space between, the
/// body, the query parameters and the headers that are signed, of which
/// there are none, and the time at which the signature expires.
pub open spec fn canonical_message(
    method: Seq<char>,
    path: Seq<char>,
    body: Seq<char>,
    expires: nat,
) -> Seq<char> {
    method + " "@ + path + "\n"@ + body + "\n\n\n"@ + decimal(expires)
}

/// The signature of a request: the base64 text of the HMAC-SHA256 code of
/// the canonical message under the secret, both as UTF-8.
pub open spec fn signature(
    secret: Seq<char>,
    method: Seq<char>,
    path: Seq<char>,
    body: Seq<char>,
    expires: nat,
) -> Seq<char> {
    base64_standard(message_code(secret, method, path, body, expires))
}

/// What a credential begins with: the scheme, the key, and the time at
/// which it expires, 600 seconds after `now`.
pub open spec fn credential_head(key: Seq<char>, now: nat) -> Seq<char> {
    "EXO2-HMAC-SHA256 credential="@ + key + ",expires="@ + decimal(now + 600) + ",signature="@
}

/// The credential of a request signed at `now`, which expires 600 seconds
/// later.
pub open spec fn authorization(
    key: Seq<char>,
    secret: Seq<char>,
    method: Seq<char>,
    path: Seq<char>,
    body: Seq<char>,
    now: nat,
) -> Seq<char> {
    credential_head(key, now) + signature(secret, method, path, body, now + 600)
}

/// The provider's client: a key pair and the zone's address.
pub struct Client {
    api_key: String,
    api_secret: String,
    api_base: String,
}

impl Client {
    /// The key that names the caller.
    pub closed spec fn key(&self) -> Seq<char> {
        self.api_key@
    }

    /// The secret that signs.
    pub closed spec fn secret(&self) -> Seq<char> {
        self.api_secret@
    }

    /// The address that the paths are appended to.
    pub closed spec fn base(&self) -> Seq<char> {
        self.api_base@
    }

    /// A client for `zone`.
    pub fn new(api_key: String, api_secret: String, zone: &str) -> (client: Self)
        ensures
            client.key() == api_key@,
            client.secret() == api_secret@,
            client.base() == api_base_of(zone@),
    {
        let mut api_base = "https://api-".to_owned();
        api_base.append(zone);
        api_base.append(".exoscale.com");
        Client { api_key, api_secret, api_base }
    }

    /// The credential for one request, signed at `now` (seconds since the
    /// Unix epoch) and valid for 600 seconds. The same input at the same
    /// time gives the same credential. The code has 32 bytes, so that the
    /// signature has 44 characters, the last of them the filling `=`.
    /// Signing would fail only on a secret that cannot key the code, and
    /// there is none: a secret of any length does.
    pub fn sign_request(&self, method: &str, path: &str, body: &str, now: u64) -> (r: Result<
        String,
        ExoscaleError,
    >)
        ensures
            r matches Ok(auth) && auth@ == authorization(
                self.key(),
                self.secret(),
                method@,
                path@,
                body@,
                now as nat,
            ),
            message_code(self.secret(), method@, path@, body@, (now + 600) as nat).len() == 32,
            signature(self.secret(), method@, path@, body@, (now + 600) as nat).len() == 44,
            signature(self.secret(), method@, path@, body@, (now + 600) as nat)[43] == '=',
    {
        let expires: u128 = now as u128 + SIGNATURE_LIFETIME as u128;
        let expires_text = decimal_string(expires);
        let mut message = method.to_owned();
        message.append(" ");
        message.append(path);
        message.append("\n");
        message.append(body);
        message.append("\n\n\n");
        message.append(expires_text.as_str());
        assert(message@ =~= canonical_message(method@, path@, body@, expires as nat));
        match hmac_sha256_code(self.api_secret.as_str().as_bytes(), message.as_str().as_bytes()) {
            Ok(code) => {
                let sig = base64_encode(code.as_slice());
                proof {
                    lemma_base64_len(code@);
                    lemma_base64_filling(code@);
                }
                let mut auth = "EXO2-HMAC-SHA256 credential=".to_owned();
                auth.append(self.api_key.as_str());
                auth.append(",expires=");
                auth.append(expires_text.as_str());
                auth.append(",signature=");
                auth.append(sig.as_str());
                assert(auth@ =~= authorization(
                    self.key(),
                    self.secret(),
                    method@,
                    path@,
                    body@,
                    now as nat,
                ));
                Ok(auth)
            },
            Err(e) => Err(ExoscaleError::Signature(e)),
        }
    }

    /// The headers of a request that carries the credential `auth`.
    pub fn headers(&self, auth: &str) -> (headers: Vec<Header>)
        ensures
            are_signed_headers(headers@, auth@),
    {
        let mut headers: Vec<Header> = Vec::new();
        headers.push(Header { name: "authorization".to_owned(), value: auth.to_owned() });
        headers.push(
            Header { name: "content-type".to_owned(), value: "application/json".to_owned() },
        );
        headers
    }

    /// The request with `method` to `path`, signed at `now` over `body`, or
    /// over the empty text where there is no body.
    pub fn request(&self, method: Method, path: &str, body: Option<String>, now: u64) -> (r: Result<
        Request,
        ExoscaleError,
    >)
        ensures
            r matches Ok(request) && self.is_signed_request(request, method, path@, body, now as nat),
    {
        let auth = match &body {
            Some(text) => self.sign_request(method.as_str(), path, text.as_str(), now),
            None => self.sign_request(method.as_str(), path, "", now),
        };
        proof {
            reveal_strlit("");
            assert(""@ =~= Seq::<char>::empty());
        }
        match auth {
            Ok(auth) => {
                let mut url = self.api_base.clone();
                url.append(path);
                Ok(Request { method, url, headers: self.headers(auth.as_str()), body })
            },
            Err(e) => Err(e),
        }
    }

    /// Passes a response of success on; one of failure becomes an error with
    /// its status and, for a message, the one that the body holds or else the body.
    pub fn check_response(&self, response: Response) -> (r: Result<Response, ExoscaleError>)
        ensures
            is_success(response.status) ==> r == Ok::<Response, ExoscaleError>(response),
            !is_success(response.status) ==> ({
                &&& r matches Err(ExoscaleError::Api { status, message })
                &&& status == response.status
                &&& message@ == failure_message(response)
            }),
    {
        if response.is_success() {
            Ok(response)
        } else {
            let status = response.status;
            Err(ExoscaleError::Api { status, message: response.into_failure_message() })
        }
    }

    /// The request that creates a role; `body` is the JSON text of a
    /// [`CreateRoleRequest`].
    pub fn create_role(&self, body: String, now: u64) -> (r: Result<Request, ExoscaleError>)
        ensures
            r matches Ok(request) && self.is_signed_request(
                request,
                Method::Post,
                "/v2/iam-role"@,
                Some(body),
                now as nat,
            ),
    {
        self.request(Method::Post, "/v2/iam-role", Some(body), now)
    }

    /// The request that lists the roles.
    pub fn list_roles(&self, now: u64) -> (r: Result<Request, ExoscaleError>)
        ensures
            r matches Ok(request) && self.is_signed_request(
                request,
                Method::Get,
                "/v2/iam-role"@,
                None,
                now as nat,
            ),
    {
        self.request(Method::Get, "/v2/iam-role", None, now)
    }

    /// The request that deletes the role `role_id`.
    pub fn delete_role(&self, role_id: &str, now: u64) -> (r: Result<Request, ExoscaleError>)
        ensures
            r matches Ok(request) && self.is_signed_request(
                request,
                Method::Delete,
                "/v2/iam-role/"@ + role_id@,
                None,
                now as nat,
            ),
    {
        let mut path = "/v2/iam-role/".to_owned();
        path.append(role_id);
        self.request(Method::Delete, path.as_str(), None, now)
    }

    /// The request that creates an API key; `body` is the JSON text of a
    /// [`CreateApiKeyRequest`].
    pub fn create_api_key(&self, body: String, now: u64) -> (r: Result<Request, ExoscaleError>)
        ensures
            r matches Ok(request) && self.is_signed_request(
                request,
                Method::Post,
                "/v2/api-key"@,
                Some(body),
                now as nat,
            ),
    {
        self.request(Method::Post, "/v2/api-key", Some(body), now)
    }

    /// The request that lists the API keys.
    pub fn list_api_keys(&self, now: u64) -> (r: Result<Request, ExoscaleError>)
        ensures
            r matches Ok(request) && self.is_signed_request(
                request,
                Method::Get,
                "/v2/api-key"@,
                None,
                now as nat,
            ),
    {
        self.request(Method::Get, "/v2/api-key", None, now)
    }

    /// The request that deletes the API key `key`.
    pub fn delete_api_key(&self, key: &str, now: u64) -> (r: Result<Request, ExoscaleError>)
        ensures
            r matches Ok(request) && self.is_signed_request(
                request,
                Method::Delete,
                "/v2/api-key/"@ + key@,
                None,
                now as nat,
            ),
    {
        let mut path = "/v2/api-key/".to_owned();
        path.append(key);
        self.request(Method::Delete, path.as_str(), None, now)
    }

    /// Whether `request` is the one with `method` to `path` and with `body`,
    /// signed at `now`.
    pub open spec fn is_signed_request(
        &self,
        request: Request,
        method: Method,
        path: Seq<char>,
        body: Option<String>,
        now: nat,
    ) -> bool {
        &&& request.method == method
        &&& request.url@ == self.base() + path
        &&& request.body == body
        &&& are_signed_headers(
            request.headers@,
            authorization(
                self.key(),
                self.secret(),
                method.name(),
                path,
                match body {
                    Some(text) => text@,
                    None => Seq::empty(),
                },
                now,
            ),
        )
    }
}

/// The time at which to sign now: the seconds since the start of 1970 by
/// the system's clock. A clock that stands before 1970 gives no time to
/// sign at.
pub fn signing_time() -> (r: Result<u64, ExoscaleError>)
    ensures
        r matches Err(e) ==> e is Signature,
{
    signing_time_from(unix_seconds())
}

/// The time at which to sign, given what the clock gave: its seconds. The
/// error of a clock that failed is passed on as that of signing.
pub fn signing_time_from(reading: Result<u64, String>) -> (r: Result<u64, ExoscaleError>)
    ensures
        match reading {
            Ok(now) => r == Ok::<u64, ExoscaleError>(now),
            Err(e) => r == Err::<u64, ExoscaleError>(ExoscaleError::Signature(e)),
        },
{
    match reading {
        Ok(now) => Ok(now),
        Err(e) => Err(ExoscaleError::Signature(e)),
    }
}

/// Whether `c` occurs nowhere in `s`.
pub open spec fn lacks(s: Seq<char>, c: char) -> bool {
    forall|i: int| 0 <= i < s.len() ==> s[i] != c
}

/// The canonical message tells method, path and body apart: two messages
/// for the same expiry are equal only where all three are, provided that no
/// method holds a space and no path a line feed.
pub proof fn lemma_canonical_message_injective(
    method1: Seq<char>,
    path1: Seq<char>,
    body1: Seq<char>,
    method2: Seq<char>,
    path2: Seq<char>,
    body2: Seq<char>,
    expires: nat,
)
    requires
        lacks(method1, ' '),
        lacks(method2, ' '),
        lacks(path1, '\n'),
        lacks(path2, '\n'),
        canonical_message(method1, path1, body1, expires) == canonical_message(
            method2,
            path2,
            body2,
            expires,
        ),
    ensures
        method1 == method2,
        path1 == path2,
        body1 == body2,
{
    reveal_strlit(" ");
    reveal_strlit("\n");
    reveal_strlit("\n\n\n");
    let end = "\n\n\n"@ + decimal(expires);
    let m1 = canonical_message(method1, path1, body1, expires);
    let m2 = canonical_message(method2, path2, body2, expires);
    assert(m1 =~= method1 + seq![' '] + path1 + seq!['\n'] + body1 + end);
    assert(m2 =~= method2 + seq![' '] + path2 + seq!['\n'] + body2 + end);
    let a = method1.len() as int;
    let b = method2.len() as int;
    assert(a == b) by {
        if a < b {
            assert(m1[a] == ' ');
            assert(m2[a] == method2[a]);
        } else if b < a {
            assert(m2[b] == ' ');
            assert(m1[b] == method1[b]);
        }
    }
    assert(method1 =~= method2) by {
        assert forall|i: int| 0 <= i < a implies method1[i] == method2[i] by {
            assert(m1[i] == method1[i]);
            assert(m2[i] == method2[i]);
        }
    }
    let c = path1.len() as int;
    let d = path2.len() as int;
    assert(c == d) by {
        if c < d {
            assert(m1[a + 1 + c] == '\n');
            assert(m2[a + 1 + c] == path2[c]);
        } else if d < c {
            assert(m2[a + 1 + d] == '\n');
            assert(m1[a + 1 + d] == path1[d]);
        }
    }
    assert(path1 =~= path2) by {
        assert forall|i: int| 0 <= i < c implies path1[i] == path2[i] by {
            assert(m1[a + 1 + i] == path1[i]);
            assert(m2[a + 1 + i] == path2[i]);
        }
    }
    assert(m1.len() == a + 1 + c + 1 + body1.len() + end.len());
    assert(m2.len() == a + 1 + c + 1 + body2.len() + end.len());
    assert(body1 =~= body2) by {
        assert forall|i: int| 0 <= i < body1.len() implies body1[i] == body2[i] by {
            assert(m1[a + 1 + c + 1 + i] == body1[i]);
            assert(m2[a + 1 + c + 1 + i] == body2[i]);
        }
    }
}

/// Requests that differ in method, path or body are signed over different
/// bytes at the same time, provided that no method holds a space and no
/// path a line feed: the code of each is then that of another message.
pub proof fn lemma_signed_bytes_differ(
    method1: Seq<char>,
    path1: Seq<char>,
    body1: Seq<char>,
    method2: Seq<char>,
    path2: Seq<char>,
    body2: Seq<char>,
    expires: nat,
)
    requires
        lacks(method1, ' '),
        lacks(method2, ' '),
        lacks(path1, '\n'),
        lacks(path2, '\n'),
        method1 != method2 || path1 != path2 || body1 != body2,
    ensures
        canonical_message(method1, path1, body1, expires) != canonical_message(
            method2,
            path2,
            body2,
            expires,
        ),
        encode_utf8(canonical_message(method1, path1, body1, expires)) != encode_utf8(
            canonical_message(method2, path2, body2, expires),
        ),
{
    let m1 = canonical_message(method1, path1, body1, expires);
    let m2 = canonical_message(method2, path2, body2, expires);
    if m1 == m2 {
        lemma_canonical_message_injective(method1, path1, body1, method2, path2, body2, expires);
    }
    encode_utf8_decode_utf8(m1);
    encode_utf8_decode_utf8(m2);
}

/// The code of the message that a request is signed over.
pub open spec fn message_code(
    secret: Seq<char>,
    method: Seq<char>,
    path: Seq<char>,
    body: Seq<char>,
    expires: nat,
) -> Seq<u8> {
    hmac_sha256(encode_utf8(secret), encode_utf8(canonical_message(method, path, body, expires)))
}

/// Two requests signed with one key pair at one time carry the same key
/// and expiry, and their signatures, and so their credentials, differ
/// exactly where the codes of their two messages differ. That messages
/// which differ have codes which differ is what is expected of the code; it
/// cannot be proved of it.
pub proof fn lemma_signatures_differ(
    key: Seq<char>,
    secret: Seq<char>,
    method1: Seq<char>,
    path1: Seq<char>,
    body1: Seq<char>,
    method2: Seq<char>,
    path2: Seq<char>,
    body2: Seq<char>,
    now: nat,
)
    ensures
        authorization(key, secret, method1, path1, body1, now) == credential_head(key, now)
            + signature(secret, method1, path1, body1, now + 600),
        authorization(key, secret, method2, path2, body2, now) == credential_head(key, now)
            + signature(secret, method2, path2, body2, now + 600),
        (signature(secret, method1, path1, body1, now + 600) == signature(
            secret,
            method2,
            path2,
            body2,
            now + 600,
        )) == (message_code(secret, method1, path1, body1, now + 600) == message_code(
            secret,
            method2,
            path2,
            body2,
            now + 600,
        )),
        (authorization(key, secret, method1, path1, body1, now) == authorization(
            key,
            secret,
            method2,
            path2,
            body2,
            now,
        )) == (message_code(secret, method1, path1, body1, now + 600) == message_code(
            secret,
            method2,
            path2,
            body2,
            now + 600,
        )),
{
    let s1 = signature(secret, method1, path1, body1, now + 600);
    let s2 = signature(secret, method2, path2, body2, now + 600);
    if s1 == s2 {
        lemma_base64_injective(
            message_code(secret, method1, path1, body1, now + 600),
            message_code(secret, method2, path2, body2, now + 600),
        );
    }
    let head = credential_head(key, now);
    assert((head + s1).skip(head.len() as int) =~= s1);
    assert((head + s2).skip(head.len() as int) =~= s2);
}

/// Whether `headers` are those of a signed request: the credential, and the
/// content type of JSON.
pub open spec fn are_signed_headers(headers: Seq<Header>, auth: Seq<char>) -> bool {
    &&& headers.len() == 2
    &&& headers[0].name@ == "authorization"@
    &&& headers[0].value@ == auth
    &&& headers[1].name@ == "content-type"@
    &&& headers[1].value@ == "application/json"@
}

/// The role that an operation has created: its identifier is that of the
/// operation's reference. An operation without a reference is an error.
pub fn role_from_operation(operation: OperationResponse, name: &str, description: &str) -> (r:
    Result<IamRole, ExoscaleError>)
    ensures
        match operation.reference {
            Some(reference) => ({
                &&& r matches Ok(role)
                &&& role.id == reference.id
                &&& role.name matches Some(n)
                &&& n@ == name@
                &&& role.description matches Some(d)
                &&& d@ == description@
            }),
            None => ({
                &&& r matches Err(ExoscaleError::Protocol(m))
                &&& m@ == "No reference in operation response"@
            }),
        },
{
    match operation.reference {
        Some(reference) => Ok(
            IamRole {
                id: reference.id,
                name: Some(name.to_owned()),
                description: Some(description.to_owned()),
            },
        ),
        None => Err(ExoscaleError::Protocol("No reference in operation response".to_owned())),
    }
}

/// What reading or writing a JSON shape gave: the value, or else the error
/// of an unexpected shape, which says what was tried (`context`) and why it
/// failed.
pub fn expect_shape<T>(outcome: Result<T, String>, context: &str) -> (r: Result<T, ExoscaleError>)
    ensures
        match outcome {
            Ok(value) => r == Ok::<T, ExoscaleError>(value),
            Err(e) => ({
                &&& r matches Err(ExoscaleError::Protocol(m))
                &&& m@ == context@ + ": "@ + e@
            }),
        },
{
    match outcome {
        Ok(value) => Ok(value),
        Err(e) => {
            let mut m = context.to_owned();
            m.append(": ");
            m.append(e.as_str());
            Err(ExoscaleError::Protocol(m))
        },
    }
}

/// The access key and the secret of a key that was just created. A key
/// without its secret is an error.
pub fn key_pair(api_key: ApiKey) -> (r: Result<(String, String), ExoscaleError>)
    ensures
        match api_key.secret {
            Some(secret) => r == Ok::<(String, String), ExoscaleError>((api_key.key, secret)),
            None => ({
                &&& r matches Err(ExoscaleError::Protocol(m))
                &&& m@ == "API key response missing secret"@
            }),
        },
{
    match api_key.secret {
        Some(secret) => Ok((api_key.key, secret)),
        None => Err(ExoscaleError::Protocol("API key response missing secret".to_owned())),
    }
}

} // verus!
