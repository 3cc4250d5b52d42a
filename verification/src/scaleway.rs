//! The static-key provider: IAM applications, policies and API keys, each
//! request carrying the secret key in a header.

use vstd::prelude::*;
use vstd::string::*;

use crate::http::{failure_message, is_success, Header, Method, Response};
use crate::text::{decimal, decimal_string};

verus! {

/// How a call to the provider can fail.
#[derive(Debug)]
pub enum ScalewayError {
    /// The request did not reach the provider, or no answer came back.
    Request(String),
    /// The provider answered with a status outside 200 to 299.
    Api { status: u16, message: String },
    /// The provider answered with something of an unexpected shape.
    InvalidResponse(String),
}

impl ScalewayError {
    /// The error in words.
    pub open spec fn text(self) -> Seq<char> {
        match self {
            ScalewayError::Request(e) => "HTTP request failed: "@ + e@,
            ScalewayError::Api { status, message } => "API error: "@ + message@ + " (status: "@
                + decimal(status as nat) + ")"@,
            ScalewayError::InvalidResponse(e) => "Invalid response: "@ + e@,
        }
    }

    /// The error in words.
    pub fn message(&self) -> (r: String)
        ensures
            r@ == self.text(),
    {
        match self {
            ScalewayError::Request(e) => {
                let mut r = "HTTP request failed: ".to_owned();
                r.append(e.as_str());
                r
            },
            ScalewayError::Api { status, message } => {
                let mut r = "API error: ".to_owned();
                r.append(message.as_str());
                r.append(" (status: ");
                r.append(decimal_string(*status as u128).as_str());
                r.append(")");
                assert(r@ =~= self.text());
                r
            },
            ScalewayError::InvalidResponse(e) => {
                let mut r = "Invalid response: ".to_owned();
                r.append(e.as_str());
                r
            },
        }
    }
}

/// An application of the provider's IAM.
#[derive(Clone, Debug)]
pub struct Application {
    pub id: String,
    pub name: String,
    pub description: Option<String>,
    pub created_at: Option<String>,
    pub organization_id: Option<String>,
}

/// A policy attached to an application.
#[derive(Clone, Debug)]
pub struct Policy {
    pub id: String,
    pub name: String,
    pub description: Option<String>,
}

/// An API key. The secret is there only in the answer to its creation.
#[derive(Clone, Debug)]
pub struct ApiKey {
    pub access_key: String,
    pub secret_key: Option<String>,
    pub application_id: Option<String>,
    pub description: Option<String>,
}

/// The body of the request that creates an application.
#[derive(Clone, Debug)]
pub struct CreateApplicationRequest {
    pub name: String,
    pub description: String,
    pub organization_id: String,
}

/// One rule of a policy: permission sets, granted in projects.
#[derive(Clone, Debug)]
pub struct PolicyRule {
    pub project_ids: Vec<String>,
    pub permission_set_names: Vec<String>,
}

/// The body of the request that creates a policy.
#[derive(Clone, Debug)]
pub struct CreatePolicyRequest {
    pub name: String,
    pub organization_id: String,
    pub application_id: String,
    pub rules: Vec<PolicyRule>,
}

/// The body of the request that creates an API key.
#[derive(Clone, Debug)]
pub struct CreateApiKeyRequest {
    pub application_id: String,
    pub description: String,
    pub default_project_id: Option<String>,
}

/// What a call sends as its body.
#[derive(Clone, Debug)]
pub enum Payload {
    CreateApplication(CreateApplicationRequest),
    CreatePolicy(CreatePolicyRequest),
    CreateApiKey(CreateApiKeyRequest),
}

/// One call to the provider: where it goes and what it carries.
#[derive(Clone, Debug)]
pub struct Call {
    pub method: Method,
    pub url: String,
    pub headers: Vec<Header>,
    pub payload: Option<Payload>,
}

/// The address of the IAM API.
pub open spec fn iam_api_base() -> Seq<char> {
    "https://api.scaleway.com/iam/v1alpha1"@
}

/// Whether `rule` grants, in `project_id` alone, to read, write and delete
/// objects, and nothing else.
pub open spec fn is_object_rule(rule: PolicyRule, project_id: Seq<char>) -> bool {
    &&& rule.project_ids@.len() == 1
    &&& rule.project_ids@[0]@ == project_id
    &&& rule.permission_set_names@.len() == 3
    &&& rule.permission_set_names@[0]@ == "ObjectStorageObjectsRead"@
    &&& rule.permission_set_names@[1]@ == "ObjectStorageObjectsWrite"@
    &&& rule.permission_set_names@[2]@ == "ObjectStorageObjectsDelete"@
}

/// Whether `headers` are those of a call: the secret key, and the content
/// type of JSON.
pub open spec fn are_call_headers(headers: Seq<Header>, secret_key: Seq<char>) -> bool {
    &&& headers.len() == 2
    &&& headers[0].name@ == "X-Auth-Token"@
    &&& headers[0].value@ == secret_key
    &&& headers[1].name@ == "content-type"@
    &&& headers[1].value@ == "application/json"@
}

impl PolicyRule {
    /// The rule that grants, in `project_id`, to read, write and delete
    /// objects: never to manage buckets, never full access.
    pub fn objects_in(project_id: &str) -> (rule: PolicyRule)
        ensures
            is_object_rule(rule, project_id@),
    {
        let mut project_ids: Vec<String> = Vec::new();
        project_ids.push(project_id.to_owned());
        let mut permission_set_names: Vec<String> = Vec::new();
        permission_set_names.push("ObjectStorageObjectsRead".to_owned());
        permission_set_names.push("ObjectStorageObjectsWrite".to_owned());
        permission_set_names.push("ObjectStorageObjectsDelete".to_owned());
        PolicyRule { project_ids, permission_set_names }
    }
}

/// The provider's client: the secret key.
pub struct Client {
    secret_key: String,
}

impl Client {
    /// The secret that each call carries.
    pub closed spec fn secret(&self) -> Seq<char> {
        self.secret_key@
    }

    /// A client that calls with `secret_key`.
    pub fn new(secret_key: String) -> (client: Self)
        ensures
            client.secret() == secret_key@,
    {
        Client { secret_key }
    }

    /// The headers of each call.
    pub fn headers(&self) -> (headers: Vec<Header>)
        ensures
            are_call_headers(headers@, self.secret()),
    {
        let mut headers: Vec<Header> = Vec::new();
        headers.push(Header { name: "X-Auth-Token".to_owned(), value: self.secret_key.clone() });
        headers.push(
            Header { name: "content-type".to_owned(), value: "application/json".to_owned() },
        );
        headers
    }

    /// Whether `call` goes with `method` to `path` under the API's address,
    /// with this client's headers.
    pub open spec fn is_call(&self, call: Call, method: Method, path: Seq<char>) -> bool {
        &&& call.method == method
        &&& call.url@ == iam_api_base() + path
        &&& are_call_headers(call.headers@, self.secret())
    }

    fn call(&self, method: Method, path: &str, tail: &str, payload: Option<Payload>) -> (call: Call)
        ensures
            self.is_call(call, method, path@ + tail@),
            call.payload == payload,
    {
        let mut url = "https://api.scaleway.com/iam/v1alpha1".to_owned();
        url.append(path);
        url.append(tail);
        assert(url@ =~= iam_api_base() + (path@ + tail@));
        Call { method, url, headers: self.headers(), payload }
    }

    /// Passes a response of success on; one of failure becomes an error with
    /// its status and, for a message, the one that the body holds or else the body.
    pub fn check_response(&self, response: Response) -> (r: Result<Response, ScalewayError>)
        ensures
            is_success(response.status) ==> r == Ok::<Response, ScalewayError>(response),
            !is_success(response.status) ==> ({
                &&& r matches Err(ScalewayError::Api { status, message })
                &&& status == response.status
                &&& message@ == failure_message(response)
            }),
    {
        if response.is_success() {
            Ok(response)
        } else {
            let status = response.status;
            Err(ScalewayError::Api { status, message: response.into_failure_message() })
        }
    }

    /// The call that creates an application.
    pub fn create_application(&self, name: &str, description: &str, organization_id: &str) -> (call:
        Call)
        ensures
            self.is_call(call, Method::Post, "/applications"@),
            call.payload matches Some(Payload::CreateApplication(p)) && p.name@ == name@
                && p.description@ == description@ && p.organization_id@ == organization_id@,
    {
        let payload = CreateApplicationRequest {
            name: name.to_owned(),
            description: description.to_owned(),
            organization_id: organization_id.to_owned(),
        };
        proof {
            reveal_strlit("");
            assert("/applications"@ + ""@ =~= "/applications"@);
        }
        self.call(Method::Post, "/applications", "", Some(Payload::CreateApplication(payload)))
    }

    /// The call that lists the applications of an organization.
    pub fn list_applications(&self, organization_id: &str) -> (call: Call)
        ensures
            self.is_call(
                call,
                Method::Get,
                "/applications?organization_id="@ + organization_id@,
            ),
            call.payload is None,
    {
        self.call(Method::Get, "/applications?organization_id=", organization_id, None)
    }

    /// The call that deletes an application.
    pub fn delete_application(&self, application_id: &str) -> (call: Call)
        ensures
            self.is_call(call, Method::Delete, "/applications/"@ + application_id@),
            call.payload is None,
    {
        self.call(Method::Delete, "/applications/", application_id, None)
    }

    /// The call that creates a policy for an application: object reading,
    /// writing and deleting in one project.
    pub fn create_policy(
        &self,
        name: &str,
        application_id: &str,
        organization_id: &str,
        project_id: &str,
    ) -> (call: Call)
        ensures
            self.is_call(call, Method::Post, "/policies"@),
            call.payload matches Some(Payload::CreatePolicy(p)) && p.name@ == name@
                && p.organization_id@ == organization_id@ && p.application_id@ == application_id@
                && p.rules@.len() == 1 && is_object_rule(p.rules@[0], project_id@),
    {
        let mut rules: Vec<PolicyRule> = Vec::new();
        rules.push(PolicyRule::objects_in(project_id));
        let payload = CreatePolicyRequest {
            name: name.to_owned(),
            organization_id: organization_id.to_owned(),
            application_id: application_id.to_owned(),
            rules,
        };
        proof {
            reveal_strlit("");
            assert("/policies"@ + ""@ =~= "/policies"@);
        }
        self.call(Method::Post, "/policies", "", Some(Payload::CreatePolicy(payload)))
    }

    /// The call that lists the policies of an application.
    pub fn list_policies(&self, application_id: &str) -> (call: Call)
        ensures
            self.is_call(call, Method::Get, "/policies?application_id="@ + application_id@),
            call.payload is None,
    {
        self.call(Method::Get, "/policies?application_id=", application_id, None)
    }

    /// The call that deletes a policy.
    pub fn delete_policy(&self, policy_id: &str) -> (call: Call)
        ensures
            self.is_call(call, Method::Delete, "/policies/"@ + policy_id@),
            call.payload is None,
    {
        self.call(Method::Delete, "/policies/", policy_id, None)
    }

    /// The call that creates an API key for an application.
    pub fn create_api_key(
        &self,
        application_id: &str,
        description: &str,
        default_project_id: Option<&str>,
    ) -> (call: Call)
        ensures
            self.is_call(call, Method::Post, "/api-keys"@),
            call.payload matches Some(Payload::CreateApiKey(p)) && p.application_id@
                == application_id@ && p.description@ == description@ && match default_project_id {
                Some(project) => p.default_project_id matches Some(d) && d@ == project@,
                None => p.default_project_id is None,
            },
    {
        let payload = CreateApiKeyRequest {
            application_id: application_id.to_owned(),
            description: description.to_owned(),
            default_project_id: match default_project_id {
                Some(project) => Some(project.to_owned()),
                None => None,
            },
        };
        proof {
            reveal_strlit("");
            assert("/api-keys"@ + ""@ =~= "/api-keys"@);
        }
        self.call(Method::Post, "/api-keys", "", Some(Payload::CreateApiKey(payload)))
    }

    /// The call that lists the API keys of an application.
    pub fn list_api_keys(&self, application_id: &str) -> (call: Call)
        ensures
            self.is_call(call, Method::Get, "/api-keys?application_id="@ + application_id@),
            call.payload is None,
    {
        self.call(Method::Get, "/api-keys?application_id=", application_id, None)
    }

    /// The call that deletes an API key.
    pub fn delete_api_key(&self, access_key: &str) -> (call: Call)
        ensures
            self.is_call(call, Method::Delete, "/api-keys/"@ + access_key@),
            call.payload is None,
    {
        self.call(Method::Delete, "/api-keys/", access_key, None)
    }
}

/// What reading or writing a JSON shape gave: the value, or else the error
/// of an unexpected shape, which says what was tried (`context`) and why it
/// failed.
pub fn expect_shape<T>(outcome: Result<T, String>, context: &str) -> (r: Result<T, ScalewayError>)
    ensures
        match outcome {
            Ok(value) => r == Ok::<T, ScalewayError>(value),
            Err(e) => ({
                &&& r matches Err(ScalewayError::InvalidResponse(m))
                &&& m@ == context@ + ": "@ + e@
            }),
        },
{
    match outcome {
        Ok(value) => Ok(value),
        Err(e) => {
            let mut m = context.to_owned();
            m.append(": ");
            m.append(e.as_str());
            Err(ScalewayError::InvalidResponse(m))
        },
    }
}

/// The access key and the secret of a key that was just created. A key
/// without its secret is an error.
pub fn key_pair(api_key: ApiKey) -> (r: Result<(String, String), ScalewayError>)
    ensures
        match api_key.secret_key {
            Some(secret) => r == Ok::<(String, String), ScalewayError>((api_key.access_key, secret)),
            None => ({
                &&& r matches Err(ScalewayError::InvalidResponse(m))
                &&& m@ == "API key response missing secret"@
            }),
        },
{
    match api_key.secret_key {
        Some(secret) => Ok((api_key.access_key, secret)),
        None => Err(ScalewayError::InvalidResponse("API key response missing secret".to_owned())),
    }
}

} // verus!
