//! Provisioning an application step by step: what to do next, given what
//! the last step brought. The caller performs each action and reports back.

use vstd::prelude::*;
use vstd::string::*;

use crate::config::{
    exoscale_endpoint, scaleway_endpoint, ExoscaleProviderConfig, ProviderConfig,
    ScalewayProviderConfig,
};
use crate::json::{Json, JsonValue, Member};
use crate::policy::{bucket_policy_statement, statement_value};
use crate::exoscale::{ApiKey, IamRole};
use crate::text::{has_prefix, join2, same, strip_prefix};

verus! {

/// The two kinds of provider.
#[derive(Clone, Copy, Debug, PartialEq, Eq, Structural)]
pub enum ProviderKind {
    /// Calls carry a secret key; access is scoped by a policy and by the
    /// bucket's own policy.
    StaticKey,
    /// Calls are signed; a role carries its policy.
    SignedRequest,
}

/// The steps of provisioning, in the order in which a provider takes those
/// that it has.
#[derive(Clone, Copy, Debug, PartialEq, Eq, Structural)]
pub enum Stage {
    EnsureBucket,
    CreatePrincipal,
    CreateScopedPolicy,
    WaitPropagation,
    CreateApiKey,
    ApplyBucketPolicy,
    Done,
    Failed,
}

/// What provisioning hands out in the end. The secret is in no other place.
#[derive(Clone, Debug)]
pub struct CredentialBundle {
    pub provider: ProviderKind,
    pub access_key: String,
    pub secret_key: String,
    pub endpoint: String,
    /// The region of a static-key provider, the zone of a signed-request one.
    pub location: String,
    pub bucket: String,
    pub prefix: String,
}

/// Why provisioning stopped: at which step, of which provider, and what
/// came back.
#[derive(Clone, Debug)]
pub struct ProvisionError {
    pub provider: ProviderKind,
    pub stage: Stage,
    pub message: String,
}

/// What the caller is to do next.
#[derive(Debug)]
pub enum Action {
    /// See that the bucket exists: list it, and create it where that fails.
    EnsureBucket { endpoint: String, region: String, access_key: String, secret_key: String, bucket: String },
    /// Create the application of a static-key provider.
    CreateApplication { name: String, description: String, organization_id: String },
    /// Create the policy that scopes an application to objects of a project.
    CreatePolicy { name: String, application_id: String, organization_id: String, project_id: String },
    /// Create the API key of an application.
    CreateApplicationKey { application_id: String, description: String, default_project_id: String },
    /// Merge the statement into the bucket's policy and write the policy back.
    ApplyBucketPolicy { endpoint: String, bucket: String, statement: Json },
    /// Create the role of a signed-request provider, with its policy.
    CreateRole { name: String, description: String, bucket: String, prefix: String },
    /// Let the given seconds pass.
    Wait { seconds: u64 },
    /// Create the API key of a role.
    CreateRoleKey { name: String, role_id: String },
    /// Hand the credentials out: provisioning is done.
    Emit(CredentialBundle),
    /// Stop: provisioning has failed. Nothing that was created is taken back.
    Abort(ProvisionError),
}

/// What the last action brought.
#[derive(Debug)]
pub enum Event {
    BucketReady,
    PrincipalCreated { id: String },
    PolicyCreated { id: String },
    KeyCreated { access_key: String, secret: Option<String> },
    BucketPolicyApplied,
    Waited,
    /// The action failed, with this message.
    Failed { message: String },
}

/// The seconds that a new role is given before a key is bound to it.
pub const PROPAGATION_DELAY: u64 = 3;

/// The prefix under which an application of a static-key provider lives.
pub open spec fn static_key_prefix(name: Seq<char>) -> Seq<char> {
    "apps/"@ + name
}

/// The prefix under which an application of a signed-request provider lives.
pub open spec fn signed_request_prefix(name: Seq<char>) -> Seq<char> {
    "apps/"@ + name + "/"@
}

/// The name of the role of an application.
pub open spec fn role_name(name: Seq<char>) -> Seq<char> {
    "proprion-"@ + name
}

/// The name of the API key of an application's role.
pub open spec fn role_key_name(name: Seq<char>) -> Seq<char> {
    "proprion-"@ + name + "-key"@
}

/// The name of the policy of an application.
pub open spec fn policy_name(name: Seq<char>) -> Seq<char> {
    name + "-policy"@
}

/// The description of the API key of an application.
pub open spec fn key_description(name: Seq<char>) -> Seq<char> {
    "API key for "@ + name
}

/// What a step that failed was about.
pub open spec fn context_of(provider: ProviderKind, stage: Stage) -> Seq<char> {
    match stage {
        Stage::EnsureBucket => "Failed to create bucket"@,
        Stage::CreatePrincipal => match provider {
            ProviderKind::StaticKey => "Failed to create application"@,
            ProviderKind::SignedRequest => "Failed to create IAM role"@,
        },
        Stage::CreateScopedPolicy => "Failed to create policy"@,
        Stage::WaitPropagation => "Failed to wait for the role"@,
        Stage::CreateApiKey => "Failed to create API key"@,
        Stage::ApplyBucketPolicy => "Failed to apply bucket policy"@,
        Stage::Done => "Provisioning is done"@,
        Stage::Failed => "Provisioning has failed"@,
    }
}

impl ProvisionError {
    /// The error in words: what the step was about, and what came back.
    pub open spec fn text(self) -> Seq<char> {
        context_of(self.provider, self.stage) + ": "@ + self.message@
    }

    /// What the step that failed was about.
    pub fn context(&self) -> (r: &'static str)
        ensures
            r@ == context_of(self.provider, self.stage),
    {
        match self.stage {
            Stage::EnsureBucket => "Failed to create bucket",
            Stage::CreatePrincipal => match self.provider {
                ProviderKind::StaticKey => "Failed to create application",
                ProviderKind::SignedRequest => "Failed to create IAM role",
            },
            Stage::CreateScopedPolicy => "Failed to create policy",
            Stage::WaitPropagation => "Failed to wait for the role",
            Stage::CreateApiKey => "Failed to create API key",
            Stage::ApplyBucketPolicy => "Failed to apply bucket policy",
            Stage::Done => "Provisioning is done",
            Stage::Failed => "Provisioning has failed",
        }
    }

    /// The error in words.
    pub fn message(&self) -> (r: String)
        ensures
            r@ == self.text(),
    {
        let mut r = self.context().to_owned();
        r.append(": ");
        r.append(self.message.as_str());
        r
    }
}

/// The members of a bundle as JSON: the location is named `region` for a
/// static-key provider and `zone` for a signed-request one.
pub open spec fn bundle_value(bundle: CredentialBundle) -> JsonValue {
    JsonValue::Object(
        seq![
            ("access_key"@, JsonValue::Text(bundle.access_key@)),
            ("secret_key"@, JsonValue::Text(bundle.secret_key@)),
            ("endpoint"@, JsonValue::Text(bundle.endpoint@)),
            (
                match bundle.provider {
                    ProviderKind::StaticKey => "region"@,
                    ProviderKind::SignedRequest => "zone"@,
                },
                JsonValue::Text(bundle.location@),
            ),
            ("bucket"@, JsonValue::Text(bundle.bucket@)),
            ("prefix"@, JsonValue::Text(bundle.prefix@)),
        ],
    )
}

impl CredentialBundle {
    /// The bundle as a JSON object.
    pub fn to_json(&self) -> (json: Json)
        ensures
            json@ == bundle_value(*self),
    {
        let label = match self.provider {
            ProviderKind::StaticKey => "region",
            ProviderKind::SignedRequest => "zone",
        };
        let mut members: Vec<Member> = Vec::new();
        members.push(Member::new("access_key", Json::text(self.access_key.as_str())));
        members.push(Member::new("secret_key", Json::text(self.secret_key.as_str())));
        members.push(Member::new("endpoint", Json::text(self.endpoint.as_str())));
        members.push(Member::new(label, Json::text(self.location.as_str())));
        members.push(Member::new("bucket", Json::text(self.bucket.as_str())));
        members.push(Member::new("prefix", Json::text(self.prefix.as_str())));
        let json = Json::object(members);
        assert(json@->Object_0 =~= bundle_value(*self)->Object_0);
        json
    }
}

/// Where the provisioning of an application with a static-key provider
/// stands, with what the steps so far have brought.
#[derive(Clone, Debug)]
pub enum ScalewayState {
    EnsureBucket,
    CreatePrincipal,
    CreateScopedPolicy { application_id: String },
    CreateApiKey { application_id: String },
    ApplyBucketPolicy { access_key: String, secret_key: String },
    Done,
    Failed,
}

impl ScalewayState {
    /// The step that the state waits for.
    pub open spec fn stage(self) -> Stage {
        match self {
            ScalewayState::EnsureBucket => Stage::EnsureBucket,
            ScalewayState::CreatePrincipal => Stage::CreatePrincipal,
            ScalewayState::CreateScopedPolicy { .. } => Stage::CreateScopedPolicy,
            ScalewayState::CreateApiKey { .. } => Stage::CreateApiKey,
            ScalewayState::ApplyBucketPolicy { .. } => Stage::ApplyBucketPolicy,
            ScalewayState::Done => Stage::Done,
            ScalewayState::Failed => Stage::Failed,
        }
    }

    /// The step that the state waits for.
    pub fn current_stage(&self) -> (r: Stage)
        ensures
            r == self.stage(),
    {
        match self {
            ScalewayState::EnsureBucket => Stage::EnsureBucket,
            ScalewayState::CreatePrincipal => Stage::CreatePrincipal,
            ScalewayState::CreateScopedPolicy { .. } => Stage::CreateScopedPolicy,
            ScalewayState::CreateApiKey { .. } => Stage::CreateApiKey,
            ScalewayState::ApplyBucketPolicy { .. } => Stage::ApplyBucketPolicy,
            ScalewayState::Done => Stage::Done,
            ScalewayState::Failed => Stage::Failed,
        }
    }
}

/// The provisioning of one application with a static-key provider: ensure
/// the bucket, create the application, its policy and its key, apply the
/// bucket policy, hand the credentials out.
#[derive(Debug)]
pub struct ScalewayFlow {
    pub config: ScalewayProviderConfig,
    pub name: String,
    pub description: String,
    pub state: ScalewayState,
}

impl ScalewayFlow {
    /// Whether `action` asks to ensure the flow's bucket.
    pub open spec fn asks_for_bucket(self, action: Action) -> bool {
        &&& action matches Action::EnsureBucket { endpoint, region, access_key, secret_key, bucket }
        &&& endpoint@ == scaleway_endpoint(self.config.region@)
        &&& region == self.config.region
        &&& access_key == self.config.access_key
        &&& secret_key == self.config.secret_key
        &&& bucket == self.config.bucket
    }

    /// Whether `action` stops the flow at its step, with `message`.
    pub open spec fn aborts_with(self, action: Action, message: Seq<char>) -> bool {
        &&& action matches Action::Abort(error)
        &&& error.provider == ProviderKind::StaticKey
        &&& error.stage == self.state.stage()
        &&& error.message@ == message
    }

    /// Whether `next` and `action` are what follows `event` in this flow.
    /// An event that reports a failure stops the flow with its message; one
    /// that the step does not wait for stops it too; and so does a key that
    /// comes without its secret.
    pub open spec fn leads_to(self, event: Event, next: ScalewayState, action: Action) -> bool {
        match (self.state, event) {
            (ScalewayState::Done, _) | (ScalewayState::Failed, _) => {
                &&& next is Failed
                &&& self.aborts_with(action, "unexpected event"@)
            },
            (_, Event::Failed { message }) => {
                &&& next is Failed
                &&& self.aborts_with(action, message@)
            },
            (ScalewayState::EnsureBucket, Event::BucketReady) => {
                &&& next is CreatePrincipal
                &&& action matches Action::CreateApplication { name, description, organization_id }
                &&& name == self.name
                &&& description == self.description
                &&& organization_id == self.config.organization_id
            },
            (ScalewayState::CreatePrincipal, Event::PrincipalCreated { id }) => {
                &&& next == (ScalewayState::CreateScopedPolicy { application_id: id })
                &&& action matches Action::CreatePolicy {
                    name,
                    application_id,
                    organization_id,
                    project_id,
                }
                &&& name@ == policy_name(self.name@)
                &&& application_id == id
                &&& organization_id == self.config.organization_id
                &&& project_id == self.config.project_id
            },
            (ScalewayState::CreateScopedPolicy { application_id: app }, Event::PolicyCreated { .. }) => {
                &&& next == (ScalewayState::CreateApiKey { application_id: app })
                &&& action matches Action::CreateApplicationKey {
                    application_id,
                    description,
                    default_project_id,
                }
                &&& application_id == app
                &&& description@ == key_description(self.name@)
                &&& default_project_id == self.config.project_id
            },
            (
                ScalewayState::CreateApiKey { application_id: app },
                Event::KeyCreated { access_key, secret: Some(secret) },
            ) => {
                &&& next == (ScalewayState::ApplyBucketPolicy { access_key, secret_key: secret })
                &&& action matches Action::ApplyBucketPolicy { endpoint, bucket, statement }
                &&& endpoint@ == scaleway_endpoint(self.config.region@)
                &&& bucket == self.config.bucket
                &&& statement@ == statement_value(
                    self.name@,
                    app@,
                    self.config.bucket@,
                    static_key_prefix(self.name@),
                )
            },
            (ScalewayState::CreateApiKey { .. }, Event::KeyCreated { secret: None, .. }) => {
                &&& next is Failed
                &&& self.aborts_with(action, "API key response missing secret"@)
            },
            (
                ScalewayState::ApplyBucketPolicy { access_key, secret_key },
                Event::BucketPolicyApplied,
            ) => {
                &&& next is Done
                &&& action matches Action::Emit(bundle)
                &&& bundle.provider == ProviderKind::StaticKey
                &&& bundle.access_key == access_key
                &&& bundle.secret_key == secret_key
                &&& bundle.endpoint@ == scaleway_endpoint(self.config.region@)
                &&& bundle.location == self.config.region
                &&& bundle.bucket == self.config.bucket
                &&& bundle.prefix@ == static_key_prefix(self.name@)
            },
            _ => {
                &&& next is Failed
                &&& self.aborts_with(action, "unexpected event"@)
            },
        }
    }

    /// Begins the provisioning of the application `name`: the first action
    /// is to ensure the bucket.
    pub fn start(config: ScalewayProviderConfig, name: String, description: String) -> (r: (
        Self,
        Action,
    ))
        ensures
            r.0.config == config,
            r.0.name == name,
            r.0.description == description,
            r.0.state is EnsureBucket,
            r.0.asks_for_bucket(r.1),
    {
        let action = Action::EnsureBucket {
            endpoint: config.endpoint(),
            region: config.region.clone(),
            access_key: config.access_key.clone(),
            secret_key: config.secret_key.clone(),
            bucket: config.bucket.clone(),
        };
        (ScalewayFlow { config, name, description, state: ScalewayState::EnsureBucket }, action)
    }

    fn abort(&self, message: String) -> (action: Action)
        ensures
            self.aborts_with(action, message@),
    {
        Action::Abort(
            ProvisionError {
                provider: ProviderKind::StaticKey,
                stage: self.state.current_stage(),
                message,
            },
        )
    }

    /// Takes in what the last action brought, and says what to do next.
    pub fn step(self, event: Event) -> (r: (Self, Action))
        ensures
            r.0.config == self.config,
            r.0.name == self.name,
            r.0.description == self.description,
            self.leads_to(event, r.0.state, r.1),
    {
        let (state, action) = match (&self.state, event) {
            (ScalewayState::Done, _) | (ScalewayState::Failed, _) => (
                ScalewayState::Failed,
                self.abort("unexpected event".to_owned()),
            ),
            (_, Event::Failed { message }) => (ScalewayState::Failed, self.abort(message)),
            (ScalewayState::EnsureBucket, Event::BucketReady) => (
                ScalewayState::CreatePrincipal,
                Action::CreateApplication {
                    name: self.name.clone(),
                    description: self.description.clone(),
                    organization_id: self.config.organization_id.clone(),
                },
            ),
            (ScalewayState::CreatePrincipal, Event::PrincipalCreated { id }) => {
                let action = Action::CreatePolicy {
                    name: join2(self.name.as_str(), "-policy"),
                    application_id: id.clone(),
                    organization_id: self.config.organization_id.clone(),
                    project_id: self.config.project_id.clone(),
                };
                (ScalewayState::CreateScopedPolicy { application_id: id }, action)
            },
            (ScalewayState::CreateScopedPolicy { application_id }, Event::PolicyCreated { .. }) => {
                let action = Action::CreateApplicationKey {
                    application_id: application_id.clone(),
                    description: join2("API key for ", self.name.as_str()),
                    default_project_id: self.config.project_id.clone(),
                };
                (ScalewayState::CreateApiKey { application_id: application_id.clone() }, action)
            },
            (
                ScalewayState::CreateApiKey { application_id },
                Event::KeyCreated { access_key, secret: Some(secret) },
            ) => {
                let prefix = join2("apps/", self.name.as_str());
                let action = Action::ApplyBucketPolicy {
                    endpoint: self.config.endpoint(),
                    bucket: self.config.bucket.clone(),
                    statement: bucket_policy_statement(
                        self.name.as_str(),
                        application_id.as_str(),
                        self.config.bucket.as_str(),
                        prefix.as_str(),
                    ),
                };
                (ScalewayState::ApplyBucketPolicy { access_key, secret_key: secret }, action)
            },
            (ScalewayState::CreateApiKey { .. }, Event::KeyCreated { secret: None, .. }) => (
                ScalewayState::Failed,
                self.abort("API key response missing secret".to_owned()),
            ),
            (
                ScalewayState::ApplyBucketPolicy { access_key, secret_key },
                Event::BucketPolicyApplied,
            ) => {
                let bundle = CredentialBundle {
                    provider: ProviderKind::StaticKey,
                    access_key: access_key.clone(),
                    secret_key: secret_key.clone(),
                    endpoint: self.config.endpoint(),
                    location: self.config.region.clone(),
                    bucket: self.config.bucket.clone(),
                    prefix: join2("apps/", self.name.as_str()),
                };
                (ScalewayState::Done, Action::Emit(bundle))
            },
            _ => (ScalewayState::Failed, self.abort("unexpected event".to_owned())),
        };
        (
            ScalewayFlow {
                config: self.config,
                name: self.name,
                description: self.description,
                state,
            },
            action,
        )
    }
}

/// Where the provisioning of an application with a signed-request provider
/// stands, with what the steps so far have brought.
#[derive(Clone, Debug)]
pub enum ExoscaleState {
    EnsureBucket,
    CreatePrincipal,
    WaitPropagation { role_id: String },
    CreateApiKey { role_id: String },
    Done,
    Failed,
}

impl ExoscaleState {
    /// The step that the state waits for.
    pub open spec fn stage(self) -> Stage {
        match self {
            ExoscaleState::EnsureBucket => Stage::EnsureBucket,
            ExoscaleState::CreatePrincipal => Stage::CreatePrincipal,
            ExoscaleState::WaitPropagation { .. } => Stage::WaitPropagation,
            ExoscaleState::CreateApiKey { .. } => Stage::CreateApiKey,
            ExoscaleState::Done => Stage::Done,
            ExoscaleState::Failed => Stage::Failed,
        }
    }

    /// The step that the state waits for.
    pub fn current_stage(&self) -> (r: Stage)
        ensures
            r == self.stage(),
    {
        match self {
            ExoscaleState::EnsureBucket => Stage::EnsureBucket,
            ExoscaleState::CreatePrincipal => Stage::CreatePrincipal,
            ExoscaleState::WaitPropagation { .. } => Stage::WaitPropagation,
            ExoscaleState::CreateApiKey { .. } => Stage::CreateApiKey,
            ExoscaleState::Done => Stage::Done,
            ExoscaleState::Failed => Stage::Failed,
        }
    }
}

/// The provisioning of one application with a signed-request provider:
/// ensure the bucket, create the role with its policy, wait, create the
/// key, hand the credentials out.
#[derive(Debug)]
pub struct ExoscaleFlow {
    pub config: ExoscaleProviderConfig,
    pub name: String,
    pub description: String,
    pub state: ExoscaleState,
}

impl ExoscaleFlow {
    /// Whether `action` asks to ensure the flow's bucket.
    pub open spec fn asks_for_bucket(self, action: Action) -> bool {
        &&& action matches Action::EnsureBucket { endpoint, region, access_key, secret_key, bucket }
        &&& endpoint@ == exoscale_endpoint(self.config.zone@)
        &&& region == self.config.zone
        &&& access_key == self.config.api_key
        &&& secret_key == self.config.api_secret
        &&& bucket == self.config.bucket
    }

    /// Whether `action` stops the flow at its step, with `message`.
    pub open spec fn aborts_with(self, action: Action, message: Seq<char>) -> bool {
        &&& action matches Action::Abort(error)
        &&& error.provider == ProviderKind::SignedRequest
        &&& error.stage == self.state.stage()
        &&& error.message@ == message
    }

    /// Whether `next` and `action` are what follows `event` in this flow.
    /// An event that reports a failure stops the flow with its message; one
    /// that the step does not wait for stops it too; and so does a key that
    /// comes without its secret.
    pub open spec fn leads_to(self, event: Event, next: ExoscaleState, action: Action) -> bool {
        match (self.state, event) {
            (ExoscaleState::Done, _) | (ExoscaleState::Failed, _) => {
                &&& next is Failed
                &&& self.aborts_with(action, "unexpected event"@)
            },
            (_, Event::Failed { message }) => {
                &&& next is Failed
                &&& self.aborts_with(action, message@)
            },
            (ExoscaleState::EnsureBucket, Event::BucketReady) => {
                &&& next is CreatePrincipal
                &&& action matches Action::CreateRole { name, description, bucket, prefix }
                &&& name@ == role_name(self.name@)
                &&& description == self.description
                &&& bucket == self.config.bucket
                &&& prefix@ == signed_request_prefix(self.name@)
            },
            (ExoscaleState::CreatePrincipal, Event::PrincipalCreated { id }) => {
                &&& next == (ExoscaleState::WaitPropagation { role_id: id })
                &&& action == (Action::Wait { seconds: 3 })
            },
            (ExoscaleState::WaitPropagation { role_id: role }, Event::Waited) => {
                &&& next == (ExoscaleState::CreateApiKey { role_id: role })
                &&& action matches Action::CreateRoleKey { name, role_id }
                &&& name@ == role_key_name(self.name@)
                &&& role_id == role
            },
            (
                ExoscaleState::CreateApiKey { .. },
                Event::KeyCreated { access_key, secret: Some(secret) },
            ) => {
                &&& next is Done
                &&& action matches Action::Emit(bundle)
                &&& bundle.provider == ProviderKind::SignedRequest
                &&& bundle.access_key == access_key
                &&& bundle.secret_key == secret
                &&& bundle.endpoint@ == exoscale_endpoint(self.config.zone@)
                &&& bundle.location == self.config.zone
                &&& bundle.bucket == self.config.bucket
                &&& bundle.prefix@ == signed_request_prefix(self.name@)
            },
            (ExoscaleState::CreateApiKey { .. }, Event::KeyCreated { secret: None, .. }) => {
                &&& next is Failed
                &&& self.aborts_with(action, "API key response missing secret"@)
            },
            _ => {
                &&& next is Failed
                &&& self.aborts_with(action, "unexpected event"@)
            },
        }
    }

    fn prefix(&self) -> (r: String)
        ensures
            r@ == signed_request_prefix(self.name@),
    {
        let mut r = "apps/".to_owned();
        r.append(self.name.as_str());
        r.append("/");
        r
    }

    /// Begins the provisioning of the application `name`: the first action
    /// is to ensure the bucket.
    pub fn start(config: ExoscaleProviderConfig, name: String, description: String) -> (r: (
        Self,
        Action,
    ))
        ensures
            r.0.config == config,
            r.0.name == name,
            r.0.description == description,
            r.0.state is EnsureBucket,
            r.0.asks_for_bucket(r.1),
    {
        let action = Action::EnsureBucket {
            endpoint: config.endpoint(),
            region: config.zone.clone(),
            access_key: config.api_key.clone(),
            secret_key: config.api_secret.clone(),
            bucket: config.bucket.clone(),
        };
        (ExoscaleFlow { config, name, description, state: ExoscaleState::EnsureBucket }, action)
    }

    fn abort(&self, message: String) -> (action: Action)
        ensures
            self.aborts_with(action, message@),
    {
        Action::Abort(
            ProvisionError {
                provider: ProviderKind::SignedRequest,
                stage: self.state.current_stage(),
                message,
            },
        )
    }

    /// Takes in what the last action brought, and says what to do next.
    pub fn step(self, event: Event) -> (r: (Self, Action))
        ensures
            r.0.config == self.config,
            r.0.name == self.name,
            r.0.description == self.description,
            self.leads_to(event, r.0.state, r.1),
    {
        let (state, action) = match (&self.state, event) {
            (ExoscaleState::Done, _) | (ExoscaleState::Failed, _) => (
                ExoscaleState::Failed,
                self.abort("unexpected event".to_owned()),
            ),
            (_, Event::Failed { message }) => (ExoscaleState::Failed, self.abort(message)),
            (ExoscaleState::EnsureBucket, Event::BucketReady) => (
                ExoscaleState::CreatePrincipal,
                Action::CreateRole {
                    name: join2("proprion-", self.name.as_str()),
                    description: self.description.clone(),
                    bucket: self.config.bucket.clone(),
                    prefix: self.prefix(),
                },
            ),
            (ExoscaleState::CreatePrincipal, Event::PrincipalCreated { id }) => (
                ExoscaleState::WaitPropagation { role_id: id },
                Action::Wait { seconds: PROPAGATION_DELAY },
            ),
            (ExoscaleState::WaitPropagation { role_id }, Event::Waited) => {
                let mut name = "proprion-".to_owned();
                name.append(self.name.as_str());
                name.append("-key");
                (
                    ExoscaleState::CreateApiKey { role_id: role_id.clone() },
                    Action::CreateRoleKey { name, role_id: role_id.clone() },
                )
            },
            (
                ExoscaleState::CreateApiKey { .. },
                Event::KeyCreated { access_key, secret: Some(secret) },
            ) => {
                let bundle = CredentialBundle {
                    provider: ProviderKind::SignedRequest,
                    access_key,
                    secret_key: secret,
                    endpoint: self.config.endpoint(),
                    location: self.config.zone.clone(),
                    bucket: self.config.bucket.clone(),
                    prefix: self.prefix(),
                };
                (ExoscaleState::Done, Action::Emit(bundle))
            },
            (ExoscaleState::CreateApiKey { .. }, Event::KeyCreated { secret: None, .. }) => (
                ExoscaleState::Failed,
                self.abort("API key response missing secret".to_owned()),
            ),
            _ => (ExoscaleState::Failed, self.abort("unexpected event".to_owned())),
        };
        (
            ExoscaleFlow {
                config: self.config,
                name: self.name,
                description: self.description,
                state,
            },
            action,
        )
    }
}

/// The provisioning of one application with a provider of either kind.
/// Which steps are taken is settled once, by the kind of the provider that
/// the flow starts with.
#[derive(Debug)]
pub enum Flow {
    StaticKey(ScalewayFlow),
    SignedRequest(ExoscaleFlow),
}

impl Flow {
    /// The kind of the flow's provider.
    pub open spec fn kind(self) -> ProviderKind {
        match self {
            Flow::StaticKey(_) => ProviderKind::StaticKey,
            Flow::SignedRequest(_) => ProviderKind::SignedRequest,
        }
    }

    /// The step that the flow waits for.
    pub open spec fn stage(self) -> Stage {
        match self {
            Flow::StaticKey(flow) => flow.state.stage(),
            Flow::SignedRequest(flow) => flow.state.stage(),
        }
    }

    /// Whether the flow has come to an end, with credentials or without.
    pub fn is_over(&self) -> (r: bool)
        ensures
            r == (self.stage() == Stage::Done || self.stage() == Stage::Failed),
    {
        let stage = match self {
            Flow::StaticKey(flow) => flow.state.current_stage(),
            Flow::SignedRequest(flow) => flow.state.current_stage(),
        };
        match stage {
            Stage::Done | Stage::Failed => true,
            _ => false,
        }
    }

    /// Begins the provisioning of the application `name` with `provider`:
    /// the first action is to ensure the provider's bucket.
    pub fn start(provider: ProviderConfig, name: String, description: String) -> (r: (Self, Action))
        ensures
            match provider {
                ProviderConfig::Scaleway(config) => ({
                    &&& r.0 matches Flow::StaticKey(flow)
                    &&& flow.config == config
                    &&& flow.name == name
                    &&& flow.description == description
                    &&& flow.state is EnsureBucket
                    &&& flow.asks_for_bucket(r.1)
                }),
                ProviderConfig::Exoscale(config) => ({
                    &&& r.0 matches Flow::SignedRequest(flow)
                    &&& flow.config == config
                    &&& flow.name == name
                    &&& flow.description == description
                    &&& flow.state is EnsureBucket
                    &&& flow.asks_for_bucket(r.1)
                }),
            },
    {
        match provider {
            ProviderConfig::Scaleway(config) => {
                let (flow, action) = ScalewayFlow::start(config, name, description);
                (Flow::StaticKey(flow), action)
            },
            ProviderConfig::Exoscale(config) => {
                let (flow, action) = ExoscaleFlow::start(config, name, description);
                (Flow::SignedRequest(flow), action)
            },
        }
    }

    /// Takes in what the last action brought, and says what to do next: the
    /// step of the flow of the provider's kind.
    pub fn step(self, event: Event) -> (r: (Self, Action))
        ensures
            match self {
                Flow::StaticKey(flow) => ({
                    &&& r.0 matches Flow::StaticKey(next)
                    &&& next.config == flow.config
                    &&& next.name == flow.name
                    &&& next.description == flow.description
                    &&& flow.leads_to(event, next.state, r.1)
                }),
                Flow::SignedRequest(flow) => ({
                    &&& r.0 matches Flow::SignedRequest(next)
                    &&& next.config == flow.config
                    &&& next.name == flow.name
                    &&& next.description == flow.description
                    &&& flow.leads_to(event, next.state, r.1)
                }),
            },
    {
        match self {
            Flow::StaticKey(flow) => {
                let (next, action) = flow.step(event);
                (Flow::StaticKey(next), action)
            },
            Flow::SignedRequest(flow) => {
                let (next, action) = flow.step(event);
                (Flow::SignedRequest(next), action)
            },
        }
    }
}

/// The test that finds the keys bound to the role `role_id`.
pub open spec fn bound_to(role_id: Seq<char>) -> spec_fn(ApiKey) -> bool {
    |key: ApiKey| key.role_id matches Some(r) && r@ == role_id
}

/// One step of taking an application down.
#[derive(Clone, Debug)]
pub enum Removal {
    /// Delete an API key of the role. A failure is passed over.
    ApiKey { key: String },
    /// Delete the role. A failure is the failure of the whole.
    Role { role_id: String },
    /// Delete the application of a static-key provider, which is taken to
    /// delete what hangs on it. A failure is the failure of the whole.
    Application { application_id: String },
}

/// Whether `plan` takes the role `role_id` down: it deletes the keys among
/// `keys` that are bound to the role, each once and in their order, no
/// other key, and then the role.
pub open spec fn takes_down(plan: Seq<Removal>, keys: Seq<ApiKey>, role_id: Seq<char>) -> bool {
    let bound = keys.filter(bound_to(role_id));
    &&& plan.len() == bound.len() + 1
    &&& forall|i: int|
        0 <= i < bound.len() ==> #[trigger] plan[i] == (Removal::ApiKey { key: bound[i].key })
    &&& plan[bound.len() as int] matches Removal::Role { role_id: r }
    &&& r@ == role_id
}

proof fn lemma_filter_step<A>(s: Seq<A>, p: spec_fn(A) -> bool, i: int)
    requires
        0 <= i < s.len(),
    ensures
        s.take(i + 1).filter(p) == if p(s[i]) {
            s.take(i).filter(p).push(s[i])
        } else {
            s.take(i).filter(p)
        },
{
    reveal(Seq::filter);
    assert(s.take(i + 1).drop_last() =~= s.take(i));
}

/// The steps that take the role `role_id` down, given all the API keys
/// that there are.
pub fn role_teardown(keys: &Vec<ApiKey>, role_id: &str) -> (plan: Vec<Removal>)
    ensures
        takes_down(plan@, keys@, role_id@),
{
    let mut plan: Vec<Removal> = Vec::new();
    let mut i: usize = 0;
    proof {
        reveal(Seq::filter);
        assert(keys@.take(0).filter(bound_to(role_id@)) =~= Seq::<ApiKey>::empty());
    }
    while i < keys.len()
        invariant
            i <= keys.len(),
            plan.len() == keys@.take(i as int).filter(bound_to(role_id@)).len(),
            forall|j: int|
                0 <= j < plan.len() ==> #[trigger] plan[j] == (Removal::ApiKey {
                    key: keys@.take(i as int).filter(bound_to(role_id@))[j].key,
                }),
        decreases keys.len() - i,
    {
        proof {
            lemma_filter_step(keys@, bound_to(role_id@), i as int);
        }
        let bound = match &keys[i].role_id {
            Some(r) => same(r.as_str(), role_id),
            None => false,
        };
        if bound {
            plan.push(Removal::ApiKey { key: keys[i].key.clone() });
        }
        i += 1;
    }
    proof {
        assert(keys@.take(keys.len() as int) =~= keys@);
    }
    plan.push(Removal::Role { role_id: role_id.to_owned() });
    plan
}

/// The one step that takes an application of a static-key provider down:
/// the application is deleted, and nothing else is asked for.
pub fn application_teardown(application_id: &str) -> (plan: Vec<Removal>)
    ensures
        plan@.len() == 1,
        plan@[0] matches Removal::Application { application_id: id } && id@ == application_id@,
{
    let mut plan: Vec<Removal> = Vec::new();
    plan.push(Removal::Application { application_id: application_id.to_owned() });
    plan
}

/// What a removal's failure means for the whole: that of a key is passed
/// over, that of a role or of an application is the result.
pub fn removal_result<E>(removal: &Removal, outcome: Result<(), E>) -> (r: Result<(), E>)
    ensures
        removal is ApiKey ==> r is Ok,
        !(removal is ApiKey) ==> r == outcome,
{
    match removal {
        Removal::ApiKey { .. } => Ok(()),
        _ => outcome,
    }
}

/// An application as a listing shows it.
#[derive(Clone, Debug)]
pub struct AppListing {
    pub name: String,
    pub role_id: String,
    pub description: String,
}

/// The test that finds the roles of applications: those whose name begins
/// with `proprion-`.
pub open spec fn is_app_role() -> spec_fn(IamRole) -> bool {
    |role: IamRole| role.name matches Some(n) && has_prefix(n@, "proprion-"@)
}

/// The listing of an application's role: the name without `proprion-`, the
/// role's identifier, and the description, or the empty text for none.
pub open spec fn lists(listing: AppListing, role: IamRole) -> bool {
    &&& role.name matches Some(n)
    &&& listing.name@ == n@.skip("proprion-"@.len() as int)
    &&& listing.role_id == role.id
    &&& listing.description@ == match role.description {
        Some(d) => d@,
        None => Seq::empty(),
    }
}

/// The applications among `roles`, in their order.
pub fn app_listings(roles: &Vec<IamRole>) -> (apps: Vec<AppListing>)
    ensures
        apps.len() == roles@.filter(is_app_role()).len(),
        forall|i: int|
            0 <= i < apps.len() ==> lists(#[trigger] apps[i], roles@.filter(is_app_role())[i]),
{
    let mut apps: Vec<AppListing> = Vec::new();
    let mut i: usize = 0;
    proof {
        reveal(Seq::filter);
        assert(roles@.take(0).filter(is_app_role()) =~= Seq::<IamRole>::empty());
    }
    while i < roles.len()
        invariant
            i <= roles.len(),
            apps.len() == roles@.take(i as int).filter(is_app_role()).len(),
            forall|j: int|
                0 <= j < apps.len() ==> lists(
                    #[trigger] apps[j],
                    roles@.take(i as int).filter(is_app_role())[j],
                ),
        decreases roles.len() - i,
    {
        proof {
            lemma_filter_step(roles@, is_app_role(), i as int);
        }
        let role = &roles[i];
        match &role.name {
            Some(name) => match strip_prefix(name.as_str(), "proprion-") {
                Some(rest) => {
                    let description = match &role.description {
                        Some(d) => d.clone(),
                        None => String::new(),
                    };
                    apps.push(
                        AppListing { name: rest.to_owned(), role_id: role.id.clone(), description },
                    );
                },
                None => {},
            },
            None => {},
        }
        i += 1;
    }
    proof {
        assert(roles@.take(roles.len() as int) =~= roles@);
    }
    apps
}

} // verus!
