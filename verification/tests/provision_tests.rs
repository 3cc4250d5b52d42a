use proprion::config::{ExoscaleProviderConfig, ProviderConfig, ScalewayProviderConfig};
use proprion::exoscale::{ApiKey, IamRole};
use proprion::json::Json;
use proprion::policy::merge;
use proprion::provision::{
    app_listings, application_teardown, removal_result, role_teardown, Action, CredentialBundle,
    Event, Flow, ExoscaleFlow, ExoscaleState, ProviderKind, ProvisionError, Removal,
    ScalewayFlow, ScalewayState, Stage,
};

fn scaleway() -> ScalewayProviderConfig {
    ScalewayProviderConfig {
        access_key: "SCWKEY".to_string(),
        secret_key: "scw-secret".to_string(),
        organization_id: "org-1".to_string(),
        project_id: "proj-1".to_string(),
        region: "fr-par".to_string(),
        bucket: "data".to_string(),
    }
}

fn exoscale() -> ExoscaleProviderConfig {
    ExoscaleProviderConfig {
        api_key: "EXOkey".to_string(),
        api_secret: "exo-secret".to_string(),
        zone: "de-fra-1".to_string(),
        bucket: "data".to_string(),
    }
}

fn text_member<'a>(json: &'a Json, name: &str) -> Option<&'a str> {
    json.get(name).and_then(|v| v.as_text())
}

fn key(name: &str, role: Option<&str>) -> ApiKey {
    ApiKey {
        name: format!("name-{}", name),
        key: name.to_string(),
        secret: None,
        role_id: role.map(|r| r.to_string()),
    }
}

#[test]
fn static_key_provisioning_end_to_end() {
    let (flow, action) = ScalewayFlow::start(scaleway(), "svc-a".to_string(), "x".to_string());
    match action {
        Action::EnsureBucket { endpoint, region, access_key, secret_key, bucket } => {
            assert_eq!(endpoint, "https://s3.fr-par.scw.cloud");
            assert_eq!(region, "fr-par");
            assert_eq!(access_key, "SCWKEY");
            assert_eq!(secret_key, "scw-secret");
            assert_eq!(bucket, "data");
        }
        other => panic!("unexpected: {:?}", other),
    }
    assert!(matches!(flow.state, ScalewayState::EnsureBucket));

    let (flow, action) = flow.step(Event::BucketReady);
    match action {
        Action::CreateApplication { name, description, organization_id } => {
            assert_eq!(name, "svc-a");
            assert_eq!(description, "x");
            assert_eq!(organization_id, "org-1");
        }
        other => panic!("unexpected: {:?}", other),
    }

    let (flow, action) = flow.step(Event::PrincipalCreated { id: "app-1".to_string() });
    match action {
        Action::CreatePolicy { name, application_id, organization_id, project_id } => {
            assert_eq!(name, "svc-a-policy");
            assert_eq!(application_id, "app-1");
            assert_eq!(organization_id, "org-1");
            assert_eq!(project_id, "proj-1");
        }
        other => panic!("unexpected: {:?}", other),
    }

    let (flow, action) = flow.step(Event::PolicyCreated { id: "pol-1".to_string() });
    match action {
        Action::CreateApplicationKey { application_id, description, default_project_id } => {
            assert_eq!(application_id, "app-1");
            assert_eq!(description, "API key for svc-a");
            assert_eq!(default_project_id, "proj-1");
        }
        other => panic!("unexpected: {:?}", other),
    }

    let (flow, action) = flow.step(Event::KeyCreated {
        access_key: "SCWNEW".to_string(),
        secret: Some("new-secret".to_string()),
    });
    let policy = match action {
        Action::ApplyBucketPolicy { endpoint, bucket, statement } => {
            assert_eq!(endpoint, "https://s3.fr-par.scw.cloud");
            assert_eq!(bucket, "data");
            merge(None, statement)
        }
        other => panic!("unexpected: {:?}", other),
    };
    let statements = match policy.get("Statement") {
        Some(Json::Array(items)) => items,
        _ => panic!("no statements"),
    };
    assert_eq!(statements.len(), 1);
    assert_eq!(text_member(&statements[0], "Sid"), Some("app-svc-a"));
    assert_eq!(text_member(&statements[0], "Resource"), Some("data/apps/svc-a/*"));
    assert_eq!(text_member(&statements[0], "Effect"), Some("Allow"));
    assert_eq!(
        statements[0].get("Principal").and_then(|p| text_member(p, "SCW")),
        Some("application_id:app-1")
    );

    let (flow, action) = flow.step(Event::BucketPolicyApplied);
    match action {
        Action::Emit(bundle) => {
            assert_eq!(bundle.provider, ProviderKind::StaticKey);
            assert_eq!(bundle.prefix, "apps/svc-a");
            assert_eq!(bundle.access_key, "SCWNEW");
            assert_eq!(bundle.secret_key, "new-secret");
            assert_eq!(bundle.endpoint, "https://s3.fr-par.scw.cloud");
            assert_eq!(bundle.location, "fr-par");
            assert_eq!(bundle.bucket, "data");
        }
        other => panic!("unexpected: {:?}", other),
    }
    assert!(matches!(flow.state, ScalewayState::Done));
    assert_eq!(flow.name, "svc-a");
    assert_eq!(flow.description, "x");
}

#[test]
fn signed_request_provisioning_end_to_end() {
    let (flow, action) = ExoscaleFlow::start(exoscale(), "svc-b".to_string(), "d".to_string());
    match action {
        Action::EnsureBucket { endpoint, region, access_key, secret_key, bucket } => {
            assert_eq!(endpoint, "https://sos-de-fra-1.exo.io");
            assert_eq!(region, "de-fra-1");
            assert_eq!(access_key, "EXOkey");
            assert_eq!(secret_key, "exo-secret");
            assert_eq!(bucket, "data");
        }
        other => panic!("unexpected: {:?}", other),
    }

    let (flow, action) = flow.step(Event::BucketReady);
    match action {
        Action::CreateRole { name, description, bucket, prefix } => {
            assert_eq!(name, "proprion-svc-b");
            assert_eq!(description, "d");
            assert_eq!(bucket, "data");
            assert_eq!(prefix, "apps/svc-b/");
        }
        other => panic!("unexpected: {:?}", other),
    }

    let (flow, action) = flow.step(Event::PrincipalCreated { id: "role-1".to_string() });
    assert!(matches!(action, Action::Wait { seconds: 3 }));
    assert!(matches!(&flow.state, ExoscaleState::WaitPropagation { role_id } if role_id == "role-1"));

    let (flow, action) = flow.step(Event::Waited);
    match action {
        Action::CreateRoleKey { name, role_id } => {
            assert_eq!(name, "proprion-svc-b-key");
            assert_eq!(role_id, "role-1");
        }
        other => panic!("unexpected: {:?}", other),
    }

    let (flow, action) = flow.step(Event::KeyCreated {
        access_key: "EXOnew".to_string(),
        secret: Some("new-secret".to_string()),
    });
    match action {
        Action::Emit(bundle) => {
            assert_eq!(bundle.provider, ProviderKind::SignedRequest);
            assert_eq!(bundle.endpoint, "https://sos-de-fra-1.exo.io");
            assert_eq!(bundle.prefix, "apps/svc-b/");
            assert_eq!(bundle.access_key, "EXOnew");
            assert_eq!(bundle.secret_key, "new-secret");
            assert_eq!(bundle.location, "de-fra-1");
            assert_eq!(bundle.bucket, "data");
        }
        other => panic!("unexpected: {:?}", other),
    }
    assert!(matches!(flow.state, ExoscaleState::Done));
}

#[test]
fn a_failed_step_aborts_with_its_stage() {
    let (flow, _) = ScalewayFlow::start(scaleway(), "svc".to_string(), "x".to_string());
    let (flow, _) = flow.step(Event::BucketReady);
    let (flow, action) = flow.step(Event::Failed { message: "quota".to_string() });
    match action {
        Action::Abort(e) => {
            assert_eq!(e.provider, ProviderKind::StaticKey);
            assert_eq!(e.stage, Stage::CreatePrincipal);
            assert_eq!(e.message, "quota");
            assert_eq!(e.message(), "Failed to create application: quota");
        }
        other => panic!("unexpected: {:?}", other),
    }
    assert!(matches!(flow.state, ScalewayState::Failed));
    let (flow, action) = flow.step(Event::BucketReady);
    assert!(matches!(flow.state, ScalewayState::Failed));
    match action {
        Action::Abort(e) => {
            assert_eq!(e.stage, Stage::Failed);
            assert_eq!(e.message, "unexpected event");
        }
        other => panic!("unexpected: {:?}", other),
    }
}

#[test]
fn a_failed_bucket_aborts_at_once() {
    let (flow, _) = ExoscaleFlow::start(exoscale(), "svc".to_string(), "x".to_string());
    let (flow, action) = flow.step(Event::Failed { message: "denied".to_string() });
    match action {
        Action::Abort(e) => {
            assert_eq!(e.provider, ProviderKind::SignedRequest);
            assert_eq!(e.stage, Stage::EnsureBucket);
            assert_eq!(e.message(), "Failed to create bucket: denied");
        }
        other => panic!("unexpected: {:?}", other),
    }
    assert!(matches!(flow.state, ExoscaleState::Failed));
}

#[test]
fn a_key_without_secret_aborts() {
    let (flow, _) = ExoscaleFlow::start(exoscale(), "svc".to_string(), "x".to_string());
    let (flow, _) = flow.step(Event::BucketReady);
    let (flow, _) = flow.step(Event::PrincipalCreated { id: "r".to_string() });
    let (flow, _) = flow.step(Event::Waited);
    let (flow, action) =
        flow.step(Event::KeyCreated { access_key: "EXOnew".to_string(), secret: None });
    match action {
        Action::Abort(e) => {
            assert_eq!(e.stage, Stage::CreateApiKey);
            assert_eq!(e.message, "API key response missing secret");
        }
        other => panic!("unexpected: {:?}", other),
    }
    assert!(matches!(flow.state, ExoscaleState::Failed));

    let (flow, _) = ScalewayFlow::start(scaleway(), "svc".to_string(), "x".to_string());
    let (flow, _) = flow.step(Event::BucketReady);
    let (flow, _) = flow.step(Event::PrincipalCreated { id: "a".to_string() });
    let (flow, _) = flow.step(Event::PolicyCreated { id: "p".to_string() });
    let (flow, action) =
        flow.step(Event::KeyCreated { access_key: "SCWNEW".to_string(), secret: None });
    match action {
        Action::Abort(e) => {
            assert_eq!(e.provider, ProviderKind::StaticKey);
            assert_eq!(e.stage, Stage::CreateApiKey);
            assert_eq!(e.message(), "Failed to create API key: API key response missing secret");
        }
        other => panic!("unexpected: {:?}", other),
    }
    assert!(matches!(flow.state, ScalewayState::Failed));
}

#[test]
fn an_event_out_of_turn_aborts() {
    let (flow, _) = ExoscaleFlow::start(exoscale(), "svc".to_string(), "x".to_string());
    let (flow, action) = flow.step(Event::Waited);
    match action {
        Action::Abort(e) => {
            assert_eq!(e.stage, Stage::EnsureBucket);
            assert_eq!(e.message, "unexpected event");
        }
        other => panic!("unexpected: {:?}", other),
    }
    assert!(matches!(flow.state, ExoscaleState::Failed));

    let (flow, _) = ExoscaleFlow::start(exoscale(), "svc".to_string(), "x".to_string());
    let (flow, _) = flow.step(Event::BucketReady);
    let (_, action) = flow.step(Event::PolicyCreated { id: "p".to_string() });
    assert!(matches!(action, Action::Abort(ProvisionError { stage: Stage::CreatePrincipal, .. })));

    let (flow, _) = ScalewayFlow::start(scaleway(), "svc".to_string(), "x".to_string());
    let (_, action) = flow.step(Event::BucketPolicyApplied);
    assert!(matches!(action, Action::Abort(ProvisionError { stage: Stage::EnsureBucket, .. })));
}

#[test]
fn the_wait_comes_between_role_and_key() {
    let (flow, _) = ExoscaleFlow::start(exoscale(), "svc".to_string(), "x".to_string());
    let (flow, _) = flow.step(Event::BucketReady);
    let (flow, wait) = flow.step(Event::PrincipalCreated { id: "r".to_string() });
    assert!(matches!(wait, Action::Wait { seconds: 3 }));
    let (_, action) = flow.step(Event::KeyCreated {
        access_key: "k".to_string(),
        secret: Some("s".to_string()),
    });
    assert!(matches!(action, Action::Abort(ProvisionError { stage: Stage::WaitPropagation, .. })));
}

#[test]
fn teardown_deletes_the_keys_of_the_role_and_no_other() {
    let keys = vec![
        key("k1", Some("role-a")),
        key("k2", Some("role-b")),
        key("k3", None),
        key("k4", Some("role-a")),
        key("k5", Some("role-ab")),
    ];
    let plan = role_teardown(&keys, "role-a");
    assert_eq!(plan.len(), 3);
    assert!(matches!(&plan[0], Removal::ApiKey { key } if key == "k1"));
    assert!(matches!(&plan[1], Removal::ApiKey { key } if key == "k4"));
    assert!(matches!(&plan[2], Removal::Role { role_id } if role_id == "role-a"));
}

#[test]
fn teardown_of_a_role_without_keys_deletes_the_role() {
    let plan = role_teardown(&vec![key("k2", Some("role-b"))], "role-a");
    assert_eq!(plan.len(), 1);
    assert!(matches!(&plan[0], Removal::Role { role_id } if role_id == "role-a"));
    let plan = role_teardown(&vec![], "role-a");
    assert_eq!(plan.len(), 1);
}

#[test]
fn key_failures_are_passed_over_and_role_failures_are_not() {
    let a_key = Removal::ApiKey { key: "k".to_string() };
    let a_role = Removal::Role { role_id: "r".to_string() };
    assert_eq!(removal_result(&a_key, Err::<(), String>("gone".to_string())), Ok(()));
    assert_eq!(removal_result(&a_key, Ok::<(), String>(())), Ok(()));
    assert_eq!(
        removal_result(&a_role, Err::<(), String>("denied".to_string())),
        Err("denied".to_string())
    );
    assert_eq!(removal_result(&a_role, Ok::<(), String>(())), Ok(()));
}

#[test]
fn listings_show_the_roles_of_applications() {
    let role = |id: &str, name: Option<&str>, description: Option<&str>| IamRole {
        id: id.to_string(),
        name: name.map(|n| n.to_string()),
        description: description.map(|d| d.to_string()),
    };
    let roles = vec![
        role("r1", Some("proprion-svc-a"), Some("first")),
        role("r2", Some("admin"), Some("not ours")),
        role("r3", None, None),
        role("r4", Some("proprion-"), None),
        role("r5", Some("xproprion-svc"), None),
    ];
    let apps = app_listings(&roles);
    assert_eq!(apps.len(), 2);
    assert_eq!(apps[0].name, "svc-a");
    assert_eq!(apps[0].role_id, "r1");
    assert_eq!(apps[0].description, "first");
    assert_eq!(apps[1].name, "");
    assert_eq!(apps[1].role_id, "r4");
    assert_eq!(apps[1].description, "");
}

#[test]
fn bundle_as_json_names_the_location_by_provider() {
    let bundle = |provider: ProviderKind| CredentialBundle {
        provider,
        access_key: "AK".to_string(),
        secret_key: "SK".to_string(),
        endpoint: "https://e".to_string(),
        location: "loc".to_string(),
        bucket: "data".to_string(),
        prefix: "apps/x".to_string(),
    };
    let j = bundle(ProviderKind::StaticKey).to_json();
    assert_eq!(text_member(&j, "access_key"), Some("AK"));
    assert_eq!(text_member(&j, "secret_key"), Some("SK"));
    assert_eq!(text_member(&j, "endpoint"), Some("https://e"));
    assert_eq!(text_member(&j, "region"), Some("loc"));
    assert_eq!(text_member(&j, "zone"), None);
    assert_eq!(text_member(&j, "bucket"), Some("data"));
    assert_eq!(text_member(&j, "prefix"), Some("apps/x"));
    let j = bundle(ProviderKind::SignedRequest).to_json();
    assert_eq!(text_member(&j, "zone"), Some("loc"));
    assert_eq!(text_member(&j, "region"), None);
}

#[test]
fn error_contexts() {
    let e = |provider: ProviderKind, stage: Stage| ProvisionError {
        provider,
        stage,
        message: "m".to_string(),
    };
    assert_eq!(
        e(ProviderKind::SignedRequest, Stage::CreatePrincipal).message(),
        "Failed to create IAM role: m"
    );
    assert_eq!(
        e(ProviderKind::StaticKey, Stage::CreateScopedPolicy).message(),
        "Failed to create policy: m"
    );
    assert_eq!(
        e(ProviderKind::StaticKey, Stage::ApplyBucketPolicy).context(),
        "Failed to apply bucket policy"
    );
    assert_eq!(e(ProviderKind::SignedRequest, Stage::CreateApiKey).context(), "Failed to create API key");
}

#[test]
fn a_flow_takes_the_steps_of_its_provider() {
    let (flow, action) =
        Flow::start(ProviderConfig::Exoscale(exoscale()), "svc-b".to_string(), "d".to_string());
    assert!(matches!(flow, Flow::SignedRequest(_)));
    assert!(!flow.is_over());
    assert!(matches!(action, Action::EnsureBucket { .. }));
    let (flow, action) = flow.step(Event::BucketReady);
    assert!(matches!(action, Action::CreateRole { .. }));
    let (flow, action) = flow.step(Event::PrincipalCreated { id: "r".to_string() });
    assert!(matches!(action, Action::Wait { seconds: 3 }));
    let (flow, _) = flow.step(Event::Waited);
    let (flow, action) = flow.step(Event::KeyCreated {
        access_key: "k".to_string(),
        secret: Some("s".to_string()),
    });
    assert!(flow.is_over());
    match action {
        Action::Emit(bundle) => {
            assert_eq!(bundle.endpoint, "https://sos-de-fra-1.exo.io");
            assert_eq!(bundle.prefix, "apps/svc-b/");
        }
        other => panic!("unexpected: {:?}", other),
    }

    let (flow, action) =
        Flow::start(ProviderConfig::Scaleway(scaleway()), "svc-a".to_string(), "x".to_string());
    assert!(matches!(flow, Flow::StaticKey(_)));
    match action {
        Action::EnsureBucket { endpoint, .. } => assert_eq!(endpoint, "https://s3.fr-par.scw.cloud"),
        other => panic!("unexpected: {:?}", other),
    }
    let (flow, action) = flow.step(Event::BucketReady);
    assert!(matches!(action, Action::CreateApplication { .. }));
    let (flow, action) = flow.step(Event::Failed { message: "no".to_string() });
    assert!(flow.is_over());
    assert!(matches!(action, Action::Abort(_)));
}

#[test]
fn teardown_of_an_application_deletes_it_alone() {
    let plan = application_teardown("app-1");
    assert_eq!(plan.len(), 1);
    assert!(matches!(&plan[0], Removal::Application { application_id } if application_id == "app-1"));
    assert_eq!(
        removal_result(&plan[0], Err::<(), String>("denied".to_string())),
        Err("denied".to_string())
    );
}
