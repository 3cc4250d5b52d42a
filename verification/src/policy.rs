//! Bucket policy documents: the statement that admits one application to its
//! prefix, and the merge of such a statement into a bucket's policy.

use vstd::prelude::*;
use vstd::string::*;

use crate::json::{
    array_values, lemma_array_view, lemma_object_view, object_values, Json, JsonValue, Member,
};
use crate::text::{join2, same};

verus! {

/// The identifier of a statement: the text of its member `Sid`.
pub open spec fn sid_of(statement: JsonValue) -> Option<Seq<char>> {
    statement.text_member("Sid"@)
}

/// Whether a statement stays when one identified by `target` is merged in.
pub open spec fn stays(statement: JsonValue, target: Option<Seq<char>>) -> bool {
    sid_of(statement) is None || sid_of(statement) != target
}

/// The test that keeps the statements that stay.
pub open spec fn staying(target: Option<Seq<char>>) -> spec_fn(JsonValue) -> bool {
    |s: JsonValue| stays(s, target)
}

/// The statements that stay, in their order, followed by the new one.
pub open spec fn merged_statements(statements: Seq<JsonValue>, statement: JsonValue) -> Seq<
    JsonValue,
> {
    statements.filter(staying(sid_of(statement))).push(statement)
}

/// A policy without statements: the version marker and an empty list.
pub open spec fn empty_policy_value() -> JsonValue {
    JsonValue::Object(
        seq![
            ("Version"@, JsonValue::Text("2023-04-17"@)),
            ("Statement"@, JsonValue::Array(Seq::empty())),
        ],
    )
}

/// The statements of a policy: the items of its member `Statement`, where
/// that is an array.
pub open spec fn statements_of(policy: JsonValue) -> Option<Seq<JsonValue>> {
    match policy.member("Statement"@) {
        Some(JsonValue::Array(items)) => Some(items),
        _ => None,
    }
}

/// `policy` with `statements` in place of its own.
pub open spec fn with_statements(policy: JsonValue, statements: Seq<JsonValue>) -> JsonValue {
    match policy.index_of("Statement"@) {
        Some(i) => JsonValue::Object(
            policy->Object_0.update(i, ("Statement"@, JsonValue::Array(statements))),
        ),
        None => policy,
    }
}

/// The policy that holds `statement` alone: the version marker, and the
/// list with it.
pub open spec fn sole_policy_value(statement: JsonValue) -> JsonValue {
    JsonValue::Object(
        seq![
            ("Version"@, JsonValue::Text("2023-04-17"@)),
            ("Statement"@, JsonValue::Array(seq![statement])),
        ],
    )
}

/// The statements that a member `Statement` of this value holds: the items
/// of a list, and a single statement object as a list of one. Any other
/// value holds none.
pub open spec fn listed(value: JsonValue) -> Seq<JsonValue> {
    match value {
        JsonValue::Array(items) => items,
        JsonValue::Object(_) => seq![value],
        _ => Seq::empty(),
    }
}

/// The policy after `statement` is merged in: in every case it holds
/// `statement` as the last of its statements.
/// - In a policy that is an object with a member `Statement`, that member
///   becomes the list of the statements it held, without those that bear
///   the identifier of `statement`, and with `statement` last. The other
///   members of the policy stay as they are, each in its place.
/// - A policy that is an object without a member `Statement` gets one, as
///   its last member, with `statement` alone; its members stay as they are.
/// - Where there is no policy, or what there is is no object, the result is
///   the policy with `statement` alone.
pub open spec fn merged(existing: Option<JsonValue>, statement: JsonValue) -> JsonValue {
    match existing {
        Some(JsonValue::Object(members)) => match existing->0.member("Statement"@) {
            Some(held) => with_statements(
                existing->0,
                merged_statements(listed(held), statement),
            ),
            None => JsonValue::Object(
                members.push(("Statement"@, JsonValue::Array(seq![statement]))),
            ),
        },
        _ => sole_policy_value(statement),
    }
}

/// The characters of an optional text.
pub open spec fn text_of(t: Option<String>) -> Option<Seq<char>> {
    match t {
        Some(t) => Some(t@),
        None => None,
    }
}

fn statement_sid(statement: &Json) -> (r: Option<String>)
    ensures
        text_of(r) == sid_of(statement@),
{
    match statement.get("Sid") {
        Some(v) => match v.as_text() {
            Some(t) => Some(t.to_owned()),
            None => None,
        },
        None => None,
    }
}

fn retain_others(statements: Vec<Json>, target: &Option<String>) -> (kept: Vec<Json>)
    ensures
        array_values(kept@) == array_values(statements@).filter(staying(text_of(*target))),
{
    let ghost keep = staying(text_of(*target));
    let mut kept: Vec<Json> = Vec::new();
    proof {
        reveal(Seq::filter);
        assert(array_values(statements@.take(0)) =~= Seq::<JsonValue>::empty());
    }
    for s in it: statements
        invariant
            keep == staying(text_of(*target)),
            it.seq() == statements@,
            array_values(kept@) == array_values(statements@.take(it.index() as int)).filter(keep),
    {
        let ghost n = it.index() as int;
        let ghost before = array_values(statements@.take(n));
        let ghost after = array_values(statements@.take(n + 1));
        let ghost old_kept = array_values(kept@);
        proof {
            reveal(Seq::filter);
            assert(after.drop_last() =~= before);
            assert(after.last() == s@);
        }
        let sid = statement_sid(&s);
        let stay = match (&sid, target) {
            (Some(a), Some(b)) => !same(a.as_str(), b.as_str()),
            _ => true,
        };
        assert(stay == stays(s@, text_of(*target)));
        if stay {
            kept.push(s);
            assert(array_values(kept@) =~= old_kept.push(s@));
        }
    }
    proof {
        assert(statements@.take(statements@.len() as int) =~= statements@);
    }
    kept
}

/// The identifier of the statement of the application `app_name`.
pub open spec fn app_sid(app_name: Seq<char>) -> Seq<char> {
    "app-"@ + app_name
}

/// The resource of a statement: what lies under `app_prefix` in `bucket`.
pub open spec fn app_resource(bucket: Seq<char>, app_prefix: Seq<char>) -> Seq<char> {
    bucket + "/"@ + app_prefix + "/*"@
}

/// The statement that lets the application `application_id`, named
/// `app_name`, get, put and delete the objects under `app_prefix` in
/// `bucket`.
pub open spec fn statement_value(
    app_name: Seq<char>,
    application_id: Seq<char>,
    bucket: Seq<char>,
    app_prefix: Seq<char>,
) -> JsonValue {
    JsonValue::Object(
        seq![
            ("Sid"@, JsonValue::Text(app_sid(app_name))),
            ("Effect"@, JsonValue::Text("Allow"@)),
            (
                "Principal"@,
                JsonValue::Object(
                    seq![("SCW"@, JsonValue::Text("application_id:"@ + application_id))],
                ),
            ),
            (
                "Action"@,
                JsonValue::Array(
                    seq![
                        JsonValue::Text("s3:GetObject"@),
                        JsonValue::Text("s3:PutObject"@),
                        JsonValue::Text("s3:DeleteObject"@),
                    ],
                ),
            ),
            ("Resource"@, JsonValue::Text(app_resource(bucket, app_prefix))),
        ],
    )
}

/// The statement of an application bears the application's identifier.
pub proof fn lemma_statement_sid(
    app_name: Seq<char>,
    application_id: Seq<char>,
    bucket: Seq<char>,
    app_prefix: Seq<char>,
)
    ensures
        sid_of(statement_value(app_name, application_id, bucket, app_prefix)) == Some(
            app_sid(app_name),
        ),
        statement_value(app_name, application_id, bucket, app_prefix).text_member("Resource"@)
            == Some(app_resource(bucket, app_prefix)),
{
    reveal_strlit("Sid");
    reveal_strlit("Effect");
    reveal_strlit("Principal");
    reveal_strlit("Action");
    reveal_strlit("Resource");
    let s = statement_value(app_name, application_id, bucket, app_prefix);
    assert(s.first_named("Sid"@, 0));
    s.lemma_first_named("Sid"@, 0);
    assert("Sid"@[0] != "Resource"@[0]);
    assert("Effect"@[0] != "Resource"@[0]);
    assert("Principal"@[0] != "Resource"@[0]);
    assert("Action"@[0] != "Resource"@[0]);
    assert(s.first_named("Resource"@, 4));
    s.lemma_first_named("Resource"@, 4);
}

/// The statement that lets an application work on the objects under its
/// prefix. The four texts are taken as they are.
pub fn bucket_policy_statement(
    app_name: &str,
    application_id: &str,
    bucket: &str,
    app_prefix: &str,
) -> (statement: Json)
    ensures
        statement@ == statement_value(app_name@, application_id@, bucket@, app_prefix@),
{
    let sid = join2("app-", app_name);
    let principal_id = join2("application_id:", application_id);
    let mut resource = bucket.to_owned();
    resource.append("/");
    resource.append(app_prefix);
    resource.append("/*");
    assert(resource@ =~= app_resource(bucket@, app_prefix@));

    let mut principal_members: Vec<Member> = Vec::new();
    principal_members.push(Member::new("SCW", Json::text(principal_id.as_str())));
    let principal = Json::object(principal_members);
    assert(principal@->Object_0 =~= seq![
        ("SCW"@, JsonValue::Text("application_id:"@ + application_id@)),
    ]);

    let mut actions: Vec<Json> = Vec::new();
    actions.push(Json::text("s3:GetObject"));
    actions.push(Json::text("s3:PutObject"));
    actions.push(Json::text("s3:DeleteObject"));
    let action = Json::array(actions);
    assert(action@->Array_0 =~= seq![
        JsonValue::Text("s3:GetObject"@),
        JsonValue::Text("s3:PutObject"@),
        JsonValue::Text("s3:DeleteObject"@),
    ]);

    let mut members: Vec<Member> = Vec::new();
    members.push(Member::new("Sid", Json::text(sid.as_str())));
    members.push(Member::new("Effect", Json::text("Allow")));
    members.push(Member::new("Principal", principal));
    members.push(Member::new("Action", action));
    members.push(Member::new("Resource", Json::text(resource.as_str())));
    let statement = Json::object(members);
    assert(statement@->Object_0 =~= statement_value(
        app_name@,
        application_id@,
        bucket@,
        app_prefix@,
    )->Object_0);
    statement
}

/// The policy text that the answer to a policy query carries: the text of
/// its member `Policy`.
pub fn embedded_policy(answer: &Json) -> (r: Option<&str>)
    ensures
        match r {
            Some(text) => answer@.text_member("Policy"@) == Some(text@),
            None => answer@.text_member("Policy"@) is None,
        },
{
    match answer.get("Policy") {
        Some(v) => v.as_text(),
        None => None,
    }
}

/// A policy without statements.
pub fn empty_policy() -> (policy: Json)
    ensures
        policy@ == empty_policy_value(),
{
    let mut members: Vec<Member> = Vec::new();
    members.push(Member { name: "Version".to_owned(), value: Json::Text("2023-04-17".to_owned()) });
    let statements: Vec<Json> = Vec::new();
    proof {
        lemma_array_view(statements);
    }
    members.push(Member { name: "Statement".to_owned(), value: Json::Array(statements) });
    proof {
        lemma_object_view(members);
        assert(array_values(statements@) =~= Seq::<JsonValue>::empty());
        assert(object_values(members@) =~= empty_policy_value()->Object_0);
    }
    Json::Object(members)
}

/// The policy that holds `statement` alone.
pub fn sole_policy(statement: Json) -> (policy: Json)
    ensures
        policy@ == sole_policy_value(statement@),
{
    let mut statements: Vec<Json> = Vec::new();
    statements.push(statement);
    let list = Json::array(statements);
    assert(list@->Array_0 =~= seq![statement@]);
    let mut members: Vec<Member> = Vec::new();
    members.push(Member::new("Version", Json::text("2023-04-17")));
    members.push(Member::new("Statement", list));
    let policy = Json::object(members);
    assert(policy@->Object_0 =~= sole_policy_value(statement@)->Object_0);
    policy
}

/// Merges `statement` into `existing`: the result holds it as the last of
/// its statements, in place of those that bore its identifier.
pub fn merge(existing: Option<Json>, statement: Json) -> (policy: Json)
    ensures
        policy@ == merged(
            match existing {
                Some(p) => Some(p@),
                None => None,
            },
            statement@,
        ),
{
    let base = match existing {
        Some(p) => p,
        None => {
            return sole_policy(statement);
        },
    };
    let at = base.position("Statement");
    let ghost before = base@;
    proof {
        before.lemma_index_of("Statement"@);
    }
    match (base, at) {
        (Json::Object(mut members), Some(i)) => {
            proof {
                lemma_object_view(members);
            }
            let target = statement_sid(&statement);
            let old = members.remove(i);
            let ghost held = old.value@;
            let statements: Vec<Json> = match old.value {
                Json::Array(items) => {
                    proof {
                        lemma_array_view(items);
                    }
                    items
                },
                Json::Object(parts) => {
                    let mut one: Vec<Json> = Vec::new();
                    one.push(Json::Object(parts));
                    assert(array_values(one@) =~= seq![held]);
                    one
                },
                _ => Vec::new(),
            };
            assert(array_values(statements@) =~= listed(held));
            let mut kept = retain_others(statements, &target);
            kept.push(statement);
            proof {
                lemma_array_view(kept);
                assert(array_values(kept@) =~= merged_statements(listed(held), statement@));
            }
            members.insert(i, Member { name: old.name, value: Json::Array(kept) });
            proof {
                lemma_object_view(members);
                assert(object_values(members@) =~= before->Object_0.update(
                    i as int,
                    ("Statement"@, JsonValue::Array(array_values(kept@))),
                ));
            }
            Json::Object(members)
        },
        (Json::Object(mut members), None) => {
            proof {
                lemma_object_view(members);
            }
            let mut statements: Vec<Json> = Vec::new();
            statements.push(statement);
            let list = Json::array(statements);
            assert(list@->Array_0 =~= seq![statement@]);
            members.push(Member::new("Statement", list));
            let policy = Json::object(members);
            assert(policy@->Object_0 =~= before->Object_0.push(
                ("Statement"@, JsonValue::Array(seq![statement@])),
            ));
            policy
        },
        (_, _) => sole_policy(statement),
    }
}

/// The test that finds the statements identified by `sid`.
pub open spec fn bearing(sid: Seq<char>) -> spec_fn(JsonValue) -> bool {
    |s: JsonValue| sid_of(s) == Some(sid)
}

proof fn lemma_filter_none<A>(s: Seq<A>, p: spec_fn(A) -> bool)
    requires
        forall|i: int| 0 <= i < s.len() ==> !p(#[trigger] s[i]),
    ensures
        s.filter(p) == Seq::<A>::empty(),
    decreases s.len(),
{
    reveal(Seq::filter);
    if s.len() > 0 {
        lemma_filter_none(s.drop_last(), p);
    }
}

proof fn lemma_filter_all<A>(s: Seq<A>, p: spec_fn(A) -> bool)
    requires
        forall|i: int| 0 <= i < s.len() ==> p(#[trigger] s[i]),
    ensures
        s.filter(p) == s,
    decreases s.len(),
{
    reveal(Seq::filter);
    if s.len() > 0 {
        lemma_filter_all(s.drop_last(), p);
        assert(s.drop_last().push(s.last()) =~= s);
    }
}

proof fn lemma_merged_statements(statements: Seq<JsonValue>, statement: JsonValue)
    requires
        sid_of(statement) is Some,
    ensures
        merged_statements(statements, statement).filter(staying(sid_of(statement)))
            == statements.filter(staying(sid_of(statement))),
        merged_statements(statements, statement).filter(bearing(sid_of(statement)->0)) == seq![
            statement,
        ],
{
    reveal(Seq::filter);
    let target = sid_of(statement);
    let others = statements.filter(staying(target));
    let all = merged_statements(statements, statement);
    assert(all.drop_last() =~= others);
    assert forall|i: int| 0 <= i < others.len() implies staying(target)(#[trigger] others[i])
        && !bearing(target->0)(others[i]) by {
        statements.lemma_filter_pred(staying(target), i);
    }
    lemma_filter_all(others, staying(target));
    lemma_filter_none(others, bearing(target->0));
    assert(all.filter(bearing(target->0)) =~= seq![statement]);
}

proof fn lemma_with_statements(policy: JsonValue, statements: Seq<JsonValue>)
    requires
        policy.index_of("Statement"@) is Some,
    ensures
        with_statements(policy, statements).index_of("Statement"@) == policy.index_of(
            "Statement"@,
        ),
        statements_of(with_statements(policy, statements)) == Some(statements),
        forall|others: Seq<JsonValue>|
            with_statements(#[trigger] with_statements(policy, statements), others)
                == with_statements(policy, others),
{
    let name = "Statement"@;
    policy.lemma_index_of(name);
    let i = policy.index_of(name)->0;
    let changed = with_statements(policy, statements);
    assert(changed.first_named(name, i));
    changed.lemma_first_named(name, i);
    assert forall|others: Seq<JsonValue>|
        with_statements(#[trigger] with_statements(policy, statements), others)
            == with_statements(policy, others) by {
        assert(changed->Object_0.update(i, (name, JsonValue::Array(others)))
            =~= policy->Object_0.update(i, (name, JsonValue::Array(others))));
    }
}

proof fn lemma_sole_policy(statement: JsonValue)
    ensures
        sole_policy_value(statement).index_of("Statement"@) == Some(1int),
        statements_of(sole_policy_value(statement)) == Some(seq![statement]),
{
    reveal_strlit("Statement");
    reveal_strlit("Version");
    let policy = sole_policy_value(statement);
    assert("Version"@[0] != "Statement"@[0]);
    assert(policy.first_named("Statement"@, 1));
    policy.lemma_first_named("Statement"@, 1);
}

proof fn lemma_added_statements(members: Seq<(Seq<char>, JsonValue)>, statements: Seq<JsonValue>)
    requires
        JsonValue::Object(members).member("Statement"@) is None,
    ensures
        ({
            let policy = JsonValue::Object(
                members.push(("Statement"@, JsonValue::Array(statements))),
            );
            &&& policy.index_of("Statement"@) == Some(members.len() as int)
            &&& statements_of(policy) == Some(statements)
        }),
{
    let name = "Statement"@;
    let old = JsonValue::Object(members);
    old.lemma_index_of(name);
    let policy = JsonValue::Object(members.push((name, JsonValue::Array(statements))));
    assert forall|j: int| 0 <= j < members.len() implies (#[trigger] policy->Object_0[j]).0
        != name by {
        assert(members[j].0 != name);
    }
    assert(policy.first_named(name, members.len() as int));
    policy.lemma_first_named(name, members.len() as int);
}

/// The statements of the policy that `statement` is merged into: those
/// that the member `Statement` of an object holds, and none in every other
/// case.
pub open spec fn statements_before(existing: Option<JsonValue>) -> Seq<JsonValue> {
    match existing {
        Some(JsonValue::Object(_)) => match existing->0.member("Statement"@) {
            Some(held) => listed(held),
            None => Seq::empty(),
        },
        _ => Seq::empty(),
    }
}

/// The statements after a merge are those of before that stay, in their
/// order, and then the merged one.
pub proof fn lemma_merged_holds(existing: Option<JsonValue>, statement: JsonValue)
    ensures
        statements_of(merged(existing, statement)) == Some(
            merged_statements(statements_before(existing), statement),
        ),
{
    reveal(Seq::filter);
    lemma_sole_policy(statement);
    assert(merged_statements(Seq::empty(), statement) =~= seq![statement]);
    if let Some(JsonValue::Object(members)) = existing {
        let policy = existing->0;
        match policy.member("Statement"@) {
            Some(held) => {
                lemma_with_statements(policy, merged_statements(listed(held), statement));
            },
            None => {
                lemma_added_statements(members, seq![statement]);
            },
        }
    }
}

/// A merge into a policy that is an object changes its member `Statement`
/// and no other: where the policy has the member, every other member stays
/// in its place with its value, and none is added or taken away; where it
/// has none, the member is added after the others, which stay.
pub proof fn lemma_merge_keeps_members(
    members: Seq<(Seq<char>, JsonValue)>,
    statement: JsonValue,
)
    ensures
        ({
            let policy = JsonValue::Object(members);
            let after = merged(Some(policy), statement);
            &&& after is Object
            &&& match policy.index_of("Statement"@) {
                Some(at) => {
                    &&& after->Object_0.len() == members.len()
                    &&& after->Object_0[at].0 == "Statement"@
                    &&& forall|i: int|
                        0 <= i < members.len() && i != at ==> #[trigger] after->Object_0[i]
                            == members[i]
                },
                None => {
                    &&& after->Object_0.len() == members.len() + 1
                    &&& after->Object_0[members.len() as int].0 == "Statement"@
                    &&& forall|i: int|
                        0 <= i < members.len() ==> #[trigger] after->Object_0[i] == members[i]
                },
            }
        }),
{
    JsonValue::Object(members).lemma_index_of("Statement"@);
}

/// Merged into no policy, a statement is the only one of a policy that
/// bears the version marker.
pub proof fn lemma_merge_into_none(statement: JsonValue)
    ensures
        merged(None, statement) == JsonValue::Object(
            seq![
                ("Version"@, JsonValue::Text("2023-04-17"@)),
                ("Statement"@, JsonValue::Array(seq![statement])),
            ],
        ),
        statements_of(merged(None, statement)) == Some(seq![statement]),
{
    lemma_sole_policy(statement);
}

/// After a merge, whatever the policy was, exactly one statement bears the
/// identifier of the merged one: the merged one, which comes last. The
/// statements with other identifiers, or with none, are those of before, in
/// their order.
pub proof fn lemma_merge_one_per_sid(existing: Option<JsonValue>, statement: JsonValue)
    requires
        sid_of(statement) is Some,
    ensures
        statements_of(merged(existing, statement)) matches Some(after) && {
            let before = statements_before(existing);
            &&& after.filter(bearing(sid_of(statement)->0)) == seq![statement]
            &&& after.last() == statement
            &&& after.drop_last() == before.filter(staying(sid_of(statement)))
            &&& after.filter(staying(sid_of(statement))) == before.filter(
                staying(sid_of(statement)),
            )
        },
{
    let before = statements_before(existing);
    lemma_merged_holds(existing, statement);
    lemma_merged_statements(before, statement);
    assert(merged_statements(before, statement).drop_last() =~= before.filter(
        staying(sid_of(statement)),
    ));
}

/// A statement merged after one of the same identifier takes its place: the
/// policy is the one that merging the second alone gives.
pub proof fn lemma_merge_replaces(existing: Option<JsonValue>, first: JsonValue, second: JsonValue)
    requires
        sid_of(first) is Some,
        sid_of(first) == sid_of(second),
    ensures
        merged(Some(merged(existing, first)), second) == merged(existing, second),
{
    reveal(Seq::filter);
    lemma_sole_policy(first);
    let alone = seq![first];
    assert(merged_statements(alone, second) =~= seq![second]) by {
        assert(!staying(sid_of(second))(first));
        lemma_filter_none(alone, staying(sid_of(second)));
    }
    let once = merged(existing, first);
    if let Some(JsonValue::Object(members)) = existing {
        let policy = existing->0;
        match policy.member("Statement"@) {
            Some(held) => {
                let kept = merged_statements(listed(held), first);
                lemma_with_statements(policy, kept);
                lemma_merged_statements(listed(held), first);
                policy.lemma_index_of("Statement"@);
                assert(merged_statements(kept, second) =~= merged_statements(
                    listed(held),
                    second,
                ));
            },
            None => {
                lemma_added_statements(members, alone);
                assert(with_statements(once, seq![second])->Object_0 =~= members.push(
                    ("Statement"@, JsonValue::Array(seq![second])),
                ));
            },
        }
    } else {
        lemma_with_statements(once, seq![second]);
        assert(with_statements(once, seq![second])->Object_0 =~= sole_policy_value(
            second,
        )->Object_0);
    }
}

/// Provisioning an application again replaces its statement: whatever the
/// two statements of one application name hold, merging the second after
/// the first gives what merging the second alone gives.
pub proof fn lemma_reprovision_replaces(
    existing: Option<JsonValue>,
    app_name: Seq<char>,
    first_id: Seq<char>,
    first_bucket: Seq<char>,
    first_prefix: Seq<char>,
    second_id: Seq<char>,
    second_bucket: Seq<char>,
    second_prefix: Seq<char>,
)
    ensures
        ({
            let first = statement_value(app_name, first_id, first_bucket, first_prefix);
            let second = statement_value(app_name, second_id, second_bucket, second_prefix);
            merged(Some(merged(existing, first)), second) == merged(existing, second)
        }),
{
    lemma_statement_sid(app_name, first_id, first_bucket, first_prefix);
    lemma_statement_sid(app_name, second_id, second_bucket, second_prefix);
    lemma_merge_replaces(
        existing,
        statement_value(app_name, first_id, first_bucket, first_prefix),
        statement_value(app_name, second_id, second_bucket, second_prefix),
    );
}

/// Merging the same statement twice gives what merging it once gives.
pub proof fn lemma_merge_idempotent(existing: Option<JsonValue>, statement: JsonValue)
    requires
        sid_of(statement) is Some,
    ensures
        merged(Some(merged(existing, statement)), statement) == merged(existing, statement),
{
    lemma_merge_replaces(existing, statement, statement);
}

} // verus!
