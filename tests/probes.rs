use graphql_check_action::{
    add_auth, basic_query, check_enforced, check_subgraph, get_json, parse_boolean,
    parse_introspection, require_introspection_disabled, start_probe, Auth, Error, Exchange,
    Introspection, ProbeOutcome, Query, Step, Subgraph,
};

fn response(status: u16, body: &str) -> Exchange {
    Exchange::Response { status, body: Some(body.as_bytes().to_vec()) }
}

fn outcome(status: u16, body: &str) -> ProbeOutcome {
    get_json(&response(status, body))
}

fn credential(line: &str) -> Auth {
    Auth::new(Some(line.to_string()))
}

const TYPENAME: &str = r#"{"data":{"__typename":"Query"}}"#;
const SERVICE: &str = r#"{"data":{"_service":{"sdl":"type Query { me: String }"}}}"#;
const SCHEMA: &str = r#"{"data":{"__schema":{"types":[{"name":"Query"}]}}}"#;
const UNAUTHORIZED: &str = r#"{"errors":[{"message":"unauthorized"}]}"#;

#[test]
fn unauth_success() {
    assert_eq!(basic_query(&outcome(200, TYPENAME)), Ok(()));
}

#[test]
fn success_subgraph() {
    assert_eq!(basic_query(&outcome(200, r#"{"data":{"__typename":"Query","_service":{"sdl":""}}}"#)), Ok(()));
}

#[test]
fn bad_url() {
    assert_eq!(basic_query(&get_json(&Exchange::InvalidRequest)), Err(Error::BadUri));
}

#[test]
fn not_found() {
    assert_eq!(basic_query(&get_json(&Exchange::ConnectionFailed)), Err(Error::CouldNotConnect));
}

#[test]
fn post_not_accepted() {
    assert_eq!(basic_query(&outcome(405, "Method Not Allowed")), Err(Error::BadStatus(405)));
}

#[test]
fn no_json_returned() {
    assert_eq!(basic_query(&outcome(200, "<html>hello</html>")), Err(Error::NotGraphQL));
}

#[test]
fn not_graphql() {
    assert_eq!(basic_query(&outcome(200, r#"{"hello":"world"}"#)), Err(Error::NotGraphQL));
}

#[test]
fn auth_success() {
    let auth = credential("Authorization: Bearer token");
    assert!(matches!(start_probe(&auth, Query::Typename), Step::Send { .. }));
    assert_eq!(basic_query(&outcome(200, TYPENAME)), Ok(()));
}

#[test]
fn subgraph_auth_success() {
    let auth = credential("Authorization: Bearer token");
    assert!(matches!(start_probe(&auth, Query::Service), Step::Send { .. }));
    assert_eq!(check_subgraph(&outcome(200, SERVICE)), Ok(()));
}

#[test]
fn auth_failure() {
    assert!(matches!(
        basic_query(&outcome(200, UNAUTHORIZED)),
        Err(Error::GraphQLError(_))
    ));
}

#[test]
fn missing_auth() {
    match basic_query(&outcome(400, UNAUTHORIZED)) {
        Err(Error::BadStatus(400)) => (),
        other => panic!("Expected Err(BadStatus(400)), got {:?}", other),
    }
}

#[test]
fn happy() {
    check_subgraph(&outcome(200, SERVICE)).unwrap();
}

#[test]
fn happy_with_auth() {
    let auth = credential("Authorization: Bearer token");
    assert!(matches!(start_probe(&auth, Query::Service), Step::Send { .. }));
    check_subgraph(&outcome(200, SERVICE)).unwrap();
}

#[test]
fn not_a_subgraph() {
    let o = outcome(400, r#"{"errors":[{"message":"Cannot query field \"_service\""}]}"#);
    assert_eq!(check_subgraph(&o), Err(Error::NotASubgraph));
}

#[test]
fn lib_happy() {
    let o = outcome(200, r#"{"errors":[{"message":"introspection is disabled"}]}"#);
    require_introspection_disabled(&o).unwrap();
}

#[test]
fn introspection_enabled() {
    assert_eq!(require_introspection_disabled(&outcome(200, SCHEMA)), Err(Error::IntrospectionEnabled));
}

#[test]
fn introspection_null_schema_is_not_enabled() {
    assert_eq!(require_introspection_disabled(&outcome(200, r#"{"data":{"__schema":null}}"#)), Ok(()));
}

#[test]
fn introspection_probe_failure_is_surfaced() {
    assert_eq!(require_introspection_disabled(&outcome(502, "")), Err(Error::BadStatus(502)));
    assert_eq!(require_introspection_disabled(&get_json(&Exchange::ConnectionFailed)), Err(Error::CouldNotConnect));
}

#[test]
fn status_is_checked_before_body() {
    assert!(matches!(outcome(500, "not json"), ProbeOutcome::UnexpectedStatus(500)));
    assert!(matches!(outcome(302, TYPENAME), ProbeOutcome::UnexpectedStatus(302)));
    assert!(matches!(outcome(299, "not json"), ProbeOutcome::NonGraphQLBody));
}

#[test]
fn unreadable_body_is_not_graphql() {
    let x = Exchange::Response { status: 200, body: None };
    assert!(matches!(get_json(&x), ProbeOutcome::NonGraphQLBody));
}

#[test]
fn errors_member_is_serialized_compactly() {
    match outcome(200, r#"{ "errors" : [ { "message" : "no" } ], "data": null }"#) {
        ProbeOutcome::GraphQLLevelError(m) => assert_eq!(m, r#"[{"message":"no"}]"#),
        _ => panic!("expected a GraphQL error"),
    }
}

#[test]
fn typename_must_be_a_string() {
    assert_eq!(basic_query(&outcome(200, r#"{"data":{"__typename":7}}"#)), Err(Error::NotGraphQL));
    assert_eq!(basic_query(&outcome(200, r#"[1,2]"#)), Err(Error::NotGraphQL));
}

#[test]
fn enforcement_reads_the_unauthenticated_probe() {
    assert_eq!(check_enforced(&outcome(200, TYPENAME)), Err(Error::AuthNotEnforced));
    assert_eq!(check_enforced(&outcome(200, r#"{"data":{}}"#)), Err(Error::AuthNotEnforced));
    assert_eq!(check_enforced(&outcome(401, "")), Ok(()));
    assert_eq!(check_enforced(&outcome(200, UNAUTHORIZED)), Ok(()));
    assert_eq!(check_enforced(&outcome(200, "nope")), Err(Error::NotGraphQL));
    assert_eq!(check_enforced(&get_json(&Exchange::InvalidRequest)), Err(Error::BadUri));
}

#[test]
fn header_is_split_at_first_colon_and_trimmed() {
    let h = add_auth(&credential("Authorization:  Bearer a:b \t")).unwrap().unwrap();
    assert_eq!(h.name, "Authorization");
    assert_eq!(h.value, "Bearer a:b");
    let h = add_auth(&credential("X-Key:\u{3000}v\u{a0}")).unwrap().unwrap();
    assert_eq!(h.name, "X-Key");
    assert_eq!(h.value, "v");
    let h = add_auth(&credential(":   ")).unwrap().unwrap();
    assert_eq!(h.name, "");
    assert_eq!(h.value, "");
}

#[test]
fn no_credential_no_header() {
    assert!(matches!(add_auth(&Auth::new(None)), Ok(None)));
    assert!(matches!(Auth::new(None), Auth::Disabled));
    assert!(!Auth::new(None).is_enabled());
    assert!(credential("a: b").is_enabled());
}

#[test]
fn header_without_colon_is_rejected_before_sending() {
    let auth = credential("Bearer token");
    assert!(matches!(add_auth(&auth), Err(Error::BadHeader)));
    assert!(matches!(start_probe(&auth, Query::Schema), Step::Done(ProbeOutcome::BadHeader)));
    assert_eq!(check_subgraph(&ProbeOutcome::BadHeader), Err(Error::NotASubgraph));
    assert_eq!(basic_query(&ProbeOutcome::BadHeader), Err(Error::BadHeader));
}

#[test]
fn probe_sends_fixed_queries() {
    assert_eq!(Query::Typename.text(), "query{__typename}");
    assert_eq!(Query::Service.text(), "query{_service{sdl}}");
    assert_eq!(Query::Schema.text(), "query{__schema{types{name}}}");
    match start_probe(&Auth::Disabled, Query::Service) {
        Step::Send { query, header } => {
            assert_eq!(query, Query::Service);
            assert!(header.is_none());
        }
        Step::Done(_) => panic!("expected a request"),
    }
}

#[test]
fn booleans_parse_strictly() {
    assert_eq!(parse_boolean("true", "subgraph"), Ok(true));
    assert_eq!(parse_boolean("false", "subgraph"), Ok(false));
    assert_eq!(parse_boolean("True", "subgraph"), Err(Error::BadBoolean("subgraph")));
    assert_eq!(parse_boolean("", "insecure_subgraph"), Err(Error::BadBoolean("insecure_subgraph")));
}

#[test]
fn subgraph_policy_from_inputs() {
    assert_eq!(Subgraph::from_flags(true, true), Subgraph::Insecure);
    assert_eq!(Subgraph::from_flags(true, false), Subgraph::Secure);
    assert_eq!(Subgraph::from_flags(false, true), Subgraph::NotASubgraph);
    assert_eq!(Subgraph::from_flags(false, false), Subgraph::NotASubgraph);
}

#[test]
fn introspection_policy_from_input() {
    assert_eq!(parse_introspection("true", Subgraph::NotASubgraph), Ok(Introspection::Allow));
    assert_eq!(parse_introspection("false", Subgraph::Secure), Ok(Introspection::Disallow));
    assert_eq!(parse_introspection("", Subgraph::NotASubgraph), Ok(Introspection::Disallow));
    assert_eq!(parse_introspection("", Subgraph::Secure), Ok(Introspection::Allow));
    assert_eq!(parse_introspection("", Subgraph::Insecure), Ok(Introspection::Allow));
    assert_eq!(
        parse_introspection("yes", Subgraph::Insecure),
        Err(Error::BadBoolean("allow_introspection"))
    );
}
