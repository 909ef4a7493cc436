//! The orchestration of a run: which findings each check contributes, the
//! cross-check on unprotected subgraphs, and the de-duplicated report.
use crate::checks::{
    basic_finding, basic_query, check_enforced, check_subgraph, enforcement_finding, has_typename,
    introspection_finding, require_introspection_disabled, subgraph_finding, verdict,
};
use crate::finding::{
    dedup, distinct, lemma_distinct_contains, lemma_distinct_idempotent,
    lemma_distinct_no_duplicates, views, Error, Finding,
};
use crate::json::{json_member, json_parse};
use crate::policy::{Auth, Introspection, Subgraph};
use crate::probe::{exchange_outcome, is_success_status, Exchange, ProbeOutcome};
use vstd::prelude::*;

verus! {

/// No finding, or the one given.
pub open spec fn listed(f: Option<Finding>) -> Seq<Finding> {
    match f {
        Some(x) => seq![x],
        None => Seq::empty(),
    }
}

/// The outcome of a probe that may not have been sent.
pub open spec fn sent(o: Option<ProbeOutcome>) -> Option<Result<serde_json::Value, Finding>> {
    match o {
        Some(p) => Some(p@),
        None => None,
    }
}

/// The findings of the authentication check: the authenticated probe's
/// failure, then what the unauthenticated probe shows.
pub open spec fn auth_findings(
    authed: Option<Result<serde_json::Value, Finding>>,
    unauthed: Result<serde_json::Value, Finding>,
) -> Seq<Finding> {
    match authed {
        Some(a) => listed(basic_finding(a)) + listed(enforcement_finding(unauthed)),
        None => listed(basic_finding(unauthed)),
    }
}

/// A subgraph that answers without a credential, where one is expected.
pub open spec fn insecure_subgraph(
    credential: bool,
    subgraph: Subgraph,
    service: Result<serde_json::Value, Finding>,
) -> bool {
    service is Ok && !credential && subgraph.spec_security_required()
}

/// Every finding of a run, in the order the checks contribute them.
pub open spec fn run_findings(
    subgraph: Subgraph,
    unauthed: Result<serde_json::Value, Finding>,
    authed: Option<Result<serde_json::Value, Finding>>,
    service: Result<serde_json::Value, Finding>,
    schema: Option<Result<serde_json::Value, Finding>>,
) -> Seq<Finding> {
    auth_findings(authed, unauthed) + (if subgraph.spec_required() {
        listed(subgraph_finding(service))
    } else {
        Seq::empty()
    }) + (if insecure_subgraph(authed is Some, subgraph, service) {
        seq![Finding::InsecureSubgraph]
    } else {
        Seq::empty()
    }) + match schema {
        Some(s) => listed(introspection_finding(s)),
        None => Seq::empty(),
    }
}

/// The report of a run: its findings, each once, in first-seen order.
pub open spec fn run_report(
    subgraph: Subgraph,
    unauthed: ProbeOutcome,
    authed: Option<ProbeOutcome>,
    service: ProbeOutcome,
    schema: Option<ProbeOutcome>,
) -> Seq<Finding> {
    distinct(run_findings(subgraph, unauthed@, sent(authed), service@, sent(schema)))
}

fn push_verdict(errors: &mut Vec<Error>, r: Result<(), Error>)
    ensures
        views(final(errors)@) == views(old(errors)@) + listed(verdict(r)),
{
    match r {
        Ok(()) => {
            assert(views(errors@) + listed(verdict(r)) =~= views(errors@));
        },
        Err(e) => {
            let ghost before = errors@;
            errors.push(e);
            assert(views(errors@) =~= views(before) + listed(verdict(r)));
        },
    }
}

/// Combines the outcomes of the probes of a run into its report: `Ok` when
/// nothing was found, else the findings, each once, in first-seen order.
///
/// `unauthed` and `service` are the trivial and the federation query sent
/// without and with the credential; `authed` is the trivial query with the
/// credential, sent only when one was supplied; `schema` is the
/// introspection query, sent only when introspection is disallowed.
pub fn report(
    auth: &Auth,
    subgraph: Subgraph,
    introspection: Introspection,
    unauthed: &ProbeOutcome,
    authed: &Option<ProbeOutcome>,
    service: &ProbeOutcome,
    schema: &Option<ProbeOutcome>,
) -> (r: Result<(), Vec<Error>>)
    requires
        authed is Some <==> auth is Enabled,
        schema is Some <==> introspection is Disallow,
    ensures
        match r {
            Ok(()) => run_report(subgraph, *unauthed, *authed, *service, *schema).len() == 0,
            Err(v) => run_report(subgraph, *unauthed, *authed, *service, *schema).len() > 0
                && views(v@) == run_report(subgraph, *unauthed, *authed, *service, *schema),
        },
{
    let mut errors: Vec<Error> = Vec::new();
    match authed {
        Some(a) => {
            push_verdict(&mut errors, basic_query(a));
            push_verdict(&mut errors, check_enforced(unauthed));
        },
        None => {
            push_verdict(&mut errors, basic_query(unauthed));
        },
    }
    let found = check_subgraph(service);
    let is_subgraph = found.is_ok();
    if subgraph.required() {
        push_verdict(&mut errors, found);
    }
    if is_subgraph && !auth.is_enabled() && subgraph.security_required() {
        errors.push(Error::InsecureSubgraph);
    }
    if let Some(s) = schema {
        push_verdict(&mut errors, require_introspection_disabled(s));
    }
    assert(views(errors@) =~= run_findings(subgraph, unauthed@, sent(*authed), service@, sent(*schema)));
    let unique = dedup(errors);
    if unique.len() == 0 {
        Ok(())
    } else {
        Err(unique)
    }
}

/// `x` stands in `s` exactly once.
pub open spec fn occurs_once(s: Seq<Finding>, x: Finding) -> bool {
    exists|k: int|
        0 <= k < s.len() && s[k] == x && forall|j: int| 0 <= j < s.len() && s[j] == x ==> j == k
}

proof fn lemma_once_in_distinct(s: Seq<Finding>, x: Finding)
    requires
        s.contains(x),
    ensures
        occurs_once(distinct(s), x),
{
    lemma_distinct_contains(s);
    lemma_distinct_no_duplicates(s);
    let d = distinct(s);
    assert(d.contains(x));
    let k = choose|k: int| 0 <= k < d.len() && d[k] == x;
    assert(forall|j: int| 0 <= j < d.len() && d[j] == x ==> j == k);
}

/// Every finding that some check contributes stands in the report exactly
/// once, however many checks contribute it.
pub proof fn lemma_findings_reported_once(
    subgraph: Subgraph,
    unauthed: ProbeOutcome,
    authed: Option<ProbeOutcome>,
    service: ProbeOutcome,
    schema: Option<ProbeOutcome>,
    x: Finding,
)
    requires
        run_findings(subgraph, unauthed@, sent(authed), service@, sent(schema)).contains(x),
    ensures
        occurs_once(run_report(subgraph, unauthed, authed, service, schema), x),
{
    lemma_once_in_distinct(run_findings(subgraph, unauthed@, sent(authed), service@, sent(schema)), x);
}

/// The report holds no finding twice, and nothing that no check contributes.
pub proof fn lemma_report_is_distinct(
    subgraph: Subgraph,
    unauthed: ProbeOutcome,
    authed: Option<ProbeOutcome>,
    service: ProbeOutcome,
    schema: Option<ProbeOutcome>,
)
    ensures
        run_report(subgraph, unauthed, authed, service, schema).no_duplicates(),
        forall|x: Finding| #[trigger]
            run_report(subgraph, unauthed, authed, service, schema).contains(x) <==> run_findings(
                subgraph,
                unauthed@,
                sent(authed),
                service@,
                sent(schema),
            ).contains(x),
{
    let s = run_findings(subgraph, unauthed@, sent(authed), service@, sent(schema));
    lemma_distinct_no_duplicates(s);
    lemma_distinct_contains(s);
}

/// With a credential supplied, an unauthenticated success is reported as
/// `AuthNotEnforced` exactly once, whatever the authenticated probe gave.
pub proof fn lemma_auth_not_enforced_reported_once(
    subgraph: Subgraph,
    unauthed: ProbeOutcome,
    authed: ProbeOutcome,
    service: ProbeOutcome,
    schema: Option<ProbeOutcome>,
)
    requires
        unauthed is Success,
    ensures
        occurs_once(
            run_report(subgraph, unauthed, Some(authed), service, schema),
            Finding::AuthNotEnforced,
        ),
{
    let s = run_findings(subgraph, unauthed@, sent(Some(authed)), service@, sent(schema));
    let a = listed(basic_finding(authed@));
    assert(s[a.len() as int] == Finding::AuthNotEnforced);
    lemma_once_in_distinct(s, Finding::AuthNotEnforced);
}

/// No check but the cross-check on subgraphs contributes `InsecureSubgraph`.
proof fn lemma_insecure_only_from_cross_check(
    subgraph: Subgraph,
    unauthed: ProbeOutcome,
    authed: Option<ProbeOutcome>,
    service: ProbeOutcome,
    schema: Option<ProbeOutcome>,
)
    ensures
        run_report(subgraph, unauthed, authed, service, schema).contains(Finding::InsecureSubgraph)
            <==> insecure_subgraph(authed is Some, subgraph, service@),
{
    let s = run_findings(subgraph, unauthed@, sent(authed), service@, sent(schema));
    lemma_distinct_contains(s);
    let a = auth_findings(sent(authed), unauthed@);
    let b = if subgraph.spec_required() {
        listed(subgraph_finding(service@))
    } else {
        Seq::empty()
    };
    let c = if insecure_subgraph(authed is Some, subgraph, service@) {
        seq![Finding::InsecureSubgraph]
    } else {
        Seq::empty()
    };
    let d = match sent(schema) {
        Some(o) => listed(introspection_finding(o)),
        None => Seq::empty(),
    };
    assert(s == a + b + c + d);
    assert(!a.contains(Finding::InsecureSubgraph));
    assert(!b.contains(Finding::InsecureSubgraph));
    assert(!d.contains(Finding::InsecureSubgraph));
    if insecure_subgraph(authed is Some, subgraph, service@) {
        assert(s[(a.len() + b.len()) as int] == Finding::InsecureSubgraph);
    } else {
        assert forall|k: int| 0 <= k < s.len() implies s[k] != Finding::InsecureSubgraph by {
            if k < a.len() {
                assert(s[k] == a[k]);
            } else if k < a.len() + b.len() {
                assert(s[k] == b[k - a.len()]);
            } else {
                assert(s[k] == d[k - a.len() - b.len()]);
            }
        }
    }
}

/// An endpoint not declared a subgraph that answers the federation query
/// without a credential is reported as an insecure subgraph.
pub proof fn lemma_undeclared_subgraph_without_credential(
    unauthed: ProbeOutcome,
    service: ProbeOutcome,
    schema: Option<ProbeOutcome>,
)
    requires
        service is Success,
    ensures
        run_report(Subgraph::NotASubgraph, unauthed, None, service, schema).contains(
            Finding::InsecureSubgraph,
        ),
{
    lemma_insecure_only_from_cross_check(Subgraph::NotASubgraph, unauthed, None, service, schema);
}

/// When a credential is supplied, no endpoint is reported as an insecure
/// subgraph.
pub proof fn lemma_no_insecure_subgraph_with_credential(
    subgraph: Subgraph,
    unauthed: ProbeOutcome,
    authed: ProbeOutcome,
    service: ProbeOutcome,
    schema: Option<ProbeOutcome>,
)
    ensures
        !run_report(subgraph, unauthed, Some(authed), service, schema).contains(
            Finding::InsecureSubgraph,
        ),
{
    lemma_insecure_only_from_cross_check(subgraph, unauthed, Some(authed), service, schema);
}

/// A subgraph declared as allowed to be insecure is never reported as an
/// insecure subgraph, with or without a credential.
pub proof fn lemma_insecure_allowed_never_reported(
    unauthed: ProbeOutcome,
    authed: Option<ProbeOutcome>,
    service: ProbeOutcome,
    schema: Option<ProbeOutcome>,
)
    ensures
        !run_report(Subgraph::Insecure, unauthed, authed, service, schema).contains(
            Finding::InsecureSubgraph,
        ),
{
    lemma_insecure_only_from_cross_check(Subgraph::Insecure, unauthed, authed, service, schema);
}

/// Two runs whose probes come out alike give the same report, in the same
/// order; and removing repetitions from a report again changes nothing.
pub proof fn lemma_report_stable(
    subgraph: Subgraph,
    unauthed: ProbeOutcome,
    authed: Option<ProbeOutcome>,
    service: ProbeOutcome,
    schema: Option<ProbeOutcome>,
    unauthed2: ProbeOutcome,
    authed2: Option<ProbeOutcome>,
    service2: ProbeOutcome,
    schema2: Option<ProbeOutcome>,
)
    requires
        unauthed2@ == unauthed@,
        sent(authed2) == sent(authed),
        service2@ == service@,
        sent(schema2) == sent(schema),
    ensures
        run_report(subgraph, unauthed2, authed2, service2, schema2) == run_report(
            subgraph,
            unauthed,
            authed,
            service,
            schema,
        ),
        distinct(run_report(subgraph, unauthed, authed, service, schema)) == run_report(
            subgraph,
            unauthed,
            authed,
            service,
            schema,
        ),
{
    lemma_distinct_idempotent(run_findings(subgraph, unauthed@, sent(authed), service@, sent(schema)));
}

/// Without a credential, an endpoint whose answer to the trivial query is a
/// JSON body without `errors` and with a string at `data.__typename` gives
/// the authentication check no finding.
pub proof fn lemma_typename_answer_passes(status: u16, body: Vec<u8>, v: serde_json::Value)
    requires
        is_success_status(status),
        json_parse(body@) == Some(v),
        json_member(v, "errors"@) is None,
        has_typename(v),
    ensures
        auth_findings(None, exchange_outcome(Exchange::Response { status, body: Some(body) }))
            == Seq::<Finding>::empty(),
{
    assert(auth_findings(None, exchange_outcome(Exchange::Response { status, body: Some(body) }))
        =~= Seq::<Finding>::empty());
}

} // verus!
