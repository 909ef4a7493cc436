//! What each check concludes from its probes, and how a run combines the
//! conclusions into a report.
use crate::finding::{Error, Finding};
use crate::json::{json_is_object, json_is_string, json_member, member};
use crate::probe::ProbeOutcome;
use vstd::prelude::*;

verus! {

/// The body holds a string at `data.__typename`.
pub open spec fn has_typename(v: serde_json::Value) -> bool {
    match json_member(v, "data"@) {
        Some(d) => match json_member(d, "__typename"@) {
            Some(t) => json_is_string(t),
            None => false,
        },
        None => false,
    }
}

/// The body holds an object at `data.__schema`.
pub open spec fn has_schema(v: serde_json::Value) -> bool {
    match json_member(v, "data"@) {
        Some(d) => match json_member(d, "__schema"@) {
            Some(t) => json_is_object(t),
            None => false,
        },
        None => false,
    }
}

/// The finding that a check result reports, if any.
pub open spec fn verdict(r: Result<(), Error>) -> Option<Finding> {
    match r {
        Ok(_) => None,
        Err(e) => Some(e@),
    }
}

/// The trivial query: a success must name its type at `data.__typename`.
pub open spec fn basic_finding(o: Result<serde_json::Value, Finding>) -> Option<Finding> {
    match o {
        Ok(v) => if has_typename(v) {
            None
        } else {
            Some(Finding::NotGraphQL)
        },
        Err(f) => Some(f),
    }
}

/// The unauthenticated trivial query when a credential was supplied: a
/// GraphQL error or a bad status shows that authentication is enforced.
pub open spec fn enforcement_finding(o: Result<serde_json::Value, Finding>) -> Option<Finding> {
    match o {
        Ok(_) => Some(Finding::AuthNotEnforced),
        Err(Finding::GraphQLError(_)) => None,
        Err(Finding::BadStatus(_)) => None,
        Err(f) => Some(f),
    }
}

/// The federation query: anything but a success means no subgraph.
pub open spec fn subgraph_finding(o: Result<serde_json::Value, Finding>) -> Option<Finding> {
    match o {
        Ok(_) => None,
        Err(_) => Some(Finding::NotASubgraph),
    }
}

/// The introspection query: a schema object means introspection is enabled,
/// and a GraphQL error that it is not.
pub open spec fn introspection_finding(o: Result<serde_json::Value, Finding>) -> Option<Finding> {
    match o {
        Ok(v) => if has_schema(v) {
            Some(Finding::IntrospectionEnabled)
        } else {
            None
        },
        Err(Finding::GraphQLError(_)) => None,
        Err(f) => Some(f),
    }
}

/// The finding that a failed probe reports.
pub fn failure(o: &ProbeOutcome) -> (r: Error)
    requires
        !(o is Success),
    ensures
        o@ == Err::<serde_json::Value, Finding>(r@),
{
    match o {
        // excluded by the precondition
        ProbeOutcome::Success(_) => Error::NotGraphQL,
        ProbeOutcome::MalformedUrl => Error::BadUri,
        ProbeOutcome::TransportFailure => Error::CouldNotConnect,
        ProbeOutcome::UnexpectedStatus(c) => Error::BadStatus(*c),
        ProbeOutcome::NonGraphQLBody => Error::NotGraphQL,
        ProbeOutcome::GraphQLLevelError(m) => Error::GraphQLError(m.clone()),
        ProbeOutcome::BadHeader => Error::BadHeader,
    }
}

/// Whether the body holds, at `data.<key>`, an object (with `object`) or a
/// string (without).
fn data_member_is(v: &serde_json::Value, key: &str, object: bool) -> (r: bool)
    ensures
        r == match json_member(*v, "data"@) {
            Some(d) => match json_member(d, key@) {
                Some(t) => if object {
                    json_is_object(t)
                } else {
                    json_is_string(t)
                },
                None => false,
            },
            None => false,
        },
{
    match member(v, "data") {
        Some(d) => match member(d, key) {
            Some(t) => if object {
                t.is_object()
            } else {
                t.is_string()
            },
            None => false,
        },
        None => false,
    }
}

/// The conclusion of the trivial query.
pub fn basic_query(o: &ProbeOutcome) -> (r: Result<(), Error>)
    ensures
        verdict(r) == basic_finding(o@),
{
    match o {
        ProbeOutcome::Success(v) => {
            if data_member_is(v, "__typename", false) {
                Ok(())
            } else {
                Err(Error::NotGraphQL)
            }
        },
        _ => Err(failure(o)),
    }
}

/// The conclusion of the unauthenticated trivial query when a credential
/// was supplied.
pub fn check_enforced(o: &ProbeOutcome) -> (r: Result<(), Error>)
    ensures
        verdict(r) == enforcement_finding(o@),
{
    match o {
        ProbeOutcome::Success(_) => Err(Error::AuthNotEnforced),
        ProbeOutcome::GraphQLLevelError(_) | ProbeOutcome::UnexpectedStatus(_) => Ok(()),
        _ => Err(failure(o)),
    }
}

/// The conclusion of the federation query.
pub fn check_subgraph(o: &ProbeOutcome) -> (r: Result<(), Error>)
    ensures
        verdict(r) == subgraph_finding(o@),
{
    match o {
        ProbeOutcome::Success(_) => Ok(()),
        _ => Err(Error::NotASubgraph),
    }
}

/// The conclusion of the introspection query.
pub fn require_introspection_disabled(o: &ProbeOutcome) -> (r: Result<(), Error>)
    ensures
        verdict(r) == introspection_finding(o@),
{
    match o {
        ProbeOutcome::Success(v) => {
            if data_member_is(v, "__schema", true) {
                Err(Error::IntrospectionEnabled)
            } else {
                Ok(())
            }
        },
        ProbeOutcome::GraphQLLevelError(_) => Ok(()),
        _ => Err(failure(o)),
    }
}

} // verus!
