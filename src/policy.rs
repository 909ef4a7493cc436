//! The inputs of a check run: the credential and the two policies.
use crate::finding::Error;
use crate::text::str_eq;
use std::sync::Arc;
use vstd::prelude::*;

verus! {

/// The credential sent with authenticated probes: a raw `name: value`
/// header line, or nothing.
#[derive(Clone, Debug)]
pub enum Auth {
    Enabled { header: Arc<String> },
    Disabled,
}

impl Auth {
    /// The credential of an optional header line.
    pub fn new(header: Option<String>) -> (r: Self)
        ensures
            match header {
                Some(h) => r is Enabled && r->header@ == h@,
                None => r is Disabled,
            },
    {
        if let Some(header) = header {
            Auth::Enabled { header: Arc::new(header) }
        } else {
            Auth::Disabled
        }
    }

    pub open spec fn spec_is_enabled(&self) -> bool {
        self is Enabled
    }

    /// Whether a credential was supplied.
    #[verifier::when_used_as_spec(spec_is_enabled)]
    pub fn is_enabled(&self) -> (r: bool)
        ensures
            r == self.spec_is_enabled(),
    {
        match self {
            Auth::Enabled { .. } => true,
            Auth::Disabled => false,
        }
    }
}

/// How the caller declares the endpoint with respect to federation.
#[derive(Clone, Copy, Debug, PartialEq, Eq, Hash)]
pub enum Subgraph {
    /// Declared a subgraph that must be protected by authentication.
    Secure,
    /// Declared a subgraph that may be reached without authentication.
    Insecure,
    /// Not declared a subgraph.
    NotASubgraph,
}

impl Subgraph {
    /// The policy that the two boolean inputs declare: whether the endpoint
    /// is a subgraph, and whether it may be reached without a credential.
    pub fn from_flags(subgraph: bool, allow_insecure: bool) -> (r: Subgraph)
        ensures
            r == (if !subgraph {
                Subgraph::NotASubgraph
            } else if allow_insecure {
                Subgraph::Insecure
            } else {
                Subgraph::Secure
            }),
    {
        if !subgraph {
            Subgraph::NotASubgraph
        } else if allow_insecure {
            Subgraph::Insecure
        } else {
            Subgraph::Secure
        }
    }

    pub open spec fn spec_required(&self) -> bool {
        *self is Secure || *self is Insecure
    }

    pub open spec fn spec_security_required(&self) -> bool {
        *self is Secure || *self is NotASubgraph
    }

    /// Whether a failed subgraph probe is a finding.
    #[verifier::when_used_as_spec(spec_required)]
    pub fn required(&self) -> (r: bool)
        ensures
            r == self.spec_required(),
    {
        match self {
            Subgraph::Secure | Subgraph::Insecure => true,
            Subgraph::NotASubgraph => false,
        }
    }

    /// Whether a reachable subgraph is expected to demand a credential.
    #[verifier::when_used_as_spec(spec_security_required)]
    pub fn security_required(&self) -> (r: bool)
        ensures
            r == self.spec_security_required(),
    {
        match self {
            Subgraph::Secure | Subgraph::NotASubgraph => true,
            Subgraph::Insecure => false,
        }
    }
}

/// Whether schema introspection may stay enabled.
#[derive(Clone, Copy, Debug, PartialEq, Eq, Hash)]
pub enum Introspection {
    Allow,
    Disallow,
}

} // verus!

verus! {

/// Reads a boolean input: exactly `true` or `false`; anything else is
/// reported under the input's name.
pub fn parse_boolean(value: &str, name: &'static str) -> (r: Result<bool, Error>)
    ensures
        value@ == "true"@ ==> r == Ok::<bool, Error>(true),
        value@ == "false"@ ==> r == Ok::<bool, Error>(false),
        value@ != "true"@ && value@ != "false"@ ==> r == Err::<bool, Error>(Error::BadBoolean(name)),
{
    proof {
        reveal_strlit("true");
        reveal_strlit("false");
        assert("true"@.len() != "false"@.len());
    }
    if str_eq(value, "true") {
        Ok(true)
    } else if str_eq(value, "false") {
        Ok(false)
    } else {
        Err(Error::BadBoolean(name))
    }
}

/// Reads the `allow_introspection` input: `true` or `false`, or empty to
/// allow introspection on subgraphs only.
pub fn parse_introspection(value: &str, subgraph: Subgraph) -> (r: Result<Introspection, Error>)
    ensures
        value@ == "true"@ ==> r == Ok::<Introspection, Error>(Introspection::Allow),
        value@ == "false"@ ==> r == Ok::<Introspection, Error>(Introspection::Disallow),
        value@ == ""@ ==> r == Ok::<Introspection, Error>(
            if subgraph is NotASubgraph {
                Introspection::Disallow
            } else {
                Introspection::Allow
            },
        ),
        value@ != "true"@ && value@ != "false"@ && value@ != ""@ ==> r == Err::<Introspection, Error>(
            Error::BadBoolean("allow_introspection"),
        ),
{
    proof {
        reveal_strlit("true");
        reveal_strlit("false");
        reveal_strlit("");
        assert("true"@.len() != "false"@.len());
        assert("true"@.len() != ""@.len());
        assert("false"@.len() != ""@.len());
    }
    if str_eq(value, "true") {
        Ok(Introspection::Allow)
    } else if str_eq(value, "false") {
        Ok(Introspection::Disallow)
    } else if str_eq(value, "") {
        match subgraph {
            Subgraph::NotASubgraph => Ok(Introspection::Disallow),
            Subgraph::Secure | Subgraph::Insecure => Ok(Introspection::Allow),
        }
    } else {
        Err(Error::BadBoolean("allow_introspection"))
    }
}

} // verus!
