//! Findings: the problems that a check run reports, how they compare, how
//! they read, and how a list of them loses its repetitions.
use crate::status::{status_message, status_text};
use crate::text::str_eq;
use vstd::prelude::*;

verus! {

/// One problem found with the endpoint or with the inputs of a run.
#[derive(Clone, Debug, Eq, Hash)]
pub enum Error {
    /// The URL is malformed or its scheme is not supported.
    BadUri,
    /// The endpoint answered with a status outside the success range.
    BadStatus(u16),
    /// The request failed at the transport level.
    CouldNotConnect,
    /// The body is not JSON, or lacks the expected shape.
    NotGraphQL,
    /// The endpoint answered with a top-level `errors` member, serialized here.
    GraphQLError(String),
    /// An unauthenticated request succeeded although a credential was supplied.
    AuthNotEnforced,
    /// The credential is not of the form `name: value`.
    BadHeader,
    /// The endpoint failed the federation probe although declared a subgraph.
    NotASubgraph,
    /// The named input can only be `true` or `false`.
    BadBoolean(&'static str),
    /// Schema introspection is exposed although it is not allowed.
    IntrospectionEnabled,
    /// The endpoint acts as a subgraph and accepts unauthenticated requests.
    InsecureSubgraph,
}

/// What a finding is, with its text as a sequence of characters.
pub enum Finding {
    BadUri,
    BadStatus(u16),
    CouldNotConnect,
    NotGraphQL,
    GraphQLError(Seq<char>),
    AuthNotEnforced,
    BadHeader,
    NotASubgraph,
    BadBoolean(Seq<char>),
    IntrospectionEnabled,
    InsecureSubgraph,
}

impl View for Error {
    type V = Finding;

    open spec fn view(&self) -> Finding {
        match self {
            Error::BadUri => Finding::BadUri,
            Error::BadStatus(c) => Finding::BadStatus(*c),
            Error::CouldNotConnect => Finding::CouldNotConnect,
            Error::NotGraphQL => Finding::NotGraphQL,
            Error::GraphQLError(m) => Finding::GraphQLError(m@),
            Error::AuthNotEnforced => Finding::AuthNotEnforced,
            Error::BadHeader => Finding::BadHeader,
            Error::NotASubgraph => Finding::NotASubgraph,
            Error::BadBoolean(n) => Finding::BadBoolean(n@),
            Error::IntrospectionEnabled => Finding::IntrospectionEnabled,
            Error::InsecureSubgraph => Finding::InsecureSubgraph,
        }
    }
}

/// Two findings are the same when they are of one kind and carry equal data.
pub open spec fn same_finding(a: Error, b: Error) -> bool {
    a@ == b@
}

/// The findings of a list, in order.
pub open spec fn views(s: Seq<Error>) -> Seq<Finding> {
    s.map_values(|e: Error| e@)
}

impl PartialEq for Error {
    fn eq(&self, other: &Error) -> (r: bool) {
        match (self, other) {
            (Error::BadUri, Error::BadUri) => true,
            (Error::BadStatus(x), Error::BadStatus(y)) => *x == *y,
            (Error::CouldNotConnect, Error::CouldNotConnect) => true,
            (Error::NotGraphQL, Error::NotGraphQL) => true,
            (Error::GraphQLError(x), Error::GraphQLError(y)) => x.eq(y),
            (Error::AuthNotEnforced, Error::AuthNotEnforced) => true,
            (Error::BadHeader, Error::BadHeader) => true,
            (Error::NotASubgraph, Error::NotASubgraph) => true,
            (Error::BadBoolean(x), Error::BadBoolean(y)) => str_eq(x, y),
            (Error::IntrospectionEnabled, Error::IntrospectionEnabled) => true,
            (Error::InsecureSubgraph, Error::InsecureSubgraph) => true,
            _ => false,
        }
    }
}

impl vstd::std_specs::cmp::PartialEqSpecImpl for Error {
    open spec fn obeys_eq_spec() -> bool {
        true
    }

    open spec fn eq_spec(&self, other: &Error) -> bool {
        same_finding(*self, *other)
    }
}

/// How a finding reads.
pub open spec fn finding_text(f: Finding) -> Seq<char> {
    match f {
        Finding::BadUri => "Bad URI"@,
        Finding::BadStatus(c) => "Got status code: "@ + status_text(c),
        Finding::CouldNotConnect => "Could not connect"@,
        Finding::NotGraphQL => "Not GraphQL"@,
        Finding::GraphQLError(m) => "Received error from GraphQL server: "@ + m,
        Finding::AuthNotEnforced => "Able to make queries with no authentication header"@,
        Finding::BadHeader => "Provided `auth` input was not a valid header in the format of `name: value`"@,
        Finding::NotASubgraph => "GraphQL endpoint is not a subgraph"@,
        Finding::BadBoolean(n) => "Input `"@ + n + "` can only be `true` or `false`"@,
        Finding::IntrospectionEnabled => "Introspection is enabled for the GraphQL server but not allowed"@,
        Finding::InsecureSubgraph => "Subgraph is not protected by authentication"@,
    }
}

impl Error {
    /// The message that reports this finding.
    pub fn to_string(&self) -> (r: String)
        ensures
            r@ == finding_text(self@),
    {
        match self {
            Error::BadUri => String::from_str("Bad URI"),
            Error::BadStatus(c) => String::from_str("Got status code: ").concat(
                status_message(*c).as_str(),
            ),
            Error::CouldNotConnect => String::from_str("Could not connect"),
            Error::NotGraphQL => String::from_str("Not GraphQL"),
            Error::GraphQLError(m) => String::from_str("Received error from GraphQL server: ").concat(
                m.as_str(),
            ),
            Error::AuthNotEnforced => String::from_str(
                "Able to make queries with no authentication header",
            ),
            Error::BadHeader => String::from_str(
                "Provided `auth` input was not a valid header in the format of `name: value`",
            ),
            Error::NotASubgraph => String::from_str("GraphQL endpoint is not a subgraph"),
            Error::BadBoolean(n) => String::from_str("Input `").concat(n).concat(
                "` can only be `true` or `false`",
            ),
            Error::IntrospectionEnabled => String::from_str(
                "Introspection is enabled for the GraphQL server but not allowed",
            ),
            Error::InsecureSubgraph => String::from_str(
                "Subgraph is not protected by authentication",
            ),
        }
    }

    /// A copy of this finding.
    pub fn copy(&self) -> (r: Error)
        ensures
            r@ == self@,
    {
        match self {
            Error::BadUri => Error::BadUri,
            Error::BadStatus(c) => Error::BadStatus(*c),
            Error::CouldNotConnect => Error::CouldNotConnect,
            Error::NotGraphQL => Error::NotGraphQL,
            Error::GraphQLError(m) => Error::GraphQLError(m.clone()),
            Error::AuthNotEnforced => Error::AuthNotEnforced,
            Error::BadHeader => Error::BadHeader,
            Error::NotASubgraph => Error::NotASubgraph,
            Error::BadBoolean(n) => Error::BadBoolean(n),
            Error::IntrospectionEnabled => Error::IntrospectionEnabled,
            Error::InsecureSubgraph => Error::InsecureSubgraph,
        }
    }
}

/// `s` with every repetition of an earlier element left out: the first
/// occurrence of each finding stays, in its place.
pub open spec fn distinct(s: Seq<Finding>) -> Seq<Finding>
    decreases s.len(),
{
    if s.len() == 0 {
        s
    } else if s.drop_last().contains(s.last()) {
        distinct(s.drop_last())
    } else {
        distinct(s.drop_last()).push(s.last())
    }
}

/// Leaves out of `v` every finding that already occurred earlier in it,
/// keeping the order of first occurrences.
pub fn dedup(v: Vec<Error>) -> (r: Vec<Error>)
    ensures
        views(r@) == distinct(views(v@)),
{
    let mut out: Vec<Error> = Vec::new();
    let n = v.len();
    let mut i: usize = 0;
    assert(views(v@).take(0) =~= Seq::<Finding>::empty());
    while i < n
        invariant
            n == v@.len(),
            i <= n,
            views(out@) == distinct(views(v@).take(i as int)),
        decreases n - i,
    {
        let mut seen = false;
        let mut j: usize = 0;
        while j < i
            invariant
                n == v@.len(),
                j <= i < n,
                seen == exists|k: int| 0 <= k < j && v@[k]@ == v@[i as int]@,
            decreases i - j,
        {
            if v[j] == v[i] {
                seen = true;
            }
            j += 1;
        }
        let ghost pre = views(v@).take(i as int);
        let ghost cur = views(v@).take(i + 1);
        assert(cur.drop_last() =~= pre);
        assert(cur.last() == v@[i as int]@);
        assert(seen == pre.contains(v@[i as int]@)) by {
            if seen {
                let k = choose|k: int| 0 <= k < i && v@[k]@ == v@[i as int]@;
                assert(pre[k] == v@[i as int]@);
            }
        }
        if !seen {
            out.push(v[i].copy());
            assert(views(out@) =~= views(out@).drop_last().push(v@[i as int]@));
            assert(views(out@).drop_last() =~= distinct(pre));
        } else {
            assert(views(out@) == distinct(pre));
        }
        i += 1;
    }
    assert(views(v@).take(n as int) =~= views(v@));
    out
}

proof fn lemma_push_contains(q: Seq<Finding>, y: Finding, x: Finding)
    ensures
        q.push(y).contains(x) <==> q.contains(x) || x == y,
{
    if q.push(y).contains(x) {
        let k = choose|k: int| 0 <= k < q.len() + 1 && q.push(y)[k] == x;
        if k < q.len() {
            assert(q[k] == x);
        }
    }
    if q.contains(x) {
        let k = choose|k: int| 0 <= k < q.len() && q[k] == x;
        assert(q.push(y)[k] == x);
    }
    assert(q.push(y)[q.len() as int] == y);
}

/// What `distinct` keeps is exactly what the sequence holds.
pub proof fn lemma_distinct_contains(s: Seq<Finding>)
    ensures
        forall|x: Finding| #[trigger] distinct(s).contains(x) <==> s.contains(x),
    decreases s.len(),
{
    if s.len() > 0 {
        let p = s.drop_last();
        let l = s.last();
        lemma_distinct_contains(p);
        assert(s =~= p.push(l));
        assert forall|x: Finding| #[trigger] distinct(s).contains(x) <==> s.contains(x) by {
            lemma_push_contains(p, l, x);
            lemma_push_contains(distinct(p), l, x);
        }
    }
}

/// `distinct` never holds a finding twice.
pub proof fn lemma_distinct_no_duplicates(s: Seq<Finding>)
    ensures
        distinct(s).no_duplicates(),
    decreases s.len(),
{
    if s.len() > 0 {
        lemma_distinct_no_duplicates(s.drop_last());
        lemma_distinct_contains(s.drop_last());
        let d = distinct(s.drop_last());
        if !s.drop_last().contains(s.last()) {
            let e = d.push(s.last());
            assert forall|a: int, b: int| 0 <= a < e.len() && 0 <= b < e.len() && a != b implies e[a]
                != e[b] by {
                if a == d.len() {
                    assert(!d.contains(s.last()));
                    assert(d[b] == e[b]);
                } else if b == d.len() {
                    assert(!d.contains(s.last()));
                    assert(d[a] == e[a]);
                } else {
                    assert(d[a] == e[a] && d[b] == e[b]);
                }
            }
        }
    }
}

/// A sequence without repetitions is left as it is.
pub proof fn lemma_distinct_of_distinct_elements(s: Seq<Finding>)
    requires
        s.no_duplicates(),
    ensures
        distinct(s) == s,
    decreases s.len(),
{
    if s.len() > 0 {
        assert(!s.drop_last().contains(s.last())) by {
            if s.drop_last().contains(s.last()) {
                let k = choose|k: int| 0 <= k < s.len() - 1 && s.drop_last()[k] == s.last();
                assert(s[k] == s[s.len() - 1]);
            }
        }
        lemma_distinct_of_distinct_elements(s.drop_last());
        assert(s.drop_last().push(s.last()) =~= s);
    }
}

/// Leaving out repetitions a second time changes nothing.
pub proof fn lemma_distinct_idempotent(s: Seq<Finding>)
    ensures
        distinct(distinct(s)) == distinct(s),
{
    lemma_distinct_no_duplicates(s);
    lemma_distinct_of_distinct_elements(distinct(s));
}

} // verus!
