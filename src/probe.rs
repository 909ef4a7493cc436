//! One probe: the request it makes, and how its exchange is classified.
use crate::finding::{Error, Finding};
use crate::json::{json_member, json_parse, json_text, member, parse_json, to_text};
use crate::policy::Auth;
use crate::text::{find_colon, first_colon, trim, trimmed};
use vstd::prelude::*;

verus! {

/// The fixed GraphQL queries that the checks send.
#[derive(Clone, Copy, Debug, PartialEq, Eq, Hash)]
pub enum Query {
    /// The trivial query, answered by every GraphQL server.
    Typename,
    /// The federation query, answered by subgraphs.
    Service,
    /// The schema introspection query.
    Schema,
}

pub open spec fn query_text(q: Query) -> Seq<char> {
    match q {
        Query::Typename => "query{__typename}"@,
        Query::Service => "query{_service{sdl}}"@,
        Query::Schema => "query{__schema{types{name}}}"@,
    }
}

impl Query {
    /// The GraphQL text of the query, sent as the `query` member of the body.
    pub fn text(&self) -> (r: &'static str)
        ensures
            r@ == query_text(*self),
    {
        match self {
            Query::Typename => "query{__typename}",
            Query::Service => "query{_service{sdl}}",
            Query::Schema => "query{__schema{types{name}}}",
        }
    }
}

/// A request header, split out of a credential.
#[derive(Clone, Debug)]
pub struct Header {
    pub name: String,
    pub value: String,
}

/// `h` is what the credential `line` gives: the text before its first colon
/// as the name, the text after it, trimmed, as the value.
pub open spec fn header_of(line: Seq<char>, h: Header) -> bool {
    exists|i: int|
        first_colon(line, i) && h.name@ == line.take(i) && h.value@ == trim(line.skip(i + 1))
}

/// The header that probes with `auth` carry: none without a credential, and
/// `BadHeader` for a credential without a colon.
pub fn add_auth(auth: &Auth) -> (r: Result<Option<Header>, Error>)
    ensures
        match auth {
            Auth::Disabled => r matches Ok(None),
            Auth::Enabled { header } => match r {
                Ok(Some(h)) => header@.contains(':') && header_of(header@, h),
                Ok(None) => false,
                Err(e) => !header@.contains(':') && e is BadHeader,
            },
        },
{
    match auth {
        Auth::Disabled => Ok(None),
        Auth::Enabled { header } => {
            let line: &str = header.as_str();
            match find_colon(line) {
                None => {
                    assert(!header@.contains(':'));
                    Err(Error::BadHeader)
                },
                Some(i) => {
                    let n = line.unicode_len();
                    let name = String::from_str(line.substring_char(0, i));
                    let value = trimmed(line.substring_char(i + 1, n));
                    assert(line@.subrange(0, i as int) =~= line@.take(i as int));
                    assert(line@.subrange(i + 1, n as int) =~= line@.skip(i + 1));
                    assert(line@[i as int] == ':');
                    let h = Header { name, value };
                    assert(header_of(header@, h));
                    Ok(Some(h))
                },
            }
        },
    }
}

/// What came back from sending one probe, as plain values.
pub enum Exchange {
    /// The request could not be built: the URL is malformed, its scheme is
    /// not supported, or the header is not a valid one.
    InvalidRequest,
    /// The request failed at the transport level.
    ConnectionFailed,
    /// A response arrived; `body` is nothing when it could not be read whole.
    Response { status: u16, body: Option<Vec<u8>> },
}

/// The classified result of one probe.
pub enum ProbeOutcome {
    /// A JSON body without a top-level `errors` member.
    Success(serde_json::Value),
    MalformedUrl,
    TransportFailure,
    UnexpectedStatus(u16),
    NonGraphQLBody,
    /// A JSON body with a top-level `errors` member, serialized here.
    GraphQLLevelError(String),
    /// The credential is not of the form `name: value`; nothing was sent.
    BadHeader,
}

impl View for ProbeOutcome {
    type V = Result<serde_json::Value, Finding>;

    /// A success with its body, or a failure as the finding it reports.
    open spec fn view(&self) -> Result<serde_json::Value, Finding> {
        match self {
            ProbeOutcome::Success(v) => Ok(*v),
            ProbeOutcome::MalformedUrl => Err(Finding::BadUri),
            ProbeOutcome::TransportFailure => Err(Finding::CouldNotConnect),
            ProbeOutcome::UnexpectedStatus(c) => Err(Finding::BadStatus(*c)),
            ProbeOutcome::NonGraphQLBody => Err(Finding::NotGraphQL),
            ProbeOutcome::GraphQLLevelError(m) => Err(Finding::GraphQLError(m@)),
            ProbeOutcome::BadHeader => Err(Finding::BadHeader),
        }
    }
}

/// Whether an HTTP status lies in the success range.
pub open spec fn is_success_status(status: u16) -> bool {
    200 <= status < 300
}

/// How a body read from a successful response is classified.
pub open spec fn body_outcome(body: Seq<u8>) -> Result<serde_json::Value, Finding> {
    match json_parse(body) {
        None => Err(Finding::NotGraphQL),
        Some(v) => match json_member(v, "errors"@) {
            Some(e) => Err(Finding::GraphQLError(json_text(e))),
            None => Ok(v),
        },
    }
}

/// How an exchange is classified: the status decides before the body is read.
pub open spec fn exchange_outcome(x: Exchange) -> Result<serde_json::Value, Finding> {
    match x {
        Exchange::InvalidRequest => Err(Finding::BadUri),
        Exchange::ConnectionFailed => Err(Finding::CouldNotConnect),
        Exchange::Response { status, body } => if !is_success_status(status) {
            Err(Finding::BadStatus(status))
        } else {
            match body {
                None => Err(Finding::NotGraphQL),
                Some(b) => body_outcome(b@),
            }
        },
    }
}

/// Classifies the exchange of one probe.
pub fn get_json(x: &Exchange) -> (r: ProbeOutcome)
    ensures
        r@ == exchange_outcome(*x),
{
    match x {
        Exchange::InvalidRequest => ProbeOutcome::MalformedUrl,
        Exchange::ConnectionFailed => ProbeOutcome::TransportFailure,
        Exchange::Response { status, body } => {
            if *status < 200 || *status >= 300 {
                ProbeOutcome::UnexpectedStatus(*status)
            } else {
                match body {
                    None => ProbeOutcome::NonGraphQLBody,
                    Some(b) => match parse_json(b.as_slice()) {
                        None => ProbeOutcome::NonGraphQLBody,
                        Some(v) => {
                            let errors = member(&v, "errors");
                            match errors {
                                Some(e) => ProbeOutcome::GraphQLLevelError(to_text(e)),
                                None => ProbeOutcome::Success(v),
                            }
                        },
                    },
                }
            }
        },
    }
}

/// The next step of a probe: send its query, or conclude without a request.
pub enum Step {
    Send { query: Query, header: Option<Header> },
    Done(ProbeOutcome),
}

/// Starts a probe with `query`: a credential without a colon ends it as
/// `BadHeader` before anything is sent.
pub fn start_probe(auth: &Auth, query: Query) -> (r: Step)
    ensures
        match auth {
            Auth::Disabled => r matches Step::Send { query: q, header: None } && q == query,
            Auth::Enabled { header } => if header@.contains(':') {
                r matches Step::Send { query: q, header: Some(h) } && q == query && header_of(
                    header@,
                    h,
                )
            } else {
                r matches Step::Done(ProbeOutcome::BadHeader)
            },
        },
{
    match add_auth(auth) {
        Ok(header) => Step::Send { query, header },
        Err(_) => Step::Done(ProbeOutcome::BadHeader),
    }
}

} // verus!
