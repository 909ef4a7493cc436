//! Security-posture checks for a GraphQL endpoint.
//!
//! The library holds every decision of a check run: how a credential turns
//! into a header, how one HTTP exchange is classified, what each check
//! concludes from its probes, and how the findings of a run are combined
//! into an ordered, duplicate-free report. Sending the requests is left to
//! the caller, who hands each exchange back as plain values.

pub mod checks;
pub mod finding;
pub mod json;
pub mod policy;
pub mod probe;
pub mod report;
pub mod status;
pub mod text;

pub use checks::{basic_query, check_enforced, check_subgraph, require_introspection_disabled};
pub use finding::{dedup, Error};
pub use policy::{parse_boolean, parse_introspection, Auth, Introspection, Subgraph};
pub use probe::{add_auth, get_json, start_probe, Exchange, Header, ProbeOutcome, Query, Step};
pub use report::report;
