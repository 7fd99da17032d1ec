use std::str::FromStr;
use trust_dns_resolver::proto::error::ProtoError;
use trust_dns_resolver::Name;
use vstd::prelude::*;

use crate::model::LookupError;

verus! {

#[verifier::external_type_specification]
#[verifier::external_body]
pub struct ExName(Name);

#[verifier::external_type_specification]
#[verifier::external_body]
pub struct ExProtoError(ProtoError);

/// Whether the domain-name parser accepts the text.
pub uninterp spec fn name_parses(s: Seq<char>) -> bool;

/// Relies on `trust_dns_resolver::Name::from_str` (UTF-8 parse, falling back
/// to ASCII): whether it accepts a text depends on the text alone.
#[verifier::external_body]
fn parse_name(s: &str) -> (r: Result<Name, ProtoError>)
    ensures
        r.is_ok() == name_parses(s@),
{
    Name::from_str(s)
}

/// The DNS record type a query asks for.
#[derive(Clone, Copy, Debug, PartialEq, Eq, Structural)]
pub enum QueryType {
    /// IPv4 addresses.
    A,
    /// IPv6 addresses.
    Aaaa,
}

/// AAAA exactly when the hint is 6; A when it is absent, 4, or anything else.
pub open spec fn query_type_for(family: Option<i32>) -> QueryType {
    if family == Some(6i32) {
        QueryType::Aaaa
    } else {
        QueryType::A
    }
}

/// A hostname is accepted when it is not empty and parses as a domain name.
pub open spec fn valid_hostname(s: Seq<char>) -> bool {
    s.len() > 0 && name_parses(s)
}

/// Maps a family hint to the record type to query.
pub fn record_type_for(family: Option<i32>) -> (r: QueryType)
    ensures
        r == query_type_for(family),
{
    match family {
        Some(6) => QueryType::Aaaa,
        _ => QueryType::A,
    }
}

/// A query ready to hand to the resolver: a parsed name and a record type.
/// It is built only by `dispatch` and never changed afterwards.
pub struct Query {
    name: Name,
    record_type: QueryType,
    hostname: Ghost<Seq<char>>,
}

impl Query {
    /// The record type this query asks for.
    pub closed spec fn kind(&self) -> QueryType {
        self.record_type
    }

    /// The hostname text this query was built from.
    pub closed spec fn source(&self) -> Seq<char> {
        self.hostname@
    }

    pub fn record_type(&self) -> (r: QueryType)
        ensures
            r == self.kind(),
    {
        self.record_type
    }

    /// The parsed domain name to query.
    pub fn name(&self) -> &Name {
        &self.name
    }
}

/// Validates a hostname and builds the one query to issue for it.
/// Fails with `InvalidHostname`, before any resolver is involved, when the
/// hostname is empty or does not parse as a domain name.
pub fn dispatch(hostname: &str, family: Option<i32>) -> (r: Result<Query, LookupError>)
    ensures
        r.is_ok() <==> valid_hostname(hostname@),
        r matches Ok(q) ==> q.kind() == query_type_for(family) && q.source() == hostname@,
        r matches Err(e) ==> e is InvalidHostname,
{
    if hostname.is_empty() {
        return Err(LookupError::InvalidHostname("empty hostname".to_owned()));
    }
    match parse_name(hostname) {
        Ok(name) => Ok(Query {
            name,
            record_type: record_type_for(family),
            hostname: Ghost(hostname@),
        }),
        Err(err) => Err(LookupError::InvalidHostname(err.to_string())),
    }
}

} // verus!
