//! The suffix routing table: from the trailing label of an identifier to the
//! host of the upstream authority that answers for it.

use vstd::prelude::*;

use crate::error::RWhoisError;
use crate::query::Query;

verus! {

/// The well-known port on which upstream authorities take queries.
pub const UPSTREAM_PORT: u16 = 43;

/// A table of routes, kept in a `hashbrown` map keyed by suffix.
///
/// Lookups are exact on the suffix: no case folding, no wildcard and no
/// longest-match rule.
#[verifier::external_body]
pub struct RoutingTable {
    entries: hashbrown::HashMap<String, String>,
}

/// The routes that a table holds: suffix to upstream host.
pub uninterp spec fn routes_of(t: RoutingTable) -> Map<Seq<char>, Seq<char>>;

impl View for RoutingTable {
    type V = Map<Seq<char>, Seq<char>>;

    open spec fn view(&self) -> Map<Seq<char>, Seq<char>> {
        routes_of(*self)
    }
}

/// Relies on `hashbrown::HashMap::new`: a new map holds no entries.
#[verifier::external_body]
fn empty_routes() -> (r: RoutingTable)
    ensures
        routes_of(r) =~= Map::empty(),
{
    RoutingTable { entries: hashbrown::HashMap::new() }
}

/// Relies on `hashbrown::HashMap::insert`: afterwards the key maps to the
/// given value, and every other key keeps its entry.
#[verifier::external_body]
fn insert_route(t: &mut RoutingTable, suffix: String, host: String)
    ensures
        routes_of(*final(t)) == routes_of(*old(t)).insert(suffix@, host@),
{
    t.entries.insert(suffix, host);
}

/// Relies on `hashbrown::HashMap::get`: the value stored under a key equal to
/// the given one, if there is one (a `String` key is equal to a `str` that
/// holds the same characters).
#[verifier::external_body]
fn find_route(t: &RoutingTable, suffix: &str) -> (r: Option<String>)
    ensures
        r is Some <==> routes_of(*t).contains_key(suffix@),
        r matches Some(h) ==> h@ == routes_of(*t)[suffix@],
{
    t.entries.get(suffix).cloned()
}

/// The routes of the standard table.
pub open spec fn standard_routes() -> Map<Seq<char>, Seq<char>> {
    Map::empty()
        .insert("ad"@, "whois.ripe.net"@)
        .insert("ae"@, "whois.aeda.net.ae"@)
        .insert("aero"@, "whois.aero"@)
        .insert("af"@, "whois.nic.af"@)
        .insert("ca"@, "whois.cira.ca"@)
        .insert("ch"@, "whois.nic.ch"@)
        .insert("co"@, "whois.nic.co"@)
        .insert("com"@, "whois.verisign-grs.com"@)
        .insert("dev"@, "whois.nic.google"@)
        .insert("in"@, "whois.registry.in"@)
        .insert("io"@, "whois.nic.io"@)
        .insert("net"@, "whois.verisign-grs.com"@)
        .insert("org"@, "whois.publicregistry.net"@)
}

impl RoutingTable {
    /// A table with no routes.
    pub fn new() -> (r: RoutingTable)
        ensures
            r@ =~= Map::empty(),
    {
        empty_routes()
    }

    /// Routes `suffix` to `host`, replacing an earlier route of `suffix`.
    pub fn insert(&mut self, suffix: &str, host: &str)
        ensures
            final(self)@ == old(self)@.insert(suffix@, host@),
    {
        insert_route(self, suffix.to_owned(), host.to_owned());
    }

    /// The upstream host for `suffix`, matched exactly.
    pub fn lookup(&self, suffix: &str) -> (r: Option<String>)
        ensures
            r is Some <==> self@.contains_key(suffix@),
            r matches Some(h) ==> h@ == self@[suffix@],
    {
        find_route(self, suffix)
    }

    /// The upstream host for a query, by its trailing label; an unrouted
    /// label is an `InvalidDomainError`.
    pub fn resolve(&self, q: &Query) -> (r: Result<String, RWhoisError>)
        ensures
            r is Ok <==> self@.contains_key(q.suffix@),
            r matches Ok(h) ==> h@ == self@[q.suffix@],
            r matches Err(e) ==> e == RWhoisError::InvalidDomainError,
    {
        match self.lookup(q.suffix.as_str()) {
            Some(h) => Ok(h),
            None => Err(RWhoisError::InvalidDomainError),
        }
    }

    /// The standard table of registry authorities.
    pub fn standard() -> (r: RoutingTable)
        ensures
            r@ == standard_routes(),
    {
        let mut t = RoutingTable::new();
        t.insert("ad", "whois.ripe.net");
        t.insert("ae", "whois.aeda.net.ae");
        t.insert("aero", "whois.aero");
        t.insert("af", "whois.nic.af");
        t.insert("ca", "whois.cira.ca");
        t.insert("ch", "whois.nic.ch");
        t.insert("co", "whois.nic.co");
        t.insert("com", "whois.verisign-grs.com");
        t.insert("dev", "whois.nic.google");
        t.insert("in", "whois.registry.in");
        t.insert("io", "whois.nic.io");
        t.insert("net", "whois.verisign-grs.com");
        t.insert("org", "whois.publicregistry.net");
        t
    }
}

} // verus!
