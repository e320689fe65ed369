use rwhois::error::RWhoisError;
use rwhois::query::{parse_line, Query};
use rwhois::routes::RoutingTable;

fn query(identifier: &str, suffix: &str) -> Query {
    Query { identifier: identifier.to_string(), suffix: suffix.to_string() }
}

#[test]
fn parses_dotted_token() {
    assert_eq!(parse_line("example.com"), Some(query("example.com", "com")));
}

#[test]
fn trailing_label_is_after_last_dot() {
    assert_eq!(parse_line("a.b.example.co"), Some(query("a.b.example.co", "co")));
}

#[test]
fn surrounding_whitespace_is_dropped() {
    assert_eq!(parse_line("  \texample.org \t "), Some(query("example.org", "org")));
}

#[test]
fn unicode_whitespace_separates_tokens() {
    assert_eq!(parse_line("example.com\u{3000}example.net"), None);
    assert_eq!(parse_line("\u{a0}example.io\u{2003}"), Some(query("example.io", "io")));
}

#[test]
fn empty_labels_count() {
    assert_eq!(parse_line("com."), Some(query("com.", "")));
    assert_eq!(parse_line(".com"), Some(query(".com", "com")));
    assert_eq!(parse_line("a..b"), Some(query("a..b", "b")));
}

#[test]
fn two_tokens_are_not_a_query() {
    assert_eq!(parse_line("example.com example.net"), None);
    assert_eq!(parse_line("whois example.com"), None);
}

#[test]
fn dotless_token_is_not_a_query() {
    assert_eq!(parse_line("localhost"), None);
}

#[test]
fn blank_lines_are_not_queries() {
    assert_eq!(parse_line(""), None);
    assert_eq!(parse_line("   \t "), None);
}

#[test]
fn non_ascii_token_keeps_its_characters() {
    assert_eq!(parse_line("bücher.de"), Some(query("bücher.de", "de")));
}

#[test]
fn standard_table_routes() {
    let t = RoutingTable::standard();
    assert_eq!(t.lookup("com"), Some("whois.verisign-grs.com".to_string()));
    assert_eq!(t.lookup("net"), Some("whois.verisign-grs.com".to_string()));
    assert_eq!(t.lookup("org"), Some("whois.publicregistry.net".to_string()));
    assert_eq!(t.lookup("ad"), Some("whois.ripe.net".to_string()));
    assert_eq!(t.lookup("dev"), Some("whois.nic.google".to_string()));
    assert_eq!(t.lookup("zz"), None);
}

#[test]
fn lookup_is_exact_and_case_sensitive() {
    let t = RoutingTable::standard();
    assert_eq!(t.lookup("COM"), None);
    assert_eq!(t.lookup("om"), None);
    assert_eq!(t.lookup(""), None);
}

#[test]
fn insert_replaces_a_route() {
    let mut t = RoutingTable::new();
    assert_eq!(t.lookup("test"), None);
    t.insert("test", "one.example");
    t.insert("test", "two.example");
    assert_eq!(t.lookup("test"), Some("two.example".to_string()));
}

#[test]
fn resolve_routes_or_rejects() {
    let t = RoutingTable::standard();
    assert_eq!(t.resolve(&query("example.io", "io")), Ok("whois.nic.io".to_string()));
    assert_eq!(t.resolve(&query("example.zz", "zz")), Err(RWhoisError::InvalidDomainError));
}
