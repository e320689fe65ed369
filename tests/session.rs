use rwhois::error::RWhoisError;
use rwhois::routes::{RoutingTable, UPSTREAM_PORT};
use rwhois::session::{Action, Event, Session};

fn line(s: &str) -> Event {
    Event::Line(s.to_string())
}

fn connect(host: &str) -> Action {
    Action::Connect { host: host.to_string(), port: UPSTREAM_PORT }
}

#[test]
fn routed_query_connects_to_its_upstream() {
    let t = RoutingTable::standard();
    let cases = [
        ("example.com", "whois.verisign-grs.com"),
        ("example.net", "whois.verisign-grs.com"),
        ("x.ae", "whois.aeda.net.ae"),
        ("x.aero", "whois.aero"),
        ("x.af", "whois.nic.af"),
        ("x.ca", "whois.cira.ca"),
        ("x.ch", "whois.nic.ch"),
        ("x.co", "whois.nic.co"),
        ("x.in", "whois.registry.in"),
    ];
    for (q, host) in cases {
        let mut s = Session::new();
        assert_eq!(s.step(&t, line(q)), connect(host));
        assert!(!s.is_closed());
        assert!(s.awaits(&Event::Connected));
        assert!(!s.awaits(&line(q)));
    }
}

#[test]
fn example_com_full_exchange() {
    let t = RoutingTable::standard();
    let mut s = Session::new();
    assert_eq!(UPSTREAM_PORT, 43);
    assert_eq!(s.step(&t, line("example.com")), connect("whois.verisign-grs.com"));
    assert_eq!(s.step(&t, Event::Connected), Action::SendUpstream("example.com\r\n".to_string()));
    assert_eq!(s.step(&t, Event::Sent), Action::ReadUpstream);
    let first = b"Domain Name: EXAMPLE.COM\r\n".to_vec();
    let second = vec![0u8, 255, 13, 10, 7];
    assert_eq!(s.step(&t, Event::UpstreamData(first.clone())), Action::SendClient(first));
    assert_eq!(s.step(&t, Event::Sent), Action::ReadUpstream);
    assert_eq!(s.step(&t, Event::UpstreamData(second.clone())), Action::SendClient(second));
    assert_eq!(s.step(&t, Event::Sent), Action::ReadUpstream);
    assert_eq!(s.step(&t, Event::UpstreamClosed), Action::ReadLine);
    assert!(s.awaits(&Event::EndOfStream));
}

#[test]
fn unregistered_suffix_is_rejected() {
    let t = RoutingTable::standard();
    let mut s = Session::new();
    let a = s.step(&t, line("example.zz"));
    assert_eq!(
        a,
        Action::Reject {
            message: "Invalid domain name".to_string(),
            error: RWhoisError::InvalidDomainError,
        }
    );
    assert!(s.is_closed());
    assert!(!s.awaits(&line("example.com")));
    assert!(!s.awaits(&Event::EndOfStream));
}

#[test]
fn uppercase_suffix_is_unrouted() {
    let t = RoutingTable::standard();
    let mut s = Session::new();
    assert!(matches!(s.step(&t, line("EXAMPLE.COM")), Action::Reject { .. }));
    assert!(s.is_closed());
}

#[test]
fn close_without_data_ends_cleanly() {
    let t = RoutingTable::standard();
    let mut s = Session::new();
    assert_eq!(s.step(&t, Event::EndOfStream), Action::Finish);
    assert!(s.is_closed());
}

#[test]
fn many_tokens_are_ignored() {
    let t = RoutingTable::standard();
    let mut s = Session::new();
    assert_eq!(s.step(&t, line("example.com example.net")), Action::ReadLine);
    assert_eq!(s.step(&t, line("a.zz b.zz c.zz")), Action::ReadLine);
    assert!(s.awaits(&line("example.com")));
}

#[test]
fn dotless_token_is_ignored() {
    let t = RoutingTable::standard();
    let mut s = Session::new();
    assert_eq!(s.step(&t, line("com")), Action::ReadLine);
    assert_eq!(s.step(&t, line("")), Action::ReadLine);
    assert!(!s.is_closed());
}

#[test]
fn framing_error_keeps_reading() {
    let t = RoutingTable::standard();
    let mut s = Session::new();
    assert_eq!(s.step(&t, Event::FramingError), Action::ReadLine);
    assert_eq!(s.step(&t, line("example.org")), connect("whois.publicregistry.net"));
}

#[test]
fn connect_failure_keeps_the_session() {
    let t = RoutingTable::standard();
    let mut s = Session::new();
    assert_eq!(s.step(&t, line("example.com")), connect("whois.verisign-grs.com"));
    assert_eq!(s.step(&t, Event::ConnectFailed), Action::ReadLine);
    assert_eq!(s.step(&t, line("example.io")), connect("whois.nic.io"));
    assert_eq!(s.step(&t, Event::Connected), Action::SendUpstream("example.io\r\n".to_string()));
}

#[test]
fn write_failure_keeps_the_session() {
    let t = RoutingTable::standard();
    let mut s = Session::new();
    s.step(&t, line("example.com"));
    s.step(&t, Event::Connected);
    assert_eq!(s.step(&t, Event::SendFailed), Action::ReadLine);
    assert!(s.awaits(&line("example.net")));
}

#[test]
fn copy_failures_keep_the_session() {
    let t = RoutingTable::standard();
    let mut s = Session::new();
    s.step(&t, line("example.com"));
    s.step(&t, Event::Connected);
    s.step(&t, Event::Sent);
    assert_eq!(s.step(&t, Event::CopyFailed), Action::ReadLine);
    s.step(&t, line("example.com"));
    s.step(&t, Event::Connected);
    s.step(&t, Event::Sent);
    s.step(&t, Event::UpstreamData(vec![1, 2, 3]));
    assert_eq!(s.step(&t, Event::SendFailed), Action::ReadLine);
    assert!(s.awaits(&Event::EndOfStream));
}

#[test]
fn relay_passes_bytes_unchanged() {
    let t = RoutingTable::standard();
    let chunks: Vec<Vec<u8>> = vec![b"abc".to_vec(), vec![], vec![0, 13, 10, 255], b"\n".to_vec()];
    let mut s = Session::new();
    s.step(&t, line("example.net"));
    s.step(&t, Event::Connected);
    assert_eq!(s.step(&t, Event::Sent), Action::ReadUpstream);
    let mut delivered: Vec<u8> = Vec::new();
    for c in &chunks {
        match s.step(&t, Event::UpstreamData(c.clone())) {
            Action::SendClient(b) => delivered.extend_from_slice(&b),
            other => panic!("unexpected action {:?}", other),
        }
        assert_eq!(s.step(&t, Event::Sent), Action::ReadUpstream);
    }
    assert_eq!(s.step(&t, Event::UpstreamClosed), Action::ReadLine);
    assert_eq!(delivered, chunks.concat());
}

#[test]
fn custom_table_routes() {
    let mut t = RoutingTable::new();
    t.insert("test", "whois.example.test");
    let mut s = Session::new();
    assert_eq!(s.step(&t, line("a.test")), connect("whois.example.test"));
    let mut s2 = Session::new();
    assert!(matches!(s2.step(&t, line("a.com")), Action::Reject { .. }));
}
