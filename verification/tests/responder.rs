use dns_mock_server::{Fallback, IpAddress, NormalizedName, Response, Server, StatusCode};

fn query(server: &Server, name: &str) -> dns_mock_server::Reply {
    let parsed = NormalizedName::parse(name).expect("query name should be valid");
    let source = IpAddress::V4(127, 0, 0, 1);
    server.resolve(&parsed, &source)
}

#[test]
fn can_query_dns_records_from_the_server() {
    let expected_addr = IpAddress::V4(1, 2, 3, 4);

    let mut server = Server::default();
    server
        .add_records("www.example.com.", vec![expected_addr])
        .expect("registration should succeed");

    let reply = query(&server, "www.example.com.");

    assert_eq!(reply.answers.len(), 1);
    assert_eq!(reply.answers[0].address, expected_addr);
    assert_eq!(reply.answers[0].ttl, 60);
    assert_eq!(reply.code, StatusCode::NoError);
    assert!(reply.authoritative);
}

#[test]
fn unknown_names_return_errors() {
    let server = Server::default();

    let reply = query(&server, "www.example.com.");

    assert_eq!(reply.code, StatusCode::ServFail);
    assert_eq!(reply.answers.len(), 0);
    assert!(reply.authoritative);
}

#[test]
fn can_query_desired_response_from_the_server() {
    let mut server = Server::default();
    server
        .add_response("www.example.com.", Response::Code(StatusCode::NXDomain))
        .expect("registration should succeed");

    let reply = query(&server, "www.example.com.");

    assert_eq!(reply.code, StatusCode::NXDomain);
    assert_eq!(reply.answers.len(), 0);
}

#[test]
fn matching_is_case_insensitive_and_ignores_the_trailing_dot() {
    let addr = IpAddress::V4(5, 6, 7, 8);

    let mut server = Server::default();
    server
        .add_records("Example.com", vec![addr])
        .expect("registration should succeed");

    let reply = query(&server, "example.com.");

    assert_eq!(reply.code, StatusCode::NoError);
    assert_eq!(reply.answers.len(), 1);
    assert_eq!(reply.answers[0].address, addr);

    let shouted = query(&server, "EXAMPLE.COM");
    assert_eq!(shouted.code, StatusCode::NoError);
    assert_eq!(shouted.answers.len(), 1);
}

#[test]
fn later_registration_overwrites_earlier() {
    let first = IpAddress::V4(10, 0, 0, 1);
    let second = IpAddress::V6(0, 0, 0, 0, 0, 0, 0, 1);

    let mut server = Server::default();
    server
        .add_records("www.example.com.", vec![first])
        .expect("registration should succeed");
    server
        .add_records("www.example.com.", vec![second])
        .expect("registration should succeed");

    let reply = query(&server, "www.example.com.");

    assert_eq!(reply.answers.len(), 1);
    assert_eq!(reply.answers[0].address, second);
}

#[test]
fn address_families_keep_their_order_and_type() {
    let addrs = vec![
        IpAddress::V4(1, 2, 3, 4),
        IpAddress::V6(0x2001, 0xdb8, 0, 0, 0, 0, 0, 1),
        IpAddress::V4(9, 8, 7, 6),
    ];

    let mut server = Server::default();
    server
        .add_records("mixed.example.com.", addrs.clone())
        .expect("registration should succeed");

    let reply = query(&server, "mixed.example.com.");

    assert_eq!(reply.code, StatusCode::NoError);
    assert_eq!(reply.answers.len(), 3);
    for (answer, addr) in reply.answers.iter().zip(addrs.iter()) {
        assert_eq!(answer.address, *addr);
        assert_eq!(answer.ttl, 60);
    }
    assert!(matches!(reply.answers[0].address, IpAddress::V4(..)));
    assert!(matches!(reply.answers[1].address, IpAddress::V6(..)));
    assert!(matches!(reply.answers[2].address, IpAddress::V4(..)));
}

#[test]
fn an_empty_address_list_is_distinct_from_no_registration() {
    let mut server = Server::default();
    server
        .add_records("empty.example.com.", vec![])
        .expect("registration should succeed");

    let registered = query(&server, "empty.example.com.");
    assert_eq!(registered.code, StatusCode::NoError);
    assert_eq!(registered.answers.len(), 0);

    let unregistered = query(&server, "missing.example.com.");
    assert_eq!(unregistered.code, StatusCode::ServFail);
}

#[test]
fn subdomains_of_registered_names_are_not_matched() {
    let mut server = Server::default();
    server
        .add_records("example.com.", vec![IpAddress::V4(1, 2, 3, 4)])
        .expect("registration should succeed");

    let reply = query(&server, "www.example.com.");

    assert_eq!(reply.code, StatusCode::ServFail);
    assert_eq!(reply.answers.len(), 0);
}

#[test]
fn invalid_names_are_rejected_at_registration() {
    let mut server = Server::default();

    let too_long_label = "a".repeat(64);
    let result = server.add_records(&too_long_label, vec![IpAddress::V4(1, 2, 3, 4)]);
    assert!(result.is_err());

    let empty = server.add_records("", vec![IpAddress::V4(1, 2, 3, 4)]);
    assert!(empty.is_err());

    let reply = query(&server, "www.example.com.");
    assert_eq!(reply.code, StatusCode::ServFail);
}

#[test]
fn echo_mode_answers_with_the_source_address() {
    let mut server = Server::default();
    server.set_fallback(Fallback::EchoSource);

    let parsed = NormalizedName::parse("www.example.com.").expect("query name should be valid");
    let source = IpAddress::V4(127, 0, 0, 1);
    let reply = server.resolve(&parsed, &source);

    assert_eq!(reply.code, StatusCode::NoError);
    assert_eq!(reply.answers.len(), 1);
    assert_eq!(reply.answers[0].address, source);
    assert_eq!(reply.answers[0].ttl, 60);
    assert!(reply.authoritative);
}

#[test]
fn echo_mode_still_answers_registered_names_from_the_store() {
    let registered = IpAddress::V4(1, 2, 3, 4);

    let mut server = Server::default();
    server.set_fallback(Fallback::EchoSource);
    server
        .add_records("www.example.com.", vec![registered])
        .expect("registration should succeed");

    let parsed = NormalizedName::parse("www.example.com.").expect("query name should be valid");
    let source = IpAddress::V4(127, 0, 0, 1);
    let reply = server.resolve(&parsed, &source);

    assert_eq!(reply.answers.len(), 1);
    assert_eq!(reply.answers[0].address, registered);
}

#[test]
fn equal_spellings_normalize_to_the_same_name() {
    let spelled = NormalizedName::parse("Example.com").expect("name should be valid");
    let canonical = NormalizedName::parse("example.com.").expect("name should be valid");
    let other = NormalizedName::parse("example.org.").expect("name should be valid");

    assert!(spelled.same_as(&canonical));
    assert!(!spelled.same_as(&other));
}

#[test]
fn lookup_finds_exactly_the_registered_name() {
    let mut server = Server::default();
    server
        .add_response("www.example.com.", Response::Code(StatusCode::Refused))
        .expect("registration should succeed");

    let registered = NormalizedName::parse("www.example.com.").expect("name should be valid");
    let missing = NormalizedName::parse("www.example.org.").expect("name should be valid");

    assert!(matches!(
        server.lookup(&registered),
        Some(Response::Code(StatusCode::Refused))
    ));
    assert!(server.lookup(&missing).is_none());
}
