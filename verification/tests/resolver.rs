use kproxy::base::Error;
use kproxy::create_socket_addr;
use kproxy::resolver::{first_address, IpAddress, Resolution, SocketAddress};

#[test]
fn literal_address_needs_no_lookup() {
    assert_eq!(
        create_socket_addr("127.0.0.1", 80, Some(IpAddress::V4(0x7f00_0001))),
        Resolution::Resolved(SocketAddress { ip: IpAddress::V4(0x7f00_0001), port: 80 })
    );
    assert_eq!(
        create_socket_addr("::1", 443, Some(IpAddress::V6(1))),
        Resolution::Resolved(SocketAddress { ip: IpAddress::V6(1), port: 443 })
    );
}

#[test]
fn name_is_looked_up_with_its_port() {
    assert_eq!(
        create_socket_addr("localhost", 8080, None),
        Resolution::Lookup("localhost:8080".to_string())
    );
    assert_eq!(
        create_socket_addr("example.org", 0, None),
        Resolution::Lookup("example.org:0".to_string())
    );
    assert_eq!(create_socket_addr("", 65535, None), Resolution::Lookup(":65535".to_string()));
}

#[test]
fn first_address_found_is_used() {
    let a = SocketAddress { ip: IpAddress::V4(1), port: 80 };
    let b = SocketAddress { ip: IpAddress::V6(2), port: 80 };
    assert_eq!(first_address(Ok(vec![a, b])), Ok(a));
    assert_eq!(first_address(Ok(vec![b])), Ok(b));
}

#[test]
fn lookup_without_addresses_fails() {
    assert_eq!(
        first_address(Ok(Vec::new())),
        Err(Error::Msg("No addresses found".to_string()))
    );
}

#[test]
fn failed_lookup_is_reported_with_its_words() {
    assert_eq!(
        first_address(Err("name or service not known".to_string())),
        Err(Error::Msg("Failed to resolve address: name or service not known".to_string()))
    );
}
