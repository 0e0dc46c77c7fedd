use ntp_clock::{
    endpoint_to_sock_addr, send_target, sock_addr_to_endpoint, IpEndpoint, Ipv4Address,
    Ipv6Address, SntpcError, SockAddr, NTP_PORT,
};

fn v4(o0: u8, o1: u8, o2: u8, o3: u8) -> Ipv4Address {
    Ipv4Address { o0, o1, o2, o3 }
}

fn some_v6() -> Ipv6Address {
    Ipv6Address { s0: 0x20, s1: 1, s2: 0, s3: 0, s4: 0, s5: 0, s6: 0, s7: 8 }
}

#[test]
fn ntp_port_is_the_well_known_one() {
    assert_eq!(NTP_PORT, 123);
}

#[test]
fn sock_addr_round_trips_through_the_endpoint_form() {
    let quads = [
        v4(0, 0, 0, 0),
        v4(127, 0, 0, 1),
        v4(192, 168, 1, 254),
        v4(255, 255, 255, 255),
    ];
    let ports = [0u16, 1, 123, 1234, 65535];
    for &ip in quads.iter() {
        for &port in ports.iter() {
            let original = SockAddr::V4 { ip, port };
            let endpoint = sock_addr_to_endpoint(&original).unwrap();
            assert_eq!(endpoint, IpEndpoint { addr: ip, port });
            assert_eq!(endpoint_to_sock_addr(&endpoint), original);
        }
    }
}

#[test]
fn endpoint_round_trips_through_the_sock_addr_form() {
    let endpoint = IpEndpoint { addr: v4(10, 0, 0, 7), port: 123 };
    let sock = endpoint_to_sock_addr(&endpoint);
    assert_eq!(sock_addr_to_endpoint(&sock).unwrap(), endpoint);
}

#[test]
fn non_ipv4_addresses_are_unsupported() {
    let sock = SockAddr::V6 { ip: some_v6(), port: 123 };
    assert_eq!(sock_addr_to_endpoint(&sock), Err(SntpcError::UnsupportedAddressFamily));
}

#[test]
fn send_target_takes_the_first_address() {
    let addrs = vec![
        SockAddr::V4 { ip: v4(1, 2, 3, 4), port: 123 },
        SockAddr::V4 { ip: v4(5, 6, 7, 8), port: 123 },
    ];
    assert_eq!(
        send_target(&addrs),
        Ok(IpEndpoint { addr: v4(1, 2, 3, 4), port: 123 })
    );
}

#[test]
fn send_target_with_no_addresses_fails() {
    let addrs: Vec<SockAddr> = Vec::new();
    assert_eq!(send_target(&addrs), Err(SntpcError::NoAddr));
}

#[test]
fn send_target_with_leading_v6_is_unsupported() {
    let addrs = vec![
        SockAddr::V6 { ip: some_v6(), port: 123 },
        SockAddr::V4 { ip: v4(5, 6, 7, 8), port: 123 },
    ];
    assert_eq!(send_target(&addrs), Err(SntpcError::UnsupportedAddressFamily));
}
