use mikaboshi::decode::{decode_frame, handle_frame, DecodedHeaders, LINKTYPE_ETHERNET, LINKTYPE_LINUX_SLL};
use mikaboshi::locality::LocalitySet;
use mikaboshi::record::{HostAddr, Proto};

fn ipv4_udp_packet() -> Vec<u8> {
    // IPv4 header, 10.0.0.1 -> 10.0.0.2, protocol UDP, then a UDP header
    // with ports 1000 -> 80.
    let mut p = vec![
        0x45, 0x00, 0x00, 0x1c, 0x00, 0x00, 0x00, 0x00, 0x40, 0x11, 0x00, 0x00, 10, 0, 0, 1, 10,
        0, 0, 2,
    ];
    p.extend_from_slice(&[0x03, 0xe8, 0x00, 0x50, 0x00, 0x08, 0x00, 0x00]);
    p
}

fn eth_ipv4_udp_frame() -> Vec<u8> {
    let mut f = vec![0, 0, 0, 0, 0, 1, 0, 0, 0, 0, 0, 2, 0x08, 0x00];
    f.extend_from_slice(&ipv4_udp_packet());
    f
}

fn eth_ipv6_tcp_frame() -> Vec<u8> {
    // Ethernet, then IPv6 ::1 -> ::2 carrying a 20-byte TCP header with
    // ports 443 -> 8080.
    let mut f = vec![0, 0, 0, 0, 0, 1, 0, 0, 0, 0, 0, 2, 0x86, 0xdd];
    f.extend_from_slice(&[0x60, 0x00, 0x00, 0x00, 0x00, 0x14, 0x06, 0x40]);
    f.extend_from_slice(&[0, 0, 0, 0, 0, 0, 0, 0, 0, 0, 0, 0, 0, 0, 0, 1]);
    f.extend_from_slice(&[0, 0, 0, 0, 0, 0, 0, 0, 0, 0, 0, 0, 0, 0, 0, 2]);
    f.extend_from_slice(&[
        0x01, 0xbb, 0x1f, 0x90, 0, 0, 0, 0, 0, 0, 0, 0, 0x50, 0x02, 0x00, 0x00, 0x00, 0x00, 0x00,
        0x00,
    ]);
    f
}

#[test]
fn ethernet_ipv4_udp_decodes() {
    let frame = eth_ipv4_udp_frame();
    let d = decode_frame(&frame, LINKTYPE_ETHERNET);
    assert_eq!(
        d,
        Some(DecodedHeaders {
            src: HostAddr::V4(0x0a00_0001),
            dst: HostAddr::V4(0x0a00_0002),
            proto: Proto::Udp,
            src_port: 1000,
            dst_port: 80,
        })
    );
}

#[test]
fn cooked_capture_skips_the_pseudo_header() {
    let mut frame = vec![0u8; 16];
    frame.extend_from_slice(&ipv4_udp_packet());
    let d = decode_frame(&frame, LINKTYPE_LINUX_SLL);
    assert_eq!(
        d,
        Some(DecodedHeaders {
            src: HostAddr::V4(0x0a00_0001),
            dst: HostAddr::V4(0x0a00_0002),
            proto: Proto::Udp,
            src_port: 1000,
            dst_port: 80,
        })
    );
}

#[test]
fn short_cooked_frame_is_dropped() {
    let frame = vec![0u8; 16];
    assert_eq!(decode_frame(&frame, LINKTYPE_LINUX_SLL), None);
}

#[test]
fn garbage_does_not_decode() {
    let frame = vec![0xffu8; 10];
    assert_eq!(decode_frame(&frame, LINKTYPE_ETHERNET), None);
}

#[test]
fn local_packet_becomes_a_record() {
    let frame = eth_ipv4_udp_frame();
    let locality = LocalitySet::from_interface_addrs(vec![HostAddr::V4(0x0a00_0001)]);
    let r = handle_frame(&frame, LINKTYPE_ETHERNET, false, &locality, 64).unwrap();
    assert_eq!(r.src_ip, HostAddr::V4(0x0a00_0001));
    assert_eq!(r.dst_ip, HostAddr::V4(0x0a00_0002));
    assert!(r.src_is_agent);
    assert!(!r.dst_is_agent);
    assert_eq!(r.size, 64);
    assert_eq!(r.proto, Proto::Udp);
    assert_eq!(r.src_port, 1000);
    assert_eq!(r.dst_port, 80);
}

#[test]
fn nonlocal_packet_is_dropped() {
    let frame = eth_ipv4_udp_frame();
    let locality = LocalitySet::from_interface_addrs(vec![HostAddr::V4(0xc0a8_0101)]);
    assert_eq!(handle_frame(&frame, LINKTYPE_ETHERNET, false, &locality, 64), None);
}

#[test]
fn ipv6_gate_drops_when_disabled() {
    let frame = eth_ipv6_tcp_frame();
    let locality = LocalitySet::from_interface_addrs(vec![HostAddr::V6(1)]);
    assert_eq!(handle_frame(&frame, LINKTYPE_ETHERNET, false, &locality, 80), None);
}

#[test]
fn ipv6_gate_admits_when_enabled() {
    let frame = eth_ipv6_tcp_frame();
    let locality = LocalitySet::from_interface_addrs(vec![HostAddr::V6(1)]);
    let r = handle_frame(&frame, LINKTYPE_ETHERNET, true, &locality, 80).unwrap();
    assert_eq!(r.src_ip, HostAddr::V6(1));
    assert_eq!(r.dst_ip, HostAddr::V6(2));
    assert!(r.src_is_agent);
    assert_eq!(r.proto, Proto::Tcp);
    assert_eq!(r.src_port, 443);
    assert_eq!(r.dst_port, 8080);
}

#[test]
fn loopback_is_always_local() {
    let locality = LocalitySet::from_interface_addrs(Vec::new());
    let (src_local, dst_local, keep) =
        locality.classify(&HostAddr::V4(0x7f00_0001), &HostAddr::V4(0x0a00_0001));
    assert!(src_local);
    assert!(!dst_local);
    assert!(keep);
    let (s6, _, k6) = locality.classify(&HostAddr::V6(1), &HostAddr::V4(0x0a00_0001));
    assert!(s6);
    assert!(k6);
}

#[test]
fn both_ends_foreign_is_not_kept() {
    let locality = LocalitySet::from_interface_addrs(vec![HostAddr::V4(0x0a00_0001)]);
    let (s, d, keep) = locality.classify(&HostAddr::V4(0x0a00_0002), &HostAddr::V4(0x0a00_0003));
    assert!(!s);
    assert!(!d);
    assert!(!keep);
}
