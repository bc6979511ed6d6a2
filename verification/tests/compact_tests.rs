use mikaboshi::compact::{compact, compress_packets};
use mikaboshi::record::{HostAddr, Proto, RawRecord};

fn rec(src: u32, dst: u32, sl: bool, dl: bool, size: i32, proto: Proto, sp: i32, dp: i32) -> RawRecord {
    RawRecord {
        src_ip: HostAddr::V4(src),
        dst_ip: HostAddr::V4(dst),
        src_is_agent: sl,
        dst_is_agent: dl,
        size,
        proto,
        src_port: sp,
        dst_port: dp,
    }
}

#[test]
fn single_flow_collapses_to_one_record() {
    let mut batch: Vec<RawRecord> = Vec::new();
    for _ in 0..1000 {
        batch.push(rec(0x0a00_0001, 0x0a00_0002, true, false, 100, Proto::Tcp, 1000, 80));
    }
    let out = compact(&batch);
    assert_eq!(out.len(), 1);
    assert_eq!(out[0].size, 100_000);
    assert_eq!(out[0].src_ip, HostAddr::V4(0x0a00_0001));
    assert_eq!(out[0].dst_ip, HostAddr::V4(0x0a00_0002));
    assert!(out[0].src_is_agent);
    assert!(!out[0].dst_is_agent);
    assert_eq!(out[0].proto, Proto::Tcp);
    assert_eq!(out[0].src_port, 1000);
    assert_eq!(out[0].dst_port, 80);
}

#[test]
fn mixed_flows_keep_their_keys() {
    let a = 0x0a00_0001;
    let b = 0x0a00_0002;
    let batch = vec![
        rec(a, b, true, false, 100, Proto::Tcp, 1000, 80),
        rec(a, b, true, false, 50, Proto::Tcp, 1000, 80),
        rec(b, a, false, true, 200, Proto::Tcp, 80, 1000),
    ];
    let out = compact(&batch);
    assert_eq!(out.len(), 2);
    assert_eq!(out[0].size, 150);
    assert_eq!(out[0].src_ip, HostAddr::V4(a));
    assert_eq!(out[1].size, 200);
    assert_eq!(out[1].src_ip, HostAddr::V4(b));
}

#[test]
fn compaction_is_idempotent() {
    let batch = vec![
        rec(0x0a00_0001, 0x0a00_0002, true, false, 10, Proto::Tcp, 1, 2),
        rec(0x0a00_0001, 0x0a00_0002, true, false, 20, Proto::Tcp, 1, 2),
        rec(0x0a00_0003, 0x0a00_0001, false, true, 30, Proto::Udp, 3, 4),
    ];
    let once = compact(&batch);
    let twice = compact(&once);
    assert_eq!(once, twice);
}

#[test]
fn empty_batch_compacts_to_nothing() {
    let batch: Vec<RawRecord> = Vec::new();
    let out = compact(&batch);
    assert!(out.is_empty());
}

#[test]
fn byte_counts_differing_alone_do_not_split_a_flow() {
    let batch = vec![
        rec(0x0a00_0001, 0x0a00_0002, true, false, 1, Proto::Udp, 53, 53),
        rec(0x0a00_0001, 0x0a00_0002, true, false, 2, Proto::Udp, 53, 53),
        rec(0x0a00_0001, 0x0a00_0002, true, false, 3, Proto::Udp, 53, 53),
    ];
    let out = compact(&batch);
    assert_eq!(out.len(), 1);
    assert_eq!(out[0].size, 6);
}

#[test]
fn distinct_ports_stay_distinct() {
    let batch = vec![
        rec(0x0a00_0001, 0x0a00_0002, true, false, 10, Proto::Tcp, 1000, 80),
        rec(0x0a00_0001, 0x0a00_0002, true, false, 10, Proto::Tcp, 1001, 80),
    ];
    let out = compact(&batch);
    assert_eq!(out.len(), 2);
}

#[test]
fn wire_records_carry_serialized_addresses() {
    let batch = vec![
        rec(0x0a00_0001, 0x0a00_0002, true, false, 100, Proto::Tcp, 1000, 80),
        rec(0x0a00_0001, 0x0a00_0002, true, false, 50, Proto::Tcp, 1000, 80),
    ];
    let out = compress_packets(&batch);
    assert_eq!(out.len(), 1);
    assert_eq!(out[0].src_ip, vec![10u8, 0, 0, 1]);
    assert_eq!(out[0].dst_ip, vec![10u8, 0, 0, 2]);
    assert!(out[0].src_is_agent);
    assert!(!out[0].dst_is_agent);
    assert_eq!(out[0].size, 150);
    assert_eq!(out[0].proto, 1);
    assert_eq!(out[0].src_port, 1000);
    assert_eq!(out[0].dst_port, 80);
}

#[test]
fn wire_proto_codes_are_stable() {
    assert_eq!(Proto::Unknown.code(), 0);
    assert_eq!(Proto::Tcp.code(), 1);
    assert_eq!(Proto::Udp.code(), 2);
    assert_eq!(Proto::Other.code(), 3);
}

#[test]
fn ipv6_wire_addresses_are_sixteen_bytes() {
    let r = RawRecord {
        src_ip: HostAddr::V6(1),
        dst_ip: HostAddr::V6(0x2001_0db8_0000_0000_0000_0000_0000_0001),
        src_is_agent: true,
        dst_is_agent: false,
        size: 40,
        proto: Proto::Tcp,
        src_port: 443,
        dst_port: 8080,
    };
    let out = compress_packets(&vec![r]);
    assert_eq!(out.len(), 1);
    assert_eq!(out[0].src_ip.len(), 16);
    assert_eq!(out[0].dst_ip.len(), 16);
    assert_eq!(out[0].src_ip[15], 1);
    assert_eq!(out[0].dst_ip[0], 0x20);
}
