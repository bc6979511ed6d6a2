//! Decoding captured frames: link-type dispatch, header parsing, the
//! IPv6 gate and the locality filter, producing at most one record per
//! frame.

use vstd::prelude::*;
use vstd::slice::slice_subrange;
use crate::record::{HostAddr, Proto, RawRecord};
use crate::locality::LocalitySet;
use etherparse::IpHeader::{Version4, Version6};
use etherparse::PacketHeaders;
use etherparse::TransportHeader;
use etherparse::TransportHeader::{Tcp, Udp};

verus! {

/// The link type of an Ethernet II capture.
pub const LINKTYPE_ETHERNET: i32 = 1;

/// The link type of a Linux cooked capture, whose frames carry a 16-byte
/// pseudo-header in front of the IP packet.
pub const LINKTYPE_LINUX_SLL: i32 = 113;

/// The fields this pipeline reads out of one frame's L3 and L4 headers.
/// Ports are zero when the transport has none; the protocol tag is
/// `Unknown` when no transport header was found, `Other` when one was
/// found that is neither TCP nor UDP.
#[derive(Clone, Copy, PartialEq, Eq, Structural, Debug)]
pub struct DecodedHeaders {
    pub src: HostAddr,
    pub dst: HostAddr,
    pub proto: Proto,
    pub src_port: u16,
    pub dst_port: u16,
}

/// What parsing a frame that starts with an Ethernet II header yields:
/// `None` when the frame does not parse or carries no IP header, else the
/// addresses, protocol tag and ports. The result depends on the frame
/// bytes alone.
pub uninterp spec fn eth_decode(data: Seq<u8>) -> Option<DecodedHeaders>;

/// What parsing a bare IP packet yields; as [`eth_decode`], a function of
/// the bytes alone.
pub uninterp spec fn ip_decode(data: Seq<u8>) -> Option<DecodedHeaders>;

#[verifier::external_type_specification]
#[verifier::external_body]
pub struct ExTransportHeader(TransportHeader);

/// Relies on etherparse's `TransportHeader`: moves the protocol tag and
/// the ports out of a parsed transport header. TCP and UDP carry their
/// ports; any other transport maps to `Other` with zero ports, and a
/// missing transport header to `Unknown`.
#[verifier::external_body]
fn transport_fields(t: Option<TransportHeader>) -> (r: (Proto, u16, u16)) {
    match t {
        Some(Tcp(h)) => (Proto::Tcp, h.source_port, h.destination_port),
        Some(Udp(h)) => (Proto::Udp, h.source_port, h.destination_port),
        Some(_) => (Proto::Other, 0, 0),
        None => (Proto::Unknown, 0, 0),
    }
}

/// Relies on `etherparse::PacketHeaders::from_ethernet_slice`: parses an
/// Ethernet II frame and the IP and transport headers under it, a pure
/// function of the frame bytes.
#[verifier::external_body]
fn parse_ethernet(data: &[u8]) -> (r: Option<DecodedHeaders>)
    ensures
        r == eth_decode(data@),
{
    let h = PacketHeaders::from_ethernet_slice(data).ok()?;
    let (src, dst) = match h.ip? {
        Version4(v, _) => (HostAddr::V4(u32::from_be_bytes(v.source)), HostAddr::V4(u32::from_be_bytes(v.destination))),
        Version6(v, _) => (HostAddr::V6(u128::from_be_bytes(v.source)), HostAddr::V6(u128::from_be_bytes(v.destination))),
    };
    let (proto, src_port, dst_port) = transport_fields(h.transport);
    Some(DecodedHeaders { src, dst, proto, src_port, dst_port })
}

/// Relies on `etherparse::PacketHeaders::from_ip_slice`: as
/// [`parse_ethernet`], but for a packet that starts at the IP header.
#[verifier::external_body]
fn parse_ip(data: &[u8]) -> (r: Option<DecodedHeaders>)
    ensures
        r == ip_decode(data@),
{
    let h = PacketHeaders::from_ip_slice(data).ok()?;
    let (src, dst) = match h.ip? {
        Version4(v, _) => (HostAddr::V4(u32::from_be_bytes(v.source)), HostAddr::V4(u32::from_be_bytes(v.destination))),
        Version6(v, _) => (HostAddr::V6(u128::from_be_bytes(v.source)), HostAddr::V6(u128::from_be_bytes(v.destination))),
    };
    let (proto, src_port, dst_port) = transport_fields(h.transport);
    Some(DecodedHeaders { src, dst, proto, src_port, dst_port })
}

/// How a frame of a given link type decodes: Linux cooked frames must be
/// longer than 16 bytes and have that pseudo-header skipped; every other
/// link type is decoded as Ethernet, best effort.
pub open spec fn decode_spec(data: Seq<u8>, linktype: i32) -> Option<DecodedHeaders> {
    if linktype == LINKTYPE_LINUX_SLL {
        if data.len() > 16 {
            ip_decode(data.skip(16))
        } else {
            None
        }
    } else {
        eth_decode(data)
    }
}

/// Decodes one captured frame according to its link type.
pub fn decode_frame(data: &[u8], linktype: i32) -> (r: Option<DecodedHeaders>)
    ensures
        r == decode_spec(data@, linktype),
{
    if linktype == LINKTYPE_LINUX_SLL {
        if data.len() > 16 {
            let rest = slice_subrange(data, 16, data.len());
            proof {
                assert(rest@ =~= data@.skip(16));
            }
            parse_ip(rest)
        } else {
            None
        }
    } else {
        parse_ethernet(data)
    }
}

/// Turns decoded headers into the record the batcher buffers, applying
/// the IPv6 gate and the locality filter. Returns `None` exactly when the
/// packet is gated out or has no local endpoint.
pub fn build_record(
    d: &DecodedHeaders,
    ipv6_enabled: bool,
    locality: &LocalitySet,
    wire_len: u32,
) -> (r: Option<RawRecord>)
    requires
        wire_len <= i32::MAX,
    ensures
        ((d.src.spec_is_v6() || d.dst.spec_is_v6()) && !ipv6_enabled) ==> r is None,
        !(d.src.spec_is_v6() || d.dst.spec_is_v6()) || ipv6_enabled ==> {
            let keep = locality.spec_contains(d.src) || locality.spec_contains(d.dst);
            &&& !keep ==> r is None
            &&& keep ==> r == Some(
                RawRecord {
                    src_ip: d.src,
                    dst_ip: d.dst,
                    src_is_agent: locality.spec_contains(d.src),
                    dst_is_agent: locality.spec_contains(d.dst),
                    size: wire_len as i32,
                    proto: d.proto,
                    src_port: d.src_port as i32,
                    dst_port: d.dst_port as i32,
                },
            )
        },
{
    if (d.src.is_v6() || d.dst.is_v6()) && !ipv6_enabled {
        return None;
    }
    let (src_local, dst_local, keep) = locality.classify(&d.src, &d.dst);
    if !keep {
        return None;
    }
    Some(
        RawRecord {
            src_ip: d.src,
            dst_ip: d.dst,
            src_is_agent: src_local,
            dst_is_agent: dst_local,
            size: wire_len as i32,
            proto: d.proto,
            src_port: d.src_port as i32,
            dst_port: d.dst_port as i32,
        },
    )
}

/// The whole per-frame step of the capture loop: decode, gate, filter.
/// Every record this yields has a local endpoint, an IPv6 address only
/// when IPv6 capture is enabled, and a nonnegative byte count.
pub fn handle_frame(
    data: &[u8],
    linktype: i32,
    ipv6_enabled: bool,
    locality: &LocalitySet,
    wire_len: u32,
) -> (r: Option<RawRecord>)
    requires
        wire_len <= i32::MAX,
    ensures
        decode_spec(data@, linktype) is None ==> r is None,
        decode_spec(data@, linktype) matches Some(d) ==> {
            let keep = locality.spec_contains(d.src) || locality.spec_contains(d.dst);
            &&& ((d.src.spec_is_v6() || d.dst.spec_is_v6()) && !ipv6_enabled) ==> r is None
            &&& (!(d.src.spec_is_v6() || d.dst.spec_is_v6()) || ipv6_enabled) && !keep ==> r
                is None
            &&& (!(d.src.spec_is_v6() || d.dst.spec_is_v6()) || ipv6_enabled) && keep ==> r
                == Some(
                RawRecord {
                    src_ip: d.src,
                    dst_ip: d.dst,
                    src_is_agent: locality.spec_contains(d.src),
                    dst_is_agent: locality.spec_contains(d.dst),
                    size: wire_len as i32,
                    proto: d.proto,
                    src_port: d.src_port as i32,
                    dst_port: d.dst_port as i32,
                },
            )
        },
        r matches Some(rec) ==> {
            &&& rec.is_local()
            &&& (rec.src_ip.spec_is_v6() || rec.dst_ip.spec_is_v6()) ==> ipv6_enabled
            &&& rec.size >= 0
        },
{
    match decode_frame(data, linktype) {
        None => None,
        Some(d) => build_record(&d, ipv6_enabled, locality, wire_len),
    }
}

} // verus!
