//! Data model: addresses, protocol tags, per-packet records, flow-keys and
//! the wire form of a compacted record.

use vstd::prelude::*;

verus! {

/// The 4 bytes of an IPv4 address read as a big-endian integer.
pub open spec fn v4_bytes(v: u32) -> Seq<u8> {
    seq![(v >> 24) as u8, (v >> 16) as u8, (v >> 8) as u8, v as u8]
}

/// The 16 bytes of an IPv6 address read as a big-endian integer.
pub open spec fn v6_bytes(v: u128) -> Seq<u8> {
    seq![
        (v >> 120) as u8,
        (v >> 112) as u8,
        (v >> 104) as u8,
        (v >> 96) as u8,
        (v >> 88) as u8,
        (v >> 80) as u8,
        (v >> 72) as u8,
        (v >> 64) as u8,
        (v >> 56) as u8,
        (v >> 48) as u8,
        (v >> 40) as u8,
        (v >> 32) as u8,
        (v >> 24) as u8,
        (v >> 16) as u8,
        (v >> 8) as u8,
        v as u8,
    ]
}

/// An IP address held as a big-endian integer: 32 bits for IPv4, 128 for
/// IPv6.
#[derive(Clone, Copy, PartialEq, Eq, Structural, Hash, Debug)]
pub enum HostAddr {
    V4(u32),
    V6(u128),
}

impl HostAddr {
    /// True when the address is an IPv6 address.
    pub open spec fn spec_is_v6(&self) -> bool {
        matches!(self, HostAddr::V6(_))
    }

    #[verifier::when_used_as_spec(spec_is_v6)]
    pub fn is_v6(&self) -> (r: bool)
        ensures
            r == self.spec_is_v6(),
    {
        match self {
            HostAddr::V4(_) => false,
            HostAddr::V6(_) => true,
        }
    }

    /// The address bytes in the order they appear on the wire.
    pub open spec fn spec_bytes(self) -> Seq<u8> {
        match self {
            HostAddr::V4(a) => v4_bytes(a),
            HostAddr::V6(a) => v6_bytes(a),
        }
    }

    /// Serializes the address to its natural byte width.
    pub fn to_bytes(&self) -> (r: Vec<u8>)
        ensures
            r@ == self.spec_bytes(),
            r@.len() == 4 || r@.len() == 16,
            r@.len() == 16 <==> self.spec_is_v6(),
    {
        match self {
            HostAddr::V4(a) => {
                let v = *a;
                let mut out: Vec<u8> = Vec::new();
                out.push((v >> 24) as u8);
                out.push((v >> 16) as u8);
                out.push((v >> 8) as u8);
                out.push(v as u8);
                proof {
                    assert(out@ =~= v4_bytes(v));
                }
                out
            },
            HostAddr::V6(a) => {
                let v = *a;
                let mut out: Vec<u8> = Vec::new();
                out.push((v >> 120) as u8);
                out.push((v >> 112) as u8);
                out.push((v >> 104) as u8);
                out.push((v >> 96) as u8);
                out.push((v >> 88) as u8);
                out.push((v >> 80) as u8);
                out.push((v >> 72) as u8);
                out.push((v >> 64) as u8);
                out.push((v >> 56) as u8);
                out.push((v >> 48) as u8);
                out.push((v >> 40) as u8);
                out.push((v >> 32) as u8);
                out.push((v >> 24) as u8);
                out.push((v >> 16) as u8);
                out.push((v >> 8) as u8);
                out.push(v as u8);
                proof {
                    assert(out@ =~= v6_bytes(v));
                }
                out
            },
        }
    }
}

/// The IPv4 address encoded by 4 big-endian bytes.
pub open spec fn u32_from_4(s: Seq<u8>) -> u32 {
    ((s[0] as u32) << 24) | ((s[1] as u32) << 16) | ((s[2] as u32) << 8) | (s[3] as u32)
}

/// The IPv6 address encoded by 16 big-endian bytes.
pub open spec fn u128_from_16(s: Seq<u8>) -> u128 {
    ((s[0] as u128) << 120) | ((s[1] as u128) << 112) | ((s[2] as u128) << 104) | ((s[3]
        as u128) << 96) | ((s[4] as u128) << 88) | ((s[5] as u128) << 80) | ((s[6] as u128) << 72)
        | ((s[7] as u128) << 64) | ((s[8] as u128) << 56) | ((s[9] as u128) << 48) | ((s[10]
        as u128) << 40) | ((s[11] as u128) << 32) | ((s[12] as u128) << 24) | ((s[13]
        as u128) << 16) | ((s[14] as u128) << 8) | (s[15] as u128)
}

/// The address a wire byte string denotes: 4 bytes name an IPv4 address,
/// 16 an IPv6 address, any other length is malformed.
pub open spec fn spec_addr_from_bytes(s: Seq<u8>) -> Option<HostAddr> {
    if s.len() == 4 {
        Some(HostAddr::V4(u32_from_4(s)))
    } else if s.len() == 16 {
        Some(HostAddr::V6(u128_from_16(s)))
    } else {
        None
    }
}

/// Parses an address from its wire bytes.
pub fn addr_from_bytes(bytes: &Vec<u8>) -> (r: Option<HostAddr>)
    ensures
        r == spec_addr_from_bytes(bytes@),
{
    if bytes.len() == 4 {
        Some(
            HostAddr::V4(
                ((bytes[0] as u32) << 24) | ((bytes[1] as u32) << 16) | ((bytes[2] as u32) << 8) | (
                bytes[3] as u32),
            ),
        )
    } else if bytes.len() == 16 {
        Some(
            HostAddr::V6(
                ((bytes[0] as u128) << 120) | ((bytes[1] as u128) << 112) | ((bytes[2]
                    as u128) << 104) | ((bytes[3] as u128) << 96) | ((bytes[4] as u128) << 88) | ((
                bytes[5] as u128) << 80) | ((bytes[6] as u128) << 72) | ((bytes[7] as u128) << 64)
                    | ((bytes[8] as u128) << 56) | ((bytes[9] as u128) << 48) | ((bytes[10]
                    as u128) << 40) | ((bytes[11] as u128) << 32) | ((bytes[12] as u128) << 24) | ((
                bytes[13] as u128) << 16) | ((bytes[14] as u128) << 8) | (bytes[15] as u128),
            ),
        )
    } else {
        None
    }
}

/// Serializing an address and parsing the bytes back yields the address
/// again: the wire encoding loses nothing.
pub proof fn lemma_addr_bytes_round_trip(a: HostAddr)
    ensures
        spec_addr_from_bytes(a.spec_bytes()) == Some(a),
{
    match a {
        HostAddr::V4(v) => {
            assert((((((v >> 24) as u8) as u32) << 24) | ((((v >> 16) as u8) as u32) << 16) | ((((v
                >> 8) as u8) as u32) << 8) | ((v as u8) as u32)) == v) by (bit_vector);
        },
        HostAddr::V6(v) => {
            assert((((((v >> 120) as u8) as u128) << 120) | ((((v >> 112) as u8) as u128) << 112)
                | ((((v >> 104) as u8) as u128) << 104) | ((((v >> 96) as u8) as u128) << 96) | ((((
            v >> 88) as u8) as u128) << 88) | ((((v >> 80) as u8) as u128) << 80) | ((((v
                >> 72) as u8) as u128) << 72) | ((((v >> 64) as u8) as u128) << 64) | ((((v
                >> 56) as u8) as u128) << 56) | ((((v >> 48) as u8) as u128) << 48) | ((((v
                >> 40) as u8) as u128) << 40) | ((((v >> 32) as u8) as u128) << 32) | ((((v
                >> 24) as u8) as u128) << 24) | ((((v >> 16) as u8) as u128) << 16) | ((((v
                >> 8) as u8) as u128) << 8) | ((v as u8) as u128)) == v) by (bit_vector);
        },
    }
}

/// Transport protocol tag carried on the wire.
#[derive(Clone, Copy, PartialEq, Eq, Structural, Hash, Debug)]
pub enum Proto {
    Unknown,
    Tcp,
    Udp,
    Other,
}

impl Proto {
    /// The stable wire value of the tag.
    pub open spec fn spec_code(&self) -> i32 {
        match self {
            Proto::Unknown => 0,
            Proto::Tcp => 1,
            Proto::Udp => 2,
            Proto::Other => 3,
        }
    }

    #[verifier::when_used_as_spec(spec_code)]
    pub fn code(&self) -> (r: i32)
        ensures
            r == self.spec_code(),
    {
        match self {
            Proto::Unknown => 0,
            Proto::Tcp => 1,
            Proto::Udp => 2,
            Proto::Other => 3,
        }
    }
}

/// One captured packet that passed the locality filter.
///
/// Everything but `size` identifies the flow the packet belongs to; `size`
/// is the captured wire length and is what compaction sums.
#[derive(Clone, Copy, PartialEq, Eq, Structural, Hash, Debug)]
pub struct RawRecord {
    pub src_ip: HostAddr,
    pub dst_ip: HostAddr,
    pub src_is_agent: bool,
    pub dst_is_agent: bool,
    pub size: i32,
    pub proto: Proto,
    pub src_port: i32,
    pub dst_port: i32,
}

/// The tuple that identifies a unidirectional flow: every field of a
/// record except its byte count.
pub ghost struct FlowKey {
    pub src_ip: HostAddr,
    pub dst_ip: HostAddr,
    pub src_is_agent: bool,
    pub dst_is_agent: bool,
    pub proto: Proto,
    pub src_port: i32,
    pub dst_port: i32,
}

impl RawRecord {
    /// The flow-key of this record.
    pub open spec fn key(self) -> FlowKey {
        FlowKey {
            src_ip: self.src_ip,
            dst_ip: self.dst_ip,
            src_is_agent: self.src_is_agent,
            dst_is_agent: self.dst_is_agent,
            proto: self.proto,
            src_port: self.src_port,
            dst_port: self.dst_port,
        }
    }

    /// True when at least one endpoint is the capturing host.
    pub open spec fn is_local(self) -> bool {
        self.src_is_agent || self.dst_is_agent
    }

    /// Decides whether `other` belongs to the same flow.
    pub fn same_key(&self, other: &RawRecord) -> (r: bool)
        ensures
            r == (self.key() == other.key()),
    {
        let r = self.src_ip == other.src_ip && self.dst_ip == other.dst_ip
            && self.src_is_agent == other.src_is_agent
            && self.dst_is_agent == other.dst_is_agent && self.proto == other.proto
            && self.src_port == other.src_port && self.dst_port == other.dst_port;
        proof {
            if !r {
                assert(self.key() != other.key());
            }
        }
        r
    }
}

/// The view of a wire record: plain values only.
pub ghost struct WireRecordV {
    pub src_ip: Seq<u8>,
    pub dst_ip: Seq<u8>,
    pub src_is_agent: bool,
    pub dst_is_agent: bool,
    pub size: i32,
    pub proto: i32,
    pub src_port: i32,
    pub dst_port: i32,
}

/// A compacted record as it is serialized: addresses as raw bytes, the
/// protocol as its wire value, and `size` summed over the flow.
#[derive(Clone, Debug)]
pub struct WireRecord {
    pub src_ip: Vec<u8>,
    pub dst_ip: Vec<u8>,
    pub src_is_agent: bool,
    pub dst_is_agent: bool,
    pub size: i32,
    pub proto: i32,
    pub src_port: i32,
    pub dst_port: i32,
}

impl View for WireRecord {
    type V = WireRecordV;

    open spec fn view(&self) -> WireRecordV {
        WireRecordV {
            src_ip: self.src_ip@,
            dst_ip: self.dst_ip@,
            src_is_agent: self.src_is_agent,
            dst_is_agent: self.dst_is_agent,
            size: self.size,
            proto: self.proto,
            src_port: self.src_port,
            dst_port: self.dst_port,
        }
    }
}

/// The wire form of a record: addresses serialized to their natural width,
/// the protocol tag replaced by its wire value.
pub open spec fn wire_of(r: RawRecord) -> WireRecordV {
    WireRecordV {
        src_ip: r.src_ip.spec_bytes(),
        dst_ip: r.dst_ip.spec_bytes(),
        src_is_agent: r.src_is_agent,
        dst_is_agent: r.dst_is_agent,
        size: r.size,
        proto: r.proto.spec_code(),
        src_port: r.src_port,
        dst_port: r.dst_port,
    }
}

/// Serializes one record to its wire form.
pub fn to_wire(r: &RawRecord) -> (w: WireRecord)
    ensures
        w@ == wire_of(*r),
        w@.src_ip.len() == 4 || w@.src_ip.len() == 16,
        w@.dst_ip.len() == 4 || w@.dst_ip.len() == 16,
        w@.src_ip.len() == 16 <==> r.src_ip.spec_is_v6(),
        w@.dst_ip.len() == 16 <==> r.dst_ip.spec_is_v6(),
{
    WireRecord {
        src_ip: r.src_ip.to_bytes(),
        dst_ip: r.dst_ip.to_bytes(),
        src_is_agent: r.src_is_agent,
        dst_is_agent: r.dst_is_agent,
        size: r.size,
        proto: r.proto.code(),
        src_port: r.src_port,
        dst_port: r.dst_port,
    }
}

} // verus!
