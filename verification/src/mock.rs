//! The mock capture source: synthetic traffic between this host and a
//! fixed peer list, used when live capture is unavailable or on request.

use vstd::prelude::*;
use crate::record::{HostAddr, Proto, RawRecord};

verus! {

/// Relies on `rand::thread_rng` and `rand::Rng::gen_range`: a value
/// drawn from `[lo, hi)`. Nothing is promised beyond the bounds.
#[verifier::external_body]
fn rand_range_u64(lo: u64, hi: u64) -> (r: u64)
    requires
        lo < hi,
    ensures
        lo <= r < hi,
{
    rand::Rng::gen_range(&mut rand::thread_rng(), lo..hi)
}

/// Relies on `rand::thread_rng` and `rand::Rng::gen_range`: a value
/// drawn from `[lo, hi)`. Nothing is promised beyond the bounds.
#[verifier::external_body]
fn rand_range_i32(lo: i32, hi: i32) -> (r: i32)
    requires
        lo < hi,
    ensures
        lo <= r < hi,
{
    rand::Rng::gen_range(&mut rand::thread_rng(), lo..hi)
}

/// Relies on `rand::random::<bool>`: a coin flip; nothing is promised of
/// the value.
#[verifier::external_body]
fn rand_bool() -> (r: bool) {
    rand::random::<bool>()
}

/// A pause, in milliseconds, between two synthetic packets. Always under
/// 5 ms, so the mock source stays well below a 10 ms inter-arrival time.
pub fn mock_delay_ms() -> (d: u64)
    ensures
        d < 5,
{
    rand_range_u64(0, 5)
}

/// The synthetic traffic source. Every record it emits runs between the
/// loopback address and one of a fixed list of peers, in a random
/// direction with a random size.
pub struct MockSource {
    peers: Vec<HostAddr>,
}

impl MockSource {
    /// The fixed peers synthetic traffic is exchanged with.
    pub closed spec fn peers(&self) -> Seq<HostAddr> {
        self.peers@
    }

    /// The source's invariant: at least one peer, and no peer is the
    /// loopback address, so exactly one endpoint of each record is local.
    pub closed spec fn wf(&self) -> bool {
        &&& self.peers@.len() >= 1
        &&& forall|i: int| 0 <= i < self.peers@.len() ==> self.peers@[i] != HostAddr::V4(
            0x7f00_0001u32,
        )
    }

    /// A mock source over the four built-in private-range peers.
    pub fn new() -> (s: MockSource)
        ensures
            s.wf(),
            s.peers() == seq![
                HostAddr::V4(0xc0a8_010au32),
                HostAddr::V4(0xc0a8_0114u32),
                HostAddr::V4(0x0a00_0005u32),
                HostAddr::V4(0xac10_0003u32),
            ],
    {
        let mut peers: Vec<HostAddr> = Vec::new();
        peers.push(HostAddr::V4(0xc0a8_010au32));
        peers.push(HostAddr::V4(0xc0a8_0114u32));
        peers.push(HostAddr::V4(0x0a00_0005u32));
        peers.push(HostAddr::V4(0xac10_0003u32));
        let s = MockSource { peers };
        proof {
            assert(s.peers@ =~= seq![
                HostAddr::V4(0xc0a8_010au32),
                HostAddr::V4(0xc0a8_0114u32),
                HostAddr::V4(0x0a00_0005u32),
                HostAddr::V4(0xac10_0003u32),
            ]);
        }
        s
    }

    /// One synthetic record: loopback on exactly one end, a peer on the
    /// other, a size of 64 to 999 bytes, TCP, no ports. Whatever the
    /// random draws, the record passes the locality filter.
    pub fn next(&self) -> (r: RawRecord)
        requires
            self.wf(),
        ensures
            r.is_local(),
            r.size >= 64 && r.size < 1000,
            r.proto == Proto::Tcp,
            r.src_port == 0 && r.dst_port == 0,
            (r.src_ip == HostAddr::V4(0x7f00_0001u32) && self.peers().contains(r.dst_ip)
                && r.src_is_agent && !r.dst_is_agent) || (r.dst_ip == HostAddr::V4(0x7f00_0001u32)
                && self.peers().contains(r.src_ip) && r.dst_is_agent && !r.src_is_agent),
    {
        let localhost = HostAddr::V4(0x7f00_0001u32);
        let idx = rand_range_u64(0, self.peers.len() as u64) as usize;
        let peer = self.peers[idx];
        let to_peer = rand_bool();
        let size = rand_range_i32(64, 1000);
        let (src, dst) = if to_peer {
            (localhost, peer)
        } else {
            (peer, localhost)
        };
        let src_is_agent = src == localhost;
        let dst_is_agent = dst == localhost;
        RawRecord {
            src_ip: src,
            dst_ip: dst,
            src_is_agent,
            dst_is_agent,
            size,
            proto: Proto::Tcp,
            src_port: 0,
            dst_port: 0,
        }
    }
}

} // verus!
