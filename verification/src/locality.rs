//! The locality filter: classifying packet endpoints against the set of
//! addresses that belong to the capturing host.

use vstd::prelude::*;
use crate::record::HostAddr;

verus! {

/// The set of local IP addresses, computed once when capture starts from
/// the host's interface addresses plus the two loopback addresses, and
/// immutable afterwards.
pub struct LocalitySet {
    addrs: Vec<HostAddr>,
}

impl LocalitySet {
    /// Whether `a` counts as local.
    pub closed spec fn spec_contains(&self, a: HostAddr) -> bool {
        self.addrs@.contains(a)
    }

    /// Builds the locality set from the host's interface addresses. The
    /// two loopback addresses are always members, so a host whose
    /// interface enumeration failed still recognizes loopback traffic.
    pub fn from_interface_addrs(interface_addrs: Vec<HostAddr>) -> (s: LocalitySet)
        ensures
            forall|a: HostAddr| s.spec_contains(a) <==> (interface_addrs@.contains(a) || a
                == HostAddr::V4(0x7f00_0001u32) || a == HostAddr::V6(1u128)),
    {
        let mut addrs = interface_addrs;
        addrs.push(HostAddr::V4(0x7f00_0001u32));
        addrs.push(HostAddr::V6(1u128));
        let s = LocalitySet { addrs };
        proof {
            let pre = interface_addrs@;
            assert forall|a: HostAddr| s.spec_contains(a) implies (pre.contains(a) || a
                == HostAddr::V4(0x7f00_0001u32) || a == HostAddr::V6(1u128)) by {
                let i = choose|i: int| 0 <= i < s.addrs@.len() && s.addrs@[i] == a;
                if i < pre.len() {
                    assert(pre[i] == a);
                }
            }
            assert forall|a: HostAddr| (pre.contains(a) || a == HostAddr::V4(0x7f00_0001u32) || a
                == HostAddr::V6(1u128)) implies s.spec_contains(a) by {
                if pre.contains(a) {
                    let i = choose|i: int| 0 <= i < pre.len() && pre[i] == a;
                    assert(s.addrs@[i] == a);
                } else if a == HostAddr::V4(0x7f00_0001u32) {
                    assert(s.addrs@[pre.len() as int] == a);
                } else {
                    assert(s.addrs@[pre.len() as int + 1] == a);
                }
            }
        }
        s
    }

    /// Decides whether `a` is local.
    pub fn contains(&self, a: &HostAddr) -> (r: bool)
        ensures
            r == self.spec_contains(*a),
    {
        let mut i: usize = 0;
        while i < self.addrs.len()
            invariant
                i <= self.addrs@.len(),
                forall|m: int| 0 <= m < i ==> self.addrs@[m] != *a,
            decreases self.addrs@.len() - i,
        {
            if self.addrs[i] == *a {
                return true;
            }
            i = i + 1;
        }
        false
    }

    /// Classifies a packet's endpoints: which ends are local, and whether
    /// the packet is kept. A packet is kept exactly when at least one
    /// endpoint is local.
    pub fn classify(&self, src: &HostAddr, dst: &HostAddr) -> (r: (bool, bool, bool))
        ensures
            r.0 == self.spec_contains(*src),
            r.1 == self.spec_contains(*dst),
            r.2 == (r.0 || r.1),
    {
        let src_local = self.contains(src);
        let dst_local = self.contains(dst);
        (src_local, dst_local, src_local || dst_local)
    }
}

} // verus!
