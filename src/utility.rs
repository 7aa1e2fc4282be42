use vstd::prelude::*;

verus! {

/// Whether `host` and `source` agree on every bit that `mask` selects: the
/// two addresses lie in the same network.
pub open spec fn same_network(host: Seq<u8>, mask: Seq<u8>, source: Seq<u8>) -> bool {
    forall|i: int| 0 <= i < host.len() ==> #[trigger] (host[i] & mask[i]) == source[i] & mask[i]
}

/// Whether the octets of `host` and `source` agree under `mask`.
fn masked_equal(host: &[u8], mask: &[u8], source: &[u8]) -> (r: bool)
    requires
        host@.len() == mask@.len(),
        host@.len() == source@.len(),
    ensures
        r == same_network(host@, mask@, source@),
{
    let mut i: usize = 0;
    while i < host.len()
        invariant
            i <= host@.len(),
            host@.len() == mask@.len(),
            host@.len() == source@.len(),
            same_network(host@.subrange(0, i as int), mask@, source@),
        decreases host@.len() - i,
    {
        if host[i] & mask[i] != source[i] & mask[i] {
            return false;
        }
        assert(same_network(host@.subrange(0, i + 1), mask@, source@)) by {
            assert forall|j: int| 0 <= j < i + 1 implies #[trigger] (host@.subrange(0, i + 1)[j]
                & mask@[j]) == source@[j] & mask@[j] by {
                if j < i {
                    assert(host@.subrange(0, i as int)[j] == host@[j]);
                }
            }
        }
        i += 1;
    }
    assert(host@.subrange(0, host@.len() as int) =~= host@);
    true
}

/// Whether a message from `source_ip` comes from the network of `host_ip`
/// with subnet mask `host_subnet` (IPv4 octets).
pub fn is_reachable_ipv4(host_ip: &[u8; 4], host_subnet: &[u8; 4], source_ip: &[u8; 4]) -> (r: bool)
    ensures
        r == same_network(host_ip@, host_subnet@, source_ip@),
{
    masked_equal(host_ip, host_subnet, source_ip)
}

/// Whether a message from `source_ip` comes from the network of `host_ip`
/// with subnet mask `host_subnet` (IPv6 octets).
pub fn is_reachable_ipv6(host_ip: &[u8; 16], host_subnet: &[u8; 16], source_ip: &[u8; 16]) -> (r: bool)
    ensures
        r == same_network(host_ip@, host_subnet@, source_ip@),
{
    masked_equal(host_ip, host_subnet, source_ip)
}

} // verus!
