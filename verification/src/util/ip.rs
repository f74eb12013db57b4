//! Classification of addresses as private, loopback or link-local.

use vstd::prelude::*;

verus! {

/// `Ipv4Addr::is_private || is_loopback || is_link_local`: 10/8, 172.16/12,
/// 192.168/16, 127/8 and 169.254/16.
pub open spec fn ipv4_is_private_spec(o: Seq<u8>) -> bool {
    ||| o[0] == 10
    ||| (o[0] == 172 && 16 <= o[1] <= 31)
    ||| (o[0] == 192 && o[1] == 168)
    ||| o[0] == 127
    ||| (o[0] == 169 && o[1] == 254)
}

/// `Ipv6Addr::is_loopback`: the address `::1`.
pub open spec fn ipv6_is_loopback_spec(s: Seq<u16>) -> bool {
    &&& forall|i: int| 0 <= i < 7 ==> #[trigger] s[i] == 0
    &&& s[7] == 1
}

/// Whether an IPv4 address (its four octets) is private, loopback or link-local.
pub fn is_private_ipv4(octets: [u8; 4]) -> (b: bool)
    ensures
        b == ipv4_is_private_spec(octets@),
{
    let a = octets[0];
    let b = octets[1];
    a == 10 || (a == 172 && 16 <= b && b <= 31) || (a == 192 && b == 168) || a == 127 || (a == 169
        && b == 254)
}

/// Whether an IPv6 address (its eight segments) counts as internal: only `::1` does.
pub fn is_private_ipv6(segments: [u16; 8]) -> (b: bool)
    ensures
        b == ipv6_is_loopback_spec(segments@),
{
    let mut i: usize = 0;
    while i < 7
        invariant
            i <= 7,
            forall|j: int| 0 <= j < i ==> segments@[j] == 0,
        decreases 7 - i,
    {
        if segments[i] != 0 {
            return false;
        }
        i = i + 1;
    }
    segments[7] == 1
}

} // verus!
