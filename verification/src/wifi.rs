//! Decisions of the WiFi bring-up: when DHCP has given the interface an
//! address.
use vstd::prelude::*;

verus! {

/// An address configured on the network interface.
#[derive(Clone, Copy, Debug)]
pub enum InterfaceAddress {
    /// An IPv4 address, by its four octets.
    Ipv4 { octets: [u8; 4] },
    /// An IPv6 address.
    Ipv6,
}

/// Whether an address counts as assigned: any address but the unspecified
/// IPv4 address `0.0.0.0`.
pub open spec fn is_assigned(a: InterfaceAddress) -> bool {
    match a {
        InterfaceAddress::Ipv4 { octets } => !(octets@ == seq![0u8, 0u8, 0u8, 0u8]),
        InterfaceAddress::Ipv6 => true,
    }
}

/// Every IPv4 address other than `0.0.0.0` counts as assigned, and so does
/// every IPv6 address.
pub proof fn lemma_assigned_addresses(octets: [u8; 4])
    ensures
        is_assigned(InterfaceAddress::Ipv4 { octets }) <==> (octets@[0] != 0 || octets@[1] != 0
            || octets@[2] != 0 || octets@[3] != 0),
        is_assigned(InterfaceAddress::Ipv6),
{
    if octets@[0] == 0 && octets@[1] == 0 && octets@[2] == 0 && octets@[3] == 0 {
        assert(octets@ =~= seq![0u8, 0u8, 0u8, 0u8]);
    }
    if octets@ == seq![0u8, 0u8, 0u8, 0u8] {
        assert(octets@[0] == 0 && octets@[1] == 0 && octets@[2] == 0 && octets@[3] == 0);
    }
}

/// The wait for DHCP ends exactly when some address other than the IPv4
/// address `0.0.0.0` is configured.
pub proof fn lemma_has_ip_means_an_address(addrs: Seq<InterfaceAddress>, i: int)
    requires
        0 <= i < addrs.len(),
    ensures
        (match addrs[i] {
            InterfaceAddress::Ipv4 { octets } => octets@[0] != 0 || octets@[1] != 0 || octets@[2]
                != 0 || octets@[3] != 0,
            InterfaceAddress::Ipv6 => true,
        }) ==> exists|j: int| 0 <= j < addrs.len() && is_assigned(#[trigger] addrs[j]),
{
    match addrs[i] {
        InterfaceAddress::Ipv4 { octets } => lemma_assigned_addresses(octets),
        InterfaceAddress::Ipv6 => {},
    }
}

/// Whether the interface has an IP address, so that waiting for DHCP is over:
/// some configured address is assigned.
pub fn has_ip(addrs: &Vec<InterfaceAddress>) -> (b: bool)
    ensures
        b == exists|i: int| 0 <= i < addrs@.len() && is_assigned(#[trigger] addrs@[i]),
{
    let mut i: usize = 0;
    while i < addrs.len()
        invariant
            i <= addrs@.len(),
            forall|j: int| 0 <= j < i ==> !is_assigned(#[trigger] addrs@[j]),
        decreases addrs@.len() - i,
    {
        let assigned = match addrs[i] {
            InterfaceAddress::Ipv4 { octets } => {
                let zero = octets[0] == 0 && octets[1] == 0 && octets[2] == 0 && octets[3] == 0;
                proof {
                    if zero {
                        assert(octets@ =~= seq![0u8, 0u8, 0u8, 0u8]);
                    }
                    if octets@ == seq![0u8, 0u8, 0u8, 0u8] {
                        assert(octets@[0] == 0u8 && octets@[1] == 0u8 && octets@[2] == 0u8
                            && octets@[3] == 0u8);
                    }
                }
                !zero
            },
            InterfaceAddress::Ipv6 => true,
        };
        if assigned {
            return true;
        }
        i = i + 1;
    }
    false
}

} // verus!
