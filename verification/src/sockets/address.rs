//! Internet addresses.
use vstd::prelude::*;

verus! {

#[derive(Clone, Copy, Debug, PartialEq, Eq, Structural)]
pub enum IpAddressFamily {
    Ipv4,
    Ipv6,
}

pub type Ipv4Address = (u8, u8, u8, u8);

pub type Ipv6Address = (u16, u16, u16, u16, u16, u16, u16, u16);

#[derive(Clone, Copy, Debug, Eq)]
pub enum IpAddress {
    Ipv4(Ipv4Address),
    Ipv6(Ipv6Address),
}

#[derive(Clone, Copy, Debug, Eq)]
pub struct Ipv4SocketAddress {
    pub port: u16,
    pub address: Ipv4Address,
}

#[derive(Clone, Copy, Debug, Eq)]
pub struct Ipv6SocketAddress {
    pub port: u16,
    pub flow_info: u32,
    pub address: Ipv6Address,
    pub scope_id: u32,
}

#[derive(Clone, Copy, Debug, Eq)]
pub enum IpSocketAddress {
    Ipv4(Ipv4SocketAddress),
    Ipv6(Ipv6SocketAddress),
}

fn same_ipv4(a: Ipv4Address, b: Ipv4Address) -> (r: bool)
    ensures
        r == (a == b),
{
    a.0 == b.0 && a.1 == b.1 && a.2 == b.2 && a.3 == b.3
}

fn same_ipv6(a: Ipv6Address, b: Ipv6Address) -> (r: bool)
    ensures
        r == (a == b),
{
    a.0 == b.0 && a.1 == b.1 && a.2 == b.2 && a.3 == b.3 && a.4 == b.4 && a.5 == b.5 && a.6 == b.6
        && a.7 == b.7
}

impl PartialEq for IpAddress {
    fn eq(&self, other: &IpAddress) -> (r: bool) {
        match (self, other) {
            (IpAddress::Ipv4(l), IpAddress::Ipv4(r)) => same_ipv4(*l, *r),
            (IpAddress::Ipv6(l), IpAddress::Ipv6(r)) => same_ipv6(*l, *r),
            _ => false,
        }
    }
}

impl vstd::std_specs::cmp::PartialEqSpecImpl for IpAddress {
    open spec fn obeys_eq_spec() -> bool {
        true
    }

    open spec fn eq_spec(&self, other: &IpAddress) -> bool {
        *self == *other
    }
}

impl PartialEq for Ipv4SocketAddress {
    fn eq(&self, other: &Ipv4SocketAddress) -> (r: bool) {
        self.port == other.port && same_ipv4(self.address, other.address)
    }
}

impl vstd::std_specs::cmp::PartialEqSpecImpl for Ipv4SocketAddress {
    open spec fn obeys_eq_spec() -> bool {
        true
    }

    open spec fn eq_spec(&self, other: &Ipv4SocketAddress) -> bool {
        *self == *other
    }
}

impl PartialEq for Ipv6SocketAddress {
    fn eq(&self, other: &Ipv6SocketAddress) -> (r: bool) {
        self.port == other.port && self.flow_info == other.flow_info && same_ipv6(
            self.address,
            other.address,
        ) && self.scope_id == other.scope_id
    }
}

impl vstd::std_specs::cmp::PartialEqSpecImpl for Ipv6SocketAddress {
    open spec fn obeys_eq_spec() -> bool {
        true
    }

    open spec fn eq_spec(&self, other: &Ipv6SocketAddress) -> bool {
        *self == *other
    }
}

impl PartialEq for IpSocketAddress {
    fn eq(&self, other: &IpSocketAddress) -> (r: bool) {
        match (self, other) {
            (IpSocketAddress::Ipv4(l), IpSocketAddress::Ipv4(r)) => *l == *r,
            (IpSocketAddress::Ipv6(l), IpSocketAddress::Ipv6(r)) => *l == *r,
            _ => false,
        }
    }
}

impl vstd::std_specs::cmp::PartialEqSpecImpl for IpSocketAddress {
    open spec fn obeys_eq_spec() -> bool {
        true
    }

    open spec fn eq_spec(&self, other: &IpSocketAddress) -> bool {
        *self == *other
    }
}

impl IpAddress {
    #[verifier::allow_in_spec]
    pub fn ipv4_loopback() -> IpAddress
        returns
            IpAddress::Ipv4((127, 0, 0, 1)),
    {
        IpAddress::Ipv4((127, 0, 0, 1))
    }

    #[verifier::allow_in_spec]
    pub fn ipv6_loopback() -> IpAddress
        returns
            IpAddress::Ipv6((0, 0, 0, 0, 0, 0, 0, 1)),
    {
        IpAddress::Ipv6((0, 0, 0, 0, 0, 0, 0, 1))
    }

    #[verifier::allow_in_spec]
    pub fn ipv4_unspecified() -> IpAddress
        returns
            IpAddress::Ipv4((0, 0, 0, 0)),
    {
        IpAddress::Ipv4((0, 0, 0, 0))
    }

    #[verifier::allow_in_spec]
    pub fn ipv6_unspecified() -> IpAddress
        returns
            IpAddress::Ipv6((0, 0, 0, 0, 0, 0, 0, 0)),
    {
        IpAddress::Ipv6((0, 0, 0, 0, 0, 0, 0, 0))
    }

    /// The IPv4 loopback address, written as an IPv6 address.
    #[verifier::allow_in_spec]
    pub fn ipv4_mapped_loopback() -> IpAddress
        returns
            IpAddress::Ipv6((0, 0, 0, 0, 0, 0xFFFF, 0x7F00, 0x0001)),
    {
        IpAddress::Ipv6((0, 0, 0, 0, 0, 0xFFFF, 0x7F00, 0x0001))
    }

    #[verifier::allow_in_spec]
    pub fn new_loopback(family: IpAddressFamily) -> IpAddress
        returns
            match family {
                IpAddressFamily::Ipv4 => IpAddress::ipv4_loopback(),
                IpAddressFamily::Ipv6 => IpAddress::ipv6_loopback(),
            },
    {
        match family {
            IpAddressFamily::Ipv4 => IpAddress::ipv4_loopback(),
            IpAddressFamily::Ipv6 => IpAddress::ipv6_loopback(),
        }
    }

    #[verifier::allow_in_spec]
    pub fn new_unspecified(family: IpAddressFamily) -> IpAddress
        returns
            match family {
                IpAddressFamily::Ipv4 => IpAddress::ipv4_unspecified(),
                IpAddressFamily::Ipv6 => IpAddress::ipv6_unspecified(),
            },
    {
        match family {
            IpAddressFamily::Ipv4 => IpAddress::ipv4_unspecified(),
            IpAddressFamily::Ipv6 => IpAddress::ipv6_unspecified(),
        }
    }

    #[verifier::allow_in_spec]
    pub fn family(&self) -> IpAddressFamily
        returns
            match self {
                IpAddress::Ipv4(_) => IpAddressFamily::Ipv4,
                IpAddress::Ipv6(_) => IpAddressFamily::Ipv6,
            },
    {
        match self {
            IpAddress::Ipv4(_) => IpAddressFamily::Ipv4,
            IpAddress::Ipv6(_) => IpAddressFamily::Ipv6,
        }
    }

    /// The address is the wildcard of its family.
    #[verifier::allow_in_spec]
    pub fn is_unspecified(&self) -> bool
        returns
            *self == IpAddress::new_unspecified(self.family()),
    {
        *self == IpAddress::new_unspecified(self.family())
    }
}

impl IpSocketAddress {
    #[verifier::allow_in_spec]
    pub fn new(ip: IpAddress, port: u16) -> IpSocketAddress
        returns
            match ip {
                IpAddress::Ipv4(address) => IpSocketAddress::Ipv4(
                    Ipv4SocketAddress { port, address },
                ),
                IpAddress::Ipv6(address) => IpSocketAddress::Ipv6(
                    Ipv6SocketAddress { port, address, flow_info: 0, scope_id: 0 },
                ),
            },
    {
        match ip {
            IpAddress::Ipv4(address) => IpSocketAddress::Ipv4(Ipv4SocketAddress { port, address }),
            IpAddress::Ipv6(address) => IpSocketAddress::Ipv6(
                Ipv6SocketAddress { port, address, flow_info: 0, scope_id: 0 },
            ),
        }
    }

    #[verifier::allow_in_spec]
    pub fn ip(&self) -> IpAddress
        returns
            match self {
                IpSocketAddress::Ipv4(addr) => IpAddress::Ipv4(addr.address),
                IpSocketAddress::Ipv6(addr) => IpAddress::Ipv6(addr.address),
            },
    {
        match self {
            IpSocketAddress::Ipv4(addr) => IpAddress::Ipv4(addr.address),
            IpSocketAddress::Ipv6(addr) => IpAddress::Ipv6(addr.address),
        }
    }

    #[verifier::allow_in_spec]
    pub fn port(&self) -> u16
        returns
            match self {
                IpSocketAddress::Ipv4(addr) => addr.port,
                IpSocketAddress::Ipv6(addr) => addr.port,
            },
    {
        match self {
            IpSocketAddress::Ipv4(addr) => addr.port,
            IpSocketAddress::Ipv6(addr) => addr.port,
        }
    }

    #[verifier::allow_in_spec]
    pub fn family(&self) -> IpAddressFamily
        returns
            match self {
                IpSocketAddress::Ipv4(_) => IpAddressFamily::Ipv4,
                IpSocketAddress::Ipv6(_) => IpAddressFamily::Ipv6,
            },
    {
        match self {
            IpSocketAddress::Ipv4(_) => IpAddressFamily::Ipv4,
            IpSocketAddress::Ipv6(_) => IpAddressFamily::Ipv6,
        }
    }
}

/// A socket address gives back the address and the port that it was made of,
/// and is of that address's family.
pub proof fn law_socket_address_keeps_its_parts(ip: IpAddress, port: u16)
    ensures
        IpSocketAddress::new(ip, port).ip() == ip,
        IpSocketAddress::new(ip, port).port() == port,
        IpSocketAddress::new(ip, port).family() == ip.family(),
{
}

/// The loopback and the wildcard address of a family are of that family, and
/// only the latter is unspecified.
pub proof fn law_special_addresses(family: IpAddressFamily)
    ensures
        IpAddress::new_loopback(family).family() == family,
        IpAddress::new_unspecified(family).family() == family,
        IpAddress::new_unspecified(family).is_unspecified(),
        !IpAddress::new_loopback(family).is_unspecified(),
{
}

/// An address is its family's, has the parts that it is written with, and is
/// unspecified exactly where all of them are zero.
pub proof fn law_addresses_are_of_their_family(
    v4: Ipv4Address,
    v6: Ipv6Address,
    port: u16,
    flow_info: u32,
    scope_id: u32,
)
    ensures
        IpAddress::Ipv4(v4).family() is Ipv4,
        IpAddress::Ipv6(v6).family() is Ipv6,
        IpAddress::Ipv4(v4).is_unspecified() <==> v4.0 == 0 && v4.1 == 0 && v4.2 == 0 && v4.3 == 0,
        IpAddress::Ipv6(v6).is_unspecified() <==> v6.0 == 0 && v6.1 == 0 && v6.2 == 0 && v6.3 == 0
            && v6.4 == 0 && v6.5 == 0 && v6.6 == 0 && v6.7 == 0,
        ({
            let a = IpSocketAddress::Ipv4(Ipv4SocketAddress { port, address: v4 });
            let b = IpSocketAddress::Ipv6(
                Ipv6SocketAddress { port, flow_info, address: v6, scope_id },
            );
            &&& a.ip() == IpAddress::Ipv4(v4) && a.port() == port && a.family() is Ipv4
            &&& b.ip() == IpAddress::Ipv6(v6) && b.port() == port && b.family() is Ipv6
            &&& IpSocketAddress::new(IpAddress::Ipv4(v4), port) == a
            &&& flow_info == 0 && scope_id == 0 ==> IpSocketAddress::new(IpAddress::Ipv6(v6), port)
                == b
        }),
        IpAddress::new_loopback(IpAddressFamily::Ipv4) == IpAddress::Ipv4((127, 0, 0, 1)),
        IpAddress::new_loopback(IpAddressFamily::Ipv6) == IpAddress::Ipv6(
            (0, 0, 0, 0, 0, 0, 0, 1),
        ),
        IpAddress::new_unspecified(IpAddressFamily::Ipv4).is_unspecified(),
        IpAddress::new_unspecified(IpAddressFamily::Ipv6).is_unspecified(),
        IpAddress::ipv4_mapped_loopback() == IpAddress::Ipv6(
            (0, 0, 0, 0, 0, 0xFFFF, 0x7F00, 1),
        ),
{
}

/// Addresses are equal exactly where they agree in everything they are made of.
pub proof fn law_equal_addresses_agree_in_all_parts(
    a: IpAddress,
    b: IpAddress,
    same: bool,
    c: IpSocketAddress,
    d: IpSocketAddress,
    socket_same: bool,
    v4: (Ipv4SocketAddress, Ipv4SocketAddress),
    v6: (Ipv6SocketAddress, Ipv6SocketAddress),
    v4_same: bool,
    v6_same: bool,
)
    requires
        call_ensures(IpAddress::eq, (&a, &b), same),
        call_ensures(IpSocketAddress::eq, (&c, &d), socket_same),
        call_ensures(Ipv4SocketAddress::eq, (&v4.0, &v4.1), v4_same),
        call_ensures(Ipv6SocketAddress::eq, (&v6.0, &v6.1), v6_same),
    ensures
        same <==> match (a, b) {
            (IpAddress::Ipv4(x), IpAddress::Ipv4(y)) => x.0 == y.0 && x.1 == y.1 && x.2 == y.2
                && x.3 == y.3,
            (IpAddress::Ipv6(x), IpAddress::Ipv6(y)) => x.0 == y.0 && x.1 == y.1 && x.2 == y.2
                && x.3 == y.3 && x.4 == y.4 && x.5 == y.5 && x.6 == y.6 && x.7 == y.7,
            _ => false,
        },
        socket_same <==> match (c, d) {
            (IpSocketAddress::Ipv4(x), IpSocketAddress::Ipv4(y)) => x.port == y.port && x.address
                == y.address,
            (IpSocketAddress::Ipv6(x), IpSocketAddress::Ipv6(y)) => x.port == y.port && x.address
                == y.address && x.flow_info == y.flow_info && x.scope_id == y.scope_id,
            _ => false,
        },
        v4_same <==> v4.0.port == v4.1.port && v4.0.address == v4.1.address,
        v6_same <==> v6.0.port == v6.1.port && v6.0.address == v6.1.address && v6.0.flow_info
            == v6.1.flow_info && v6.0.scope_id == v6.1.scope_id,
{
}

} // verus!
