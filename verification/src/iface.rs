//! IP-address to local network-interface resolution for `udpsrc` / `udpsink`'s
//! `multicast-iface` property and SDP `a=x-nvnmos-iface:`.
//!
//! NMOS carries the receiver's or sender's preferred interface as an IP address, while
//! `multicast-iface` is an interface name. `None` when the address isn't bound locally:
//! callers leave `multicast-iface` unset, or omit `x-nvnmos-iface` in SDP.

use crate::text::{around, same_text};
use vstd::prelude::*;

verus! {

/// An IP address, as the number that its octets make in network order.
#[derive(Debug, Clone, Copy, PartialEq, Eq, Structural)]
pub enum IpAddress {
    V4(u32),
    V6(u128),
}

impl IpAddress {
    /// `224.0.0.0/4`, or `ff00::/8`.
    pub open spec fn multicast(self) -> bool {
        match self {
            IpAddress::V4(a) => 0xe000_0000 <= a <= 0xefff_ffff,
            IpAddress::V6(a) => a >= 0xff00_0000_0000_0000_0000_0000_0000_0000,
        }
    }

    pub fn is_multicast(self) -> (r: bool)
        ensures
            r == self.multicast(),
    {
        match self {
            IpAddress::V4(a) => 0xe000_0000 <= a && a <= 0xefff_ffff,
            IpAddress::V6(a) => a >= 0xff00_0000_0000_0000_0000_0000_0000_0000,
        }
    }
}

/// What one entry of the host's interface list is bound to.
#[derive(Debug, Clone, Copy, PartialEq, Eq)]
pub enum LocalAddress {
    Absent,
    Ip(IpAddress),
    /// A link-layer address, with its hardware address where it has one.
    Link(Option<[u8; 6]>),
    Other,
}

/// One entry of the host's interface list.
#[derive(Debug)]
pub struct InterfaceAddress {
    pub interface_name: String,
    pub address: LocalAddress,
}

/// Local interface identity for SDP `a=x-nvnmos-iface:` (two-token form).
#[derive(Debug)]
pub struct IfaceIdentity {
    pub name: String,
    /// IS-04 `port_id`: lowercase hyphenated MAC (`aa-bb-cc-dd-ee-ff`).
    pub port_id: String,
}

impl IfaceIdentity {
    /// SDP attribute value: `<name> <port-id>`.
    pub fn to_sdp_value(&self) -> (value: String)
        ensures
            value@ == self.name@ + " "@ + self.port_id@,
    {
        around(self.name.as_str(), " ", self.port_id.as_str())
    }
}

pub open spec fn bound_to(entry: InterfaceAddress, target: IpAddress) -> bool {
    entry.address == LocalAddress::Ip(target)
}

/// The name of the first interface that is bound to the address.
pub open spec fn first_bound(addrs: Seq<InterfaceAddress>, target: IpAddress) -> Option<Seq<char>>
    decreases addrs.len(),
{
    if addrs.len() == 0 {
        None
    } else if bound_to(addrs[0], target) {
        Some(addrs[0].interface_name@)
    } else {
        first_bound(addrs.skip(1), target)
    }
}

/// The hardware address of an entry of the named interface: a link-layer address that
/// is not all zeros.
pub open spec fn hardware_address(entry: InterfaceAddress, ifname: Seq<char>) -> Option<Seq<u8>> {
    match entry.address {
        LocalAddress::Link(Some(mac)) => if entry.interface_name@ == ifname && exists|i: int|
            0 <= i < 6 && #[trigger] mac@[i] != 0 {
            Some(mac@)
        } else {
            None
        },
        _ => None,
    }
}

/// The IS-04 port id of the named interface: its first hardware address.
pub open spec fn first_port_id(addrs: Seq<InterfaceAddress>, ifname: Seq<char>) -> Option<Seq<char>>
    decreases addrs.len(),
{
    if addrs.len() == 0 {
        None
    } else {
        match hardware_address(addrs[0], ifname) {
            Some(mac) => Some(mac_text(mac)),
            None => first_port_id(addrs.skip(1), ifname),
        }
    }
}

pub open spec fn hex_char(d: int) -> char {
    if d < 10 {
        (48 + d) as u8 as char
    } else {
        (87 + d) as u8 as char
    }
}

/// Two lowercase hexadecimal digits.
pub open spec fn hex_pair(b: u8) -> Seq<char> {
    seq![hex_char(b as int / 16), hex_char(b as int % 16)]
}

/// The octets in lowercase hexadecimal, with hyphens between them.
pub open spec fn mac_text(mac: Seq<u8>) -> Seq<char>
    decreases mac.len(),
{
    if mac.len() == 0 {
        Seq::empty()
    } else if mac.len() == 1 {
        hex_pair(mac[0])
    } else {
        mac_text(mac.drop_last()).push('-') + hex_pair(mac.last())
    }
}

fn hex_digit(d: u8) -> (c: char)
    requires
        d < 16,
    ensures
        c == hex_char(d as int),
{
    if d < 10 {
        (48 + d) as char
    } else {
        (87 + d) as char
    }
}

pub fn format_is04_mac(mac: &[u8; 6]) -> (text: String)
    ensures
        text@ == mac_text(mac@),
{
    let mut text = String::new();
    let mut i: usize = 0;
    assert(mac@.take(0) =~= Seq::empty());
    while i < 6
        invariant
            i <= 6,
            text@ == mac_text(mac@.take(i as int)),
        decreases 6 - i,
    {
        proof {
            assert(mac@.take(i as int + 1).drop_last() =~= mac@.take(i as int));
            assert(mac@.take(i as int + 1).last() == mac@[i as int]);
        }
        if i > 0 {
            text.push('-');
        }
        let b: u8 = mac[i];
        let ghost before = text@;
        text.push(hex_digit(b / 16));
        text.push(hex_digit(b % 16));
        assert(text@ =~= before + hex_pair(b));
        i = i + 1;
    }
    assert(mac@.take(6) =~= mac@);
    text
}

pub fn matches_address(address: LocalAddress, target: IpAddress) -> (r: bool)
    ensures
        r == (address == LocalAddress::Ip(target)),
{
    match address {
        LocalAddress::Ip(a) => a == target,
        _ => false,
    }
}

/// Resolve an IPv4 or IPv6 host address to the local interface name it is bound on,
/// suitable for setting on `udpsrc.multicast-iface` / `udpsink.multicast-iface`.
pub fn iface_name_for_ip<'a>(addrs: &'a [InterfaceAddress], target: IpAddress) -> (r: Option<
    &'a String,
>)
    ensures
        match r {
            Some(name) => first_bound(addrs@, target) == Some(name@),
            None => first_bound(addrs@, target) is None,
        },
{
    let mut i: usize = 0;
    assert(addrs@.skip(0) =~= addrs@);
    while i < addrs.len()
        invariant
            i <= addrs@.len(),
            first_bound(addrs@, target) == first_bound(addrs@.skip(i as int), target),
        decreases addrs@.len() - i,
    {
        assert(addrs@.skip(i as int).skip(1) =~= addrs@.skip(i as int + 1));
        if matches_address(addrs[i].address, target) {
            return Some(&addrs[i].interface_name);
        }
        i = i + 1;
    }
    None
}

fn usable_hardware_address(entry: &InterfaceAddress, ifname: &str) -> (r: Option<[u8; 6]>)
    ensures
        match r {
            Some(mac) => hardware_address(*entry, ifname@) == Some(mac@),
            None => hardware_address(*entry, ifname@) is None,
        },
{
    if !same_text(entry.interface_name.as_str(), ifname) {
        return None;
    }
    match entry.address {
        LocalAddress::Link(Some(mac)) => {
            let mut i: usize = 0;
            while i < 6
                invariant
                    i <= 6,
                    forall|j: int| 0 <= j < i ==> mac@[j] == 0,
                    entry.address == LocalAddress::Link(Some(mac)),
                    entry.interface_name@ == ifname@,
                decreases 6 - i,
            {
                if mac[i] != 0 {
                    assert(mac@[i as int] != 0);
                    return Some(mac);
                }
                i = i + 1;
            }
            None
        },
        _ => None,
    }
}

pub fn port_id_for_interface(addrs: &[InterfaceAddress], ifname: &str) -> (r: Option<String>)
    ensures
        match r {
            Some(id) => first_port_id(addrs@, ifname@) == Some(id@),
            None => first_port_id(addrs@, ifname@) is None,
        },
{
    let mut i: usize = 0;
    assert(addrs@.skip(0) =~= addrs@);
    while i < addrs.len()
        invariant
            i <= addrs@.len(),
            first_port_id(addrs@, ifname@) == first_port_id(addrs@.skip(i as int), ifname@),
        decreases addrs@.len() - i,
    {
        assert(addrs@.skip(i as int).skip(1) =~= addrs@.skip(i as int + 1));
        match usable_hardware_address(&addrs[i], ifname) {
            Some(mac) => {
                return Some(format_is04_mac(&mac));
            },
            None => {},
        }
        i = i + 1;
    }
    None
}

/// Resolve a host address to local interface name and IS-04 MAC `port_id` for
/// `a=x-nvnmos-iface:`.
pub fn iface_identity_for_ip(addrs: &[InterfaceAddress], target: IpAddress) -> (r: Option<
    IfaceIdentity,
>)
    ensures
        match first_bound(addrs@, target) {
            None => r is None,
            Some(name) => match first_port_id(addrs@, name) {
                None => r is None,
                Some(port_id) => r matches Some(id) && id.name@ == name && id.port_id@ == port_id,
            },
        },
{
    match iface_name_for_ip(addrs, target) {
        None => None,
        Some(name) => match port_id_for_interface(addrs, name.as_str()) {
            None => None,
            Some(port_id) => Some(IfaceIdentity { name: name.clone(), port_id }),
        },
    }
}

/// SDP `a=x-nvnmos-iface:` value for a local NIC IP, when resolvable. `ip` is the address
/// that the text stands for, where it stands for one.
pub fn x_nvnmos_iface_value_for_ip(addrs: &[InterfaceAddress], ip: Option<IpAddress>) -> (r: Option<
    String,
>)
    ensures
        match ip {
            None => r is None,
            Some(target) => match first_bound(addrs@, target) {
                None => r is None,
                Some(name) => match first_port_id(addrs@, name) {
                    None => r is None,
                    Some(port_id) => r matches Some(value) && value@ == name + " "@ + port_id,
                },
            },
        },
{
    match ip {
        None => None,
        Some(target) => match iface_identity_for_ip(addrs, target) {
            None => None,
            Some(identity) => Some(identity.to_sdp_value()),
        },
    }
}

proof fn hex_pair_is_injective(a: u8, b: u8)
    requires
        hex_pair(a) == hex_pair(b),
    ensures
        a == b,
{
    assert(hex_pair(a)[0] == hex_pair(b)[0] && hex_pair(a)[1] == hex_pair(b)[1]);
    assert forall|x: int, y: int|
        0 <= x < 16 && 0 <= y < 16 && #[trigger] hex_char(x) == #[trigger] hex_char(
            y,
        ) implies x == y by {}
}

/// A port id identifies its interface: different hardware addresses have different port
/// ids.
pub proof fn port_ids_differ(a: Seq<u8>, b: Seq<u8>)
    requires
        a.len() == b.len(),
        mac_text(a) == mac_text(b),
    ensures
        a == b,
    decreases a.len(),
{
    if a.len() == 0 {
        assert(a =~= b);
    } else if a.len() == 1 {
        hex_pair_is_injective(a[0], b[0]);
        assert(a =~= b);
    } else {
        let x = mac_text(a);
        let y = mac_text(b);
        mac_text_len(a);
        mac_text_len(b);
        mac_text_len(a.drop_last());
        mac_text_len(b.drop_last());
        let n = x.len();
        assert(hex_pair(a.last()) =~= x.skip(n - 2));
        assert(hex_pair(b.last()) =~= y.skip(n - 2));
        hex_pair_is_injective(a.last(), b.last());
        assert(mac_text(a.drop_last()) =~= x.take(n - 3));
        assert(mac_text(b.drop_last()) =~= y.take(n - 3));
        port_ids_differ(a.drop_last(), b.drop_last());
        assert(a =~= a.drop_last().push(a.last()));
        assert(b =~= b.drop_last().push(b.last()));
    }
}

proof fn mac_text_len(mac: Seq<u8>)
    ensures
        mac.len() > 0 ==> mac_text(mac).len() == 3 * mac.len() - 1,
    decreases mac.len(),
{
    if mac.len() > 1 {
        mac_text_len(mac.drop_last());
    }
}

/// The interface of an address is the first in the list that has it; where none has it there is
/// no interface.
pub proof fn bound_interface_is_the_first(addrs: Seq<InterfaceAddress>, target: IpAddress)
    ensures
        match first_bound(addrs, target) {
            Some(name) => exists|i: int|
                0 <= i < addrs.len() && (#[trigger] addrs[i]).address == LocalAddress::Ip(target)
                    && addrs[i].interface_name@ == name && forall|j: int|
                    0 <= j < i ==> (#[trigger] addrs[j]).address != LocalAddress::Ip(target),
            None => forall|j: int|
                0 <= j < addrs.len() ==> (#[trigger] addrs[j]).address != LocalAddress::Ip(target),
        },
    decreases addrs.len(),
{
    if addrs.len() > 0 && addrs[0].address != LocalAddress::Ip(target) {
        let rest = addrs.skip(1);
        bound_interface_is_the_first(rest, target);
        assert forall|j: int| 0 < j < addrs.len() implies #[trigger] addrs[j] == rest[j - 1] by {}
        if let Some(name) = first_bound(rest, target) {
            let i = choose|i: int|
                0 <= i < rest.len() && (#[trigger] rest[i]).address == LocalAddress::Ip(target)
                    && rest[i].interface_name@ == name && forall|j: int|
                    0 <= j < i ==> (#[trigger] rest[j]).address != LocalAddress::Ip(target);
            assert(addrs[i + 1] == rest[i]);
        }
    } else if addrs.len() > 0 {
        assert(addrs[0].interface_name@ == first_bound(addrs, target)->0);
    }
}

/// What a lowercase hexadecimal digit stands for.
pub open spec fn hex_value(c: char) -> int {
    if '0' <= c <= '9' {
        c as int - '0' as int
    } else {
        10 + c as int - 'a' as int
    }
}

/// A port id is read back octet by octet: two lowercase hexadecimal digits for each, the higher
/// first, with a hyphen between octets.
pub proof fn port_id_is_read_back(mac: Seq<u8>, i: int)
    requires
        0 <= i < mac.len(),
    ensures
        mac_text(mac).len() == 3 * mac.len() - 1,
        16 * hex_value(mac_text(mac)[3 * i]) + hex_value(mac_text(mac)[3 * i + 1]) == mac[i],
        '0' <= mac_text(mac)[3 * i] <= '9' || 'a' <= mac_text(mac)[3 * i] <= 'f',
        '0' <= mac_text(mac)[3 * i + 1] <= '9' || 'a' <= mac_text(mac)[3 * i + 1] <= 'f',
        i + 1 < mac.len() ==> mac_text(mac)[3 * i + 2] == '-',
    decreases mac.len(),
{
    mac_text_len(mac);
    if mac.len() == 1 {
        assert(mac_text(mac) =~= hex_pair(mac[0]));
    } else {
        let front = mac.drop_last();
        let n = mac_text(front).len();
        mac_text_len(front);
        assert(mac_text(mac) == mac_text(front).push('-') + hex_pair(mac.last()));
        if i < front.len() {
            port_id_is_read_back(front, i);
            assert(mac_text(mac)[3 * i] == mac_text(front)[3 * i]);
            assert(mac_text(mac)[3 * i + 1] == mac_text(front)[3 * i + 1]);
            if i + 1 < front.len() {
                assert(mac_text(mac)[3 * i + 2] == mac_text(front)[3 * i + 2]);
            } else {
                assert(3 * i + 2 == n);
            }
        } else {
            assert(mac_text(mac)[n as int + 1] == hex_pair(mac.last())[0]);
            assert(mac_text(mac)[n as int + 2] == hex_pair(mac.last())[1]);
        }
    }
}

/// The entry has a hardware address that is not all zeros, and `text` is its port id.
pub open spec fn gives_port_id(entry: InterfaceAddress, text: Seq<char>) -> bool {
    entry.address matches LocalAddress::Link(Some(mac)) && (exists|k: int|
        0 <= k < 6 && #[trigger] mac@[k] != 0) && text == mac_text(mac@)
}

/// The port id of an interface is made of a hardware address that stands under its name in the
/// list and is not all zeros; where there is none there is no port id.
pub proof fn port_id_is_of_the_interface(addrs: Seq<InterfaceAddress>, ifname: Seq<char>)
    ensures
        match first_port_id(addrs, ifname) {
            Some(text) => exists|i: int|
                0 <= i < addrs.len() && (#[trigger] addrs[i]).interface_name@ == ifname
                    && gives_port_id(addrs[i], text),
            None => forall|j: int, text: Seq<char>|
                0 <= j < addrs.len() && (#[trigger] addrs[j]).interface_name@ == ifname
                    ==> !#[trigger] gives_port_id(addrs[j], text),
        },
    decreases addrs.len(),
{
    if addrs.len() > 0 {
        let rest = addrs.skip(1);
        port_id_is_of_the_interface(rest, ifname);
        assert forall|j: int| 0 < j < addrs.len() implies #[trigger] addrs[j] == rest[j - 1] by {}
        if hardware_address(addrs[0], ifname) is None {
            if let Some(text) = first_port_id(rest, ifname) {
                let i = choose|i: int|
                    0 <= i < rest.len() && (#[trigger] rest[i]).interface_name@ == ifname
                        && gives_port_id(rest[i], text);
                assert(addrs[i + 1] == rest[i]);
            }
        } else {
            assert(addrs[0].interface_name@ == ifname);
        }
    }
}

/// Multicast is what the standards say: an IPv4 address whose first octet is 224 to 239, an IPv6
/// address whose first octet is 255.
pub proof fn multicast_is_told_by_the_first_octet(a: u32, b: u128)
    ensures
        IpAddress::V4(a).multicast() <==> 224 <= a / 0x100_0000 <= 239,
        IpAddress::V6(b).multicast() <==> b / 0x100_0000_0000_0000_0000_0000_0000_0000 == 255,
{
}

} // verus!
