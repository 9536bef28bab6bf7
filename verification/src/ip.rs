//! What the tunnel reads of the IP packets that it carries.

use vstd::prelude::*;

use crate::bytes::{array_at, be_int, read_u16_be};
use crate::tunn::Tunn;

verus! {

broadcast use vstd::slice::axiom_spec_len;

pub const IPV4_MIN_HEADER_SIZE: usize = 20;

pub const IPV4_LEN_OFF: usize = 2;

pub const IPV4_SRC_IP_OFF: usize = 12;

pub const IPV4_DST_IP_OFF: usize = 16;

pub const IPV4_IP_SZ: usize = 4;

pub const IPV6_MIN_HEADER_SIZE: usize = 40;

pub const IPV6_LEN_OFF: usize = 4;

pub const IPV6_SRC_IP_OFF: usize = 8;

pub const IPV6_DST_IP_OFF: usize = 24;

pub const IPV6_IP_SZ: usize = 16;

pub const IP_LEN_SZ: usize = 2;

/// An IP address, by its bytes in network order.
#[derive(Debug, Copy, Clone, PartialEq, Eq)]
pub enum IpAddr {
    V4([u8; IPV4_IP_SZ]),
    V6([u8; IPV6_IP_SZ]),
}

/// What an [`IpAddr`] holds.
pub ghost enum IpAddrView {
    V4(Seq<u8>),
    V6(Seq<u8>),
}

impl View for IpAddr {
    type V = IpAddrView;

    open spec fn view(&self) -> IpAddrView {
        match *self {
            IpAddr::V4(bytes) => IpAddrView::V4(bytes@),
            IpAddr::V6(bytes) => IpAddrView::V6(bytes@),
        }
    }
}

/// The version number in the first four bits of a packet.
pub open spec fn ip_version(packet: Seq<u8>) -> int {
    packet[0] as int / 16
}

/// Whether `packet` is as long as the fixed part of an IPv4 header and names that version.
pub open spec fn has_ipv4_header(packet: Seq<u8>) -> bool {
    packet.len() >= IPV4_MIN_HEADER_SIZE && ip_version(packet) == 4
}

/// Whether `packet` is as long as the fixed part of an IPv6 header and names that version.
pub open spec fn has_ipv6_header(packet: Seq<u8>) -> bool {
    packet.len() >= IPV6_MIN_HEADER_SIZE && ip_version(packet) == 6
}

/// The address that `packet` is sent to.
pub open spec fn destination_of(packet: Seq<u8>) -> Option<IpAddrView> {
    if has_ipv4_header(packet) {
        Some(IpAddrView::V4(packet.subrange(IPV4_DST_IP_OFF as int, IPV4_DST_IP_OFF + IPV4_IP_SZ)))
    } else if has_ipv6_header(packet) {
        Some(IpAddrView::V6(packet.subrange(IPV6_DST_IP_OFF as int, IPV6_DST_IP_OFF + IPV6_IP_SZ)))
    } else {
        None
    }
}

/// The address that `packet` comes from.
pub open spec fn source_of(packet: Seq<u8>) -> Option<IpAddrView> {
    if has_ipv4_header(packet) {
        Some(IpAddrView::V4(packet.subrange(IPV4_SRC_IP_OFF as int, IPV4_SRC_IP_OFF + IPV4_IP_SZ)))
    } else if has_ipv6_header(packet) {
        Some(IpAddrView::V6(packet.subrange(IPV6_SRC_IP_OFF as int, IPV6_SRC_IP_OFF + IPV6_IP_SZ)))
    } else {
        None
    }
}

/// The length that the header of `packet` gives for the whole packet: IPv4 writes that length,
/// IPv6 writes the length of what follows the fixed header.
pub open spec fn stated_length(packet: Seq<u8>) -> int {
    if has_ipv4_header(packet) {
        be_int(packet.subrange(IPV4_LEN_OFF as int, IPV4_LEN_OFF + IP_LEN_SZ))
    } else {
        be_int(packet.subrange(IPV6_LEN_OFF as int, IPV6_LEN_OFF + IP_LEN_SZ)) + IPV6_MIN_HEADER_SIZE
    }
}

/// Whether `packet` is an IP packet that is at least as long as its header says.
pub open spec fn is_ip_packet(packet: Seq<u8>) -> bool {
    (has_ipv4_header(packet) || has_ipv6_header(packet)) && stated_length(packet) <= packet.len()
}

/// The version number in the first four bits of a packet.
fn version(packet: &[u8]) -> (v: u8)
    requires
        packet@.len() > 0,
    ensures
        v == ip_version(packet@),
{
    let first: u8 = packet[0];
    assert(first >> 4 == first / 16) by (bit_vector);
    first >> 4
}

/// The source address and the stated length of an IP packet; `None` where `packet` is no IP
/// packet, or is shorter than its header says.
pub fn source_and_length(packet: &[u8]) -> (header: Option<(IpAddr, usize)>)
    ensures
        match header {
            Some((source, length)) => {
                &&& is_ip_packet(packet@)
                &&& Some(source@) == source_of(packet@)
                &&& length == stated_length(packet@)
            },
            None => !is_ip_packet(packet@),
        },
{
    let (source, length): (IpAddr, usize) = if packet.len() >= IPV4_MIN_HEADER_SIZE && version(packet)
        == 4 {
        (
            IpAddr::V4(*array_at::<IPV4_IP_SZ>(packet, IPV4_SRC_IP_OFF)),
            read_u16_be(packet, IPV4_LEN_OFF) as usize,
        )
    } else if packet.len() >= IPV6_MIN_HEADER_SIZE && version(packet) == 6 {
        (
            IpAddr::V6(*array_at::<IPV6_IP_SZ>(packet, IPV6_SRC_IP_OFF)),
            read_u16_be(packet, IPV6_LEN_OFF) as usize + IPV6_MIN_HEADER_SIZE,
        )
    } else {
        return None;
    };
    if length > packet.len() {
        None
    } else {
        Some((source, length))
    }
}

impl Tunn {
    /// The address that an IP packet is sent to; `None` where `packet` has no IPv4 or IPv6 header.
    pub fn dst_address(packet: &[u8]) -> (address: Option<IpAddr>)
        ensures
            match address {
                Some(a) => destination_of(packet@) == Some(a@),
                None => destination_of(packet@) is None,
            },
    {
        if packet.len() >= IPV4_MIN_HEADER_SIZE && version(packet) == 4 {
            Some(IpAddr::V4(*array_at::<IPV4_IP_SZ>(packet, IPV4_DST_IP_OFF)))
        } else if packet.len() >= IPV6_MIN_HEADER_SIZE && version(packet) == 6 {
            Some(IpAddr::V6(*array_at::<IPV6_IP_SZ>(packet, IPV6_DST_IP_OFF)))
        } else {
            None
        }
    }
}

} // verus!
