//! Rules of the link-layer socket operations: the interface-name buffer, the
//! link-layer addresses used to bind and to send, and what each call's
//! result means. The calls themselves are made outside this library, which
//! receives their plain results.

use vstd::prelude::*;
use vstd::string::StringSliceAdditionalSpecFns;

use crate::bytes::{be16, network_order};
use crate::error::{Cause, SocketError};
use crate::protocol::{MacAddr, ETH_P_ALL, ETH_P_ARP, IFNAMSIZ};

verus! {

/// Action of an interface-index query.
pub const GETTING_IFINDEX: &'static str = "getting ifindex";

/// Action of a hardware-address query.
pub const GETTING_IFHWADDR: &'static str = "getting ifhwaddr";

/// Action of opening a link-layer socket.
pub const OPENING_SOCKET: &'static str = "opening socket";

/// Action of binding a socket to an interface.
pub const BINDING_SOCKET: &'static str = "binding socket";

/// Action of sending a frame.
pub const SENDING_FRAME: &'static str = "sending frame";

/// Action of receiving a frame.
pub const RECEIVING_FRAME: &'static str = "receiving frame";

/// A link-layer socket address: the protocol in network byte order and the
/// interface index. The address family is always the packet family.
#[derive(Debug, Clone, Copy, PartialEq, Eq)]
pub struct LinkAddr {
    pub protocol: [u8; 2],
    pub ifindex: i32,
}

/// A resolved network interface: its name, index and hardware address.
/// Resolved afresh before each bind rather than kept across topology
/// changes.
#[derive(Debug, Clone, PartialEq, Eq)]
pub struct InterfaceHandle {
    pub name: String,
    pub index: i32,
    pub hw_addr: MacAddr,
}

/// The result of a socket call: a negative value reports failure, with the
/// error number the call left; any other value is the call's result.
pub fn check_os_result(action: &'static str, res: isize, errno: i32) -> (r: Result<usize, SocketError>)
    ensures
        r is Err <==> res < 0,
        r matches Ok(n) ==> n as int == res,
        r matches Err(e) ==> e == (SocketError { action, cause: Cause::Os(errno) }),
{
    if res < 0 {
        Err(SocketError { action, cause: Cause::Os(errno) })
    } else {
        Ok(res as usize)
    }
}

/// The kernel's name buffer for interface `ifname`: its bytes, then zeros.
/// A name that leaves no room for the terminating zero is refused rather
/// than cut short.
pub fn ifname_buffer(ifname: &str, action: &'static str) -> (r: Result<[u8; IFNAMSIZ], SocketError>)
    ensures
        r is Ok <==> ifname.spec_bytes().len() < IFNAMSIZ,
        r matches Ok(buf) ==> buf@ == ifname.spec_bytes() + Seq::new(
            (IFNAMSIZ - ifname.spec_bytes().len()) as nat,
            |i: int| 0u8,
        ),
        r matches Err(e) ==> e == (SocketError { action, cause: Cause::NameTooLong }),
{
    let name = ifname.as_bytes();
    if name.len() >= IFNAMSIZ {
        return Err(SocketError { action, cause: Cause::NameTooLong });
    }
    let mut buf: [u8; IFNAMSIZ] = [0u8; IFNAMSIZ];
    let mut i: usize = 0;
    while i < name.len()
        invariant
            name@ == ifname.spec_bytes(),
            name@.len() < IFNAMSIZ,
            i <= name@.len(),
            buf@.len() == IFNAMSIZ,
            forall|j: int| 0 <= j < i ==> buf@[j] == name@[j],
            forall|j: int| i <= j < IFNAMSIZ ==> buf@[j] == 0u8,
        decreases name@.len() - i,
    {
        buf[i] = name[i];
        i += 1;
    }
    assert(buf@ =~= ifname.spec_bytes() + Seq::new(
        (IFNAMSIZ - ifname.spec_bytes().len()) as nat,
        |i: int| 0u8,
    ));
    Ok(buf)
}

/// The hardware address held in the data of a link-layer socket address:
/// its first six bytes.
pub fn mac_from_sa_data(sa_data: &[u8; 14]) -> (r: MacAddr)
    ensures
        r@ == sa_data@.subrange(0, 6),
{
    let r = [sa_data[0], sa_data[1], sa_data[2], sa_data[3], sa_data[4], sa_data[5]];
    assert(r@ =~= sa_data@.subrange(0, 6));
    r
}

/// The ethertype filter for opening a socket, in network byte order.
pub fn protocol_filter(ethertype: u16) -> (r: [u8; 2])
    ensures
        r@ == be16(ethertype),
{
    network_order(ethertype)
}

/// The address a socket is bound with: the interface, and every protocol
/// whatever filter the socket was opened with.
pub fn bind_address(ifindex: i32) -> (r: LinkAddr)
    ensures
        r.protocol@ == be16(ETH_P_ALL),
        r.ifindex == ifindex,
{
    LinkAddr { protocol: network_order(ETH_P_ALL), ifindex }
}

/// The address a frame is sent to: ARP on the interface.
pub fn send_address(ifindex: i32) -> (r: LinkAddr)
    ensures
        r.protocol@ == be16(ETH_P_ARP),
        r.ifindex == ifindex,
{
    LinkAddr { protocol: network_order(ETH_P_ARP), ifindex }
}

} // verus!
