//! Protocol constants, gathered in one place so that each value is easy to
//! audit against the device it talks to.

use vstd::prelude::*;

verus! {

/// A hardware (MAC) address.
pub type MacAddr = [u8; 6];

/// `key_type` of a Set Key request.
pub const CM_SET_KEY_TYPE: u8 = 0x01;

/// `my_nonce` of a Set Key request.
///
/// ISO 15118-3 asks for zero here; the target devices are provisioned with
/// this value instead, so it is kept deliberately.
pub const CM_SET_KEY_MY_NONCE: [u8; 4] = [0xaa, 0xaa, 0xaa, 0xaa];

/// `your_nonce` of a Set Key request.
pub const CM_SET_KEY_YOUR_NONCE: [u8; 4] = [0x00, 0x00, 0x00, 0x00];

/// `pid` of a Set Key request.
pub const CM_SET_KEY_PID: u8 = 0x04;

/// `prn` of a Set Key request.
pub const CM_SET_KEY_PRN: [u8; 2] = [0x00, 0x00];

/// `pmn` of a Set Key request.
pub const CM_SET_KEY_PMN: u8 = 0x00;

/// `new_eks` of a Set Key request.
pub const CM_SET_KEY_NEW_EKS: u8 = 0x01;

/// `cco_capability` of a Set Key request.
pub const CM_SET_CCO_CAPAB: u8 = 0x00;

/// Ethertype that matches every protocol.
pub const ETH_P_ALL: u16 = 0x0003;

/// Ethertype of ARP.
pub const ETH_P_ARP: u16 = 0x0806;

/// Size of the kernel's interface-name buffer, terminator included.
pub const IFNAMSIZ: usize = 16;

} // verus!
