//! Frame codecs and link-layer socket rules for provisioning a powerline
//! device's encryption key.
//!
//! The library builds and reads two fixed-layout frames (an Ethernet-framed
//! ARP packet and the "Set Key" management message) and decides, from the
//! plain results of the operating system's socket calls, what each socket
//! operation yields. The calls themselves are made by the program around it.

pub mod arp;
pub mod bytes;
pub mod error;
pub mod link;
pub mod protocol;
pub mod set_key;

pub use arp::{decode_arp_frame, encode_arp_frame, RawArpFrame};
pub use error::{Cause, DecodeError, SocketError};
pub use protocol::MacAddr;
pub use set_key::SetKeyReq;
