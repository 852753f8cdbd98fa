//! The Set Key management message: a fixed 38-byte record.

use vstd::prelude::*;

use crate::bytes::{push_all, read16, read2, read4, read7};
use crate::error::DecodeError;
use crate::protocol::{
    CM_SET_CCO_CAPAB, CM_SET_KEY_MY_NONCE, CM_SET_KEY_NEW_EKS, CM_SET_KEY_PID, CM_SET_KEY_PMN,
    CM_SET_KEY_PRN, CM_SET_KEY_TYPE, CM_SET_KEY_YOUR_NONCE,
};

verus! {

/// Encoded length of a Set Key request.
pub const SET_KEY_LEN: usize = 38;

/// A Set Key request. Only `nid` and `new_key` vary; the constructor fills
/// the other fields with the protocol's constants.
#[derive(Debug, Clone, Copy, PartialEq, Eq)]
pub struct SetKeyReq {
    pub key_type: u8,
    pub my_nonce: [u8; 4],
    pub your_nonce: [u8; 4],
    pub pid: u8,
    pub prn: [u8; 2],
    pub pmn: u8,
    pub cco_cap: u8,
    pub nid: [u8; 7],
    pub new_eks: u8,
    pub new_key: [u8; 16],
}

impl SetKeyReq {
    /// The wire bytes: every field in declared order, arrays byte for byte.
    pub open spec fn spec_bytes(&self) -> Seq<u8> {
        seq![self.key_type] + self.my_nonce@ + self.your_nonce@ + seq![self.pid] + self.prn@
            + seq![self.pmn] + seq![self.cco_cap] + self.nid@ + seq![self.new_eks]
            + self.new_key@
    }

    /// A request for network `nid` that installs `new_key`.
    pub fn new(nid: [u8; 7], new_key: [u8; 16]) -> (r: Self)
        ensures
            r.key_type == CM_SET_KEY_TYPE,
            r.my_nonce == CM_SET_KEY_MY_NONCE,
            r.your_nonce == CM_SET_KEY_YOUR_NONCE,
            r.pid == CM_SET_KEY_PID,
            r.prn == CM_SET_KEY_PRN,
            r.pmn == CM_SET_KEY_PMN,
            r.cco_cap == CM_SET_CCO_CAPAB,
            r.nid == nid,
            r.new_eks == CM_SET_KEY_NEW_EKS,
            r.new_key == new_key,
    {
        SetKeyReq {
            key_type: CM_SET_KEY_TYPE,
            my_nonce: CM_SET_KEY_MY_NONCE,
            your_nonce: CM_SET_KEY_YOUR_NONCE,
            pid: CM_SET_KEY_PID,
            prn: CM_SET_KEY_PRN,
            pmn: CM_SET_KEY_PMN,
            cco_cap: CM_SET_CCO_CAPAB,
            nid,
            new_eks: CM_SET_KEY_NEW_EKS,
            new_key,
        }
    }

    /// Encodes the request into its 38 wire bytes.
    pub fn to_bytes(&self) -> (r: Vec<u8>)
        ensures
            r@ == self.spec_bytes(),
            r@.len() == SET_KEY_LEN,
    {
        let mut out: Vec<u8> = Vec::new();
        out.push(self.key_type);
        push_all(&mut out, self.my_nonce.as_slice());
        push_all(&mut out, self.your_nonce.as_slice());
        out.push(self.pid);
        push_all(&mut out, self.prn.as_slice());
        out.push(self.pmn);
        out.push(self.cco_cap);
        push_all(&mut out, self.nid.as_slice());
        out.push(self.new_eks);
        push_all(&mut out, self.new_key.as_slice());
        assert(out@ =~= self.spec_bytes());
        out
    }

    /// Decodes a request from the first 38 bytes of `bytes`; bytes after
    /// them are ignored.
    pub fn from_bytes(bytes: &[u8]) -> (r: Result<SetKeyReq, DecodeError>)
        ensures
            r is Ok <==> bytes@.len() >= SET_KEY_LEN,
            r matches Ok(m) ==> m.spec_bytes() == bytes@.subrange(0, SET_KEY_LEN as int),
            r matches Err(e) ==> e == (DecodeError { needed: SET_KEY_LEN, available: bytes@.len() as usize }),
    {
        if bytes.len() < SET_KEY_LEN {
            return Err(DecodeError { needed: SET_KEY_LEN, available: bytes.len() });
        }
        let m = SetKeyReq {
            key_type: bytes[0],
            my_nonce: read4(bytes, 1),
            your_nonce: read4(bytes, 5),
            pid: bytes[9],
            prn: read2(bytes, 10),
            pmn: bytes[12],
            cco_cap: bytes[13],
            nid: read7(bytes, 14),
            new_eks: bytes[21],
            new_key: read16(bytes, 22),
        };
        assert(m.spec_bytes() =~= bytes@.subrange(0, SET_KEY_LEN as int));
        Ok(m)
    }
}


/// Encoding then decoding a request gives the request back: a request whose
/// wire bytes are the first 38 bytes of `m`'s encoding (what `from_bytes`
/// promises of its result on that input) is `m` itself.
pub proof fn lemma_set_key_round_trip(m: SetKeyReq, d: SetKeyReq)
    requires
        d.spec_bytes() == m.spec_bytes().subrange(0, SET_KEY_LEN as int),
    ensures
        d == m,
{
    let b = m.spec_bytes();
    assert(b.subrange(0, SET_KEY_LEN as int) =~= b);
    assert(d.my_nonce@ =~= d.spec_bytes().subrange(1, 5));
    assert(m.my_nonce@ =~= b.subrange(1, 5));
    assert(d.your_nonce@ =~= d.spec_bytes().subrange(5, 9));
    assert(m.your_nonce@ =~= b.subrange(5, 9));
    assert(d.prn@ =~= d.spec_bytes().subrange(10, 12));
    assert(m.prn@ =~= b.subrange(10, 12));
    assert(d.nid@ =~= d.spec_bytes().subrange(14, 21));
    assert(m.nid@ =~= b.subrange(14, 21));
    assert(d.new_key@ =~= d.spec_bytes().subrange(22, 38));
    assert(m.new_key@ =~= b.subrange(22, 38));
    assert(d.key_type == b[0]);
    assert(d.pid == b[9]);
    assert(d.pmn == b[12]);
    assert(d.cco_cap == b[13]);
    assert(d.new_eks == b[21]);
    assert(d.my_nonce =~= m.my_nonce);
    assert(d.your_nonce =~= m.your_nonce);
    assert(d.prn =~= m.prn);
    assert(d.nid =~= m.nid);
    assert(d.new_key =~= m.new_key);
}

} // verus!
