use rawframe::set_key::SET_KEY_LEN;
use rawframe::{DecodeError, SetKeyReq};

const NID: [u8; 7] = [0x33, 0xaa, 0xaa, 0x11, 0xdd, 0xbb, 0x00];

fn sample_key() -> [u8; 16] {
    let mut k = [0u8; 16];
    for (i, b) in k.iter_mut().enumerate() {
        *b = (i as u8) * 7 + 1;
    }
    k
}

#[test]
fn new_fills_protocol_constants() {
    let m = SetKeyReq::new(NID, sample_key());
    assert_eq!(m.key_type, 0x01);
    assert_eq!(m.my_nonce, [0xaa, 0xaa, 0xaa, 0xaa]);
    assert_eq!(m.your_nonce, [0x00; 4]);
    assert_eq!(m.pid, 0x04);
    assert_eq!(m.prn, [0x00, 0x00]);
    assert_eq!(m.pmn, 0x00);
    assert_eq!(m.cco_cap, 0x00);
    assert_eq!(m.new_eks, 0x01);
    assert_eq!(m.nid, NID);
    assert_eq!(m.new_key, sample_key());
}

#[test]
fn encoding_is_38_bytes() {
    assert_eq!(SetKeyReq::new(NID, [0; 16]).to_bytes().len(), 38);
    assert_eq!(SetKeyReq::new([0xff; 7], [0xff; 16]).to_bytes().len(), 38);
    assert_eq!(SET_KEY_LEN, 38);
}

#[test]
fn encoding_places_fields_at_their_offsets() {
    let bytes = SetKeyReq::new(NID, [0x00; 16]).to_bytes();
    assert_eq!(&bytes[14..21], &[0x33, 0xaa, 0xaa, 0x11, 0xdd, 0xbb, 0x00]);
    assert_eq!(&bytes[22..38], &[0x00; 16]);
    let expected: Vec<u8> = vec![
        0x01, 0xaa, 0xaa, 0xaa, 0xaa, 0x00, 0x00, 0x00, 0x00, 0x04, 0x00, 0x00, 0x00, 0x00,
        0x33, 0xaa, 0xaa, 0x11, 0xdd, 0xbb, 0x00, 0x01, 0x00, 0x00, 0x00, 0x00, 0x00, 0x00,
        0x00, 0x00, 0x00, 0x00, 0x00, 0x00, 0x00, 0x00, 0x00, 0x00,
    ];
    assert_eq!(bytes, expected);
}

#[test]
fn encoding_matches_bincode_layout() {
    let m = SetKeyReq::new(NID, sample_key());
    let reference = bincode::serialize(&(
        m.key_type,
        m.my_nonce,
        m.your_nonce,
        m.pid,
        m.prn,
        m.pmn,
        m.cco_cap,
        m.nid,
        m.new_eks,
        m.new_key,
    ))
    .unwrap();
    assert_eq!(m.to_bytes(), reference);
}

#[test]
fn set_key_round_trip() {
    let m = SetKeyReq::new(NID, sample_key());
    assert_eq!(SetKeyReq::from_bytes(&m.to_bytes()), Ok(m));
    let mut odd = SetKeyReq::new([1, 2, 3, 4, 5, 6, 7], [0xee; 16]);
    odd.my_nonce = [1, 2, 3, 4];
    odd.prn = [0xbe, 0xef];
    assert_eq!(SetKeyReq::from_bytes(&odd.to_bytes()), Ok(odd));
}

#[test]
fn decode_ignores_trailing_bytes() {
    let m = SetKeyReq::new(NID, sample_key());
    let mut bytes = m.to_bytes();
    bytes.extend_from_slice(&[0x55; 6]);
    assert_eq!(SetKeyReq::from_bytes(&bytes), Ok(m));
}

#[test]
fn decode_short_input_fails() {
    let bytes = SetKeyReq::new(NID, sample_key()).to_bytes();
    assert_eq!(
        SetKeyReq::from_bytes(&bytes[..37]),
        Err(DecodeError { needed: 38, available: 37 })
    );
    assert_eq!(
        SetKeyReq::from_bytes(&[]),
        Err(DecodeError { needed: 38, available: 0 })
    );
}
