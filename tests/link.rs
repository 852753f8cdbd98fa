use rawframe::link::{
    bind_address, check_os_result, ifname_buffer, mac_from_sa_data, protocol_filter,
    send_address, GETTING_IFHWADDR, GETTING_IFINDEX, SENDING_FRAME,
};
use rawframe::{Cause, SocketError};

#[test]
fn failed_ifindex_query_reports_its_action() {
    let r = check_os_result(GETTING_IFINDEX, -1, 19);
    assert_eq!(
        r,
        Err(SocketError { action: "getting ifindex", cause: Cause::Os(19) })
    );
}

#[test]
fn any_negative_result_is_an_error() {
    assert_eq!(
        check_os_result(SENDING_FRAME, -5, 1),
        Err(SocketError { action: "sending frame", cause: Cause::Os(1) })
    );
}

#[test]
fn non_negative_result_is_passed_on() {
    assert_eq!(check_os_result(SENDING_FRAME, 60, 0), Ok(60));
    assert_eq!(check_os_result(GETTING_IFINDEX, 0, 0), Ok(0));
}

#[test]
fn ifname_buffer_pads_with_zeros() {
    let buf = ifname_buffer("eth0", GETTING_IFINDEX).unwrap();
    let mut expected = [0u8; 16];
    expected[..4].copy_from_slice(b"eth0");
    assert_eq!(buf, expected);
}

#[test]
fn ifname_buffer_takes_fifteen_bytes() {
    let buf = ifname_buffer("abcdefghijklmno", GETTING_IFHWADDR).unwrap();
    assert_eq!(&buf[..15], b"abcdefghijklmno");
    assert_eq!(buf[15], 0);
}

#[test]
fn ifname_buffer_refuses_long_names() {
    assert_eq!(
        ifname_buffer("abcdefghijklmnop", GETTING_IFINDEX),
        Err(SocketError { action: "getting ifindex", cause: Cause::NameTooLong })
    );
    assert_eq!(
        ifname_buffer("a-very-long-interface-name", GETTING_IFHWADDR),
        Err(SocketError { action: "getting ifhwaddr", cause: Cause::NameTooLong })
    );
}

#[test]
fn ifname_buffer_of_empty_name() {
    assert_eq!(ifname_buffer("", GETTING_IFINDEX), Ok([0u8; 16]));
}

#[test]
fn hardware_address_is_leading_six_bytes() {
    let sa_data = [0x02, 0x42, 0xac, 0x18, 0x00, 0x02, 9, 9, 9, 9, 9, 9, 9, 9];
    assert_eq!(mac_from_sa_data(&sa_data), [0x02, 0x42, 0xac, 0x18, 0x00, 0x02]);
}

#[test]
fn bind_uses_every_protocol() {
    let a = bind_address(3);
    assert_eq!(a.protocol, [0x00, 0x03]);
    assert_eq!(a.ifindex, 3);
}

#[test]
fn send_uses_arp() {
    let a = send_address(7);
    assert_eq!(a.protocol, [0x08, 0x06]);
    assert_eq!(a.ifindex, 7);
}

#[test]
fn protocol_filter_is_network_order() {
    assert_eq!(protocol_filter(0x0806), [0x08, 0x06]);
    assert_eq!(protocol_filter(0x0003), [0x00, 0x03]);
    assert_eq!(protocol_filter(0xabcd), [0xab, 0xcd]);
}
