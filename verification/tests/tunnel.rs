use socket_registry::tunnel::{parse_utun_name, received_len, InvalidName};

#[test]
fn bare_name_lets_the_system_choose() {
    assert_eq!(parse_utun_name(b"utun"), Ok(0));
}

#[test]
fn numbered_name_asks_for_the_next_unit() {
    assert_eq!(parse_utun_name(b"utun0"), Ok(1));
    assert_eq!(parse_utun_name(b"utun7"), Ok(8));
    assert_eq!(parse_utun_name(b"utun007"), Ok(8));
    assert_eq!(parse_utun_name(b"utun123"), Ok(124));
    assert_eq!(parse_utun_name(b"utun4294967294"), Ok(4294967295));
}

#[test]
fn number_may_carry_a_plus_sign() {
    assert_eq!(parse_utun_name(b"utun+5"), Ok(6));
    assert_eq!(parse_utun_name(b"utun+0"), Ok(1));
    assert_eq!(parse_utun_name(b"utun+1"), Ok(2));
    assert_eq!(parse_utun_name(b"utun+4294967294"), Ok(4294967295));
    assert_eq!(parse_utun_name(b"utun+4294967295"), Err(InvalidName));
}

#[test]
fn other_names_are_refused() {
    assert_eq!(parse_utun_name(b""), Err(InvalidName));
    assert_eq!(parse_utun_name(b"utu"), Err(InvalidName));
    assert_eq!(parse_utun_name(b"tun0"), Err(InvalidName));
    assert_eq!(parse_utun_name(b"Utun0"), Err(InvalidName));
    assert_eq!(parse_utun_name(b"utun-1"), Err(InvalidName));
    assert_eq!(parse_utun_name(b"utun1a"), Err(InvalidName));
    assert_eq!(parse_utun_name(b"utun 1"), Err(InvalidName));
    assert_eq!(parse_utun_name(b"utun+"), Err(InvalidName));
    assert_eq!(parse_utun_name(b"utun++1"), Err(InvalidName));
    assert_eq!(parse_utun_name(b"utun+-1"), Err(InvalidName));
    assert_eq!(parse_utun_name(b"utun1+"), Err(InvalidName));
}

#[test]
fn number_too_large_is_refused() {
    assert_eq!(parse_utun_name(b"utun4294967295"), Err(InvalidName));
    assert_eq!(parse_utun_name(b"utun4294967296"), Err(InvalidName));
    assert_eq!(parse_utun_name(b"utun99999999999999999999"), Err(InvalidName));
}

#[test]
fn frame_lies_behind_the_device_header() {
    assert_eq!(received_len(0), 0);
    assert_eq!(received_len(4), 0);
    assert_eq!(received_len(5), 1);
    assert_eq!(received_len(1504), 1500);
}
