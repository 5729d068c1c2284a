use netstatus::error::NetworkError;
use netstatus::facade::{decode_addresses, decode_ssid};
use netstatus::ipv4::{swap_bytes, Ipv4Address};

#[test]
fn swap_bytes_reverses_byte_order() {
    assert_eq!(swap_bytes(0x0A01A8C0), 0xC0A8010A);
    assert_eq!(swap_bytes(0xC0A8010A), 0x0A01A8C0);
    assert_eq!(swap_bytes(0), 0);
    assert_eq!(swap_bytes(0xFF000000), 0x000000FF);
    assert_eq!(swap_bytes(0x12345678), 0x78563412);
}

#[test]
fn decode_word_triple() {
    // 192.168.1.10 / 24, gateway 192.168.1.1, in swapped-endian wire form.
    let words = vec![swap_bytes(0xC0A8010A), 24, swap_bytes(0xC0A80101)];
    let a = Ipv4Address::from_words(&words).unwrap();
    assert_eq!(a.address, 0xC0A8010A);
    assert_eq!(a.prefix, 24);
    assert_eq!(a.gateway, 0xC0A80101);
}

#[test]
fn short_triple_is_decode_failure() {
    let words = vec![swap_bytes(0xC0A8010A), 24];
    assert!(matches!(
        Ipv4Address::from_words(&words),
        Err(NetworkError::ReplyShape(_))
    ));
    let empty: Vec<u32> = Vec::new();
    assert!(matches!(
        Ipv4Address::from_words(&empty),
        Err(NetworkError::ReplyShape(_))
    ));
}

#[test]
fn encode_decode_round_trip() {
    let a = Ipv4Address {
        address: 0xC0A8010A,
        prefix: 24,
        gateway: 0xC0A80101,
    };
    let words = a.to_words();
    let b = Ipv4Address::from_words(&words).unwrap();
    assert_eq!(a, b);
    assert_eq!(a.to_text(), b.to_text());

    let wire = vec![0x0A01A8C0, 24, 0x0101A8C0];
    let decoded = Ipv4Address::from_words(&wire).unwrap();
    assert_eq!(decoded.to_words(), wire);
}

#[test]
fn address_text_is_dotted_quad_with_prefix() {
    let a = Ipv4Address {
        address: 0xC0A8010A,
        prefix: 24,
        gateway: 0xC0A80101,
    };
    assert_eq!(a.to_text(), "192.168.1.10/24");
    let b = Ipv4Address {
        address: 0x00000000,
        prefix: 0,
        gateway: 0,
    };
    assert_eq!(b.to_text(), "0.0.0.0/0");
    let c = Ipv4Address {
        address: 0xFFFFFFFF,
        prefix: 32,
        gateway: 0,
    };
    assert_eq!(c.to_text(), "255.255.255.255/32");
}

#[test]
fn address_list_decodes_in_order() {
    let replies = vec![
        vec![swap_bytes(0xC0A8010A), 24, swap_bytes(0xC0A80101)],
        vec![swap_bytes(0x0A000001), 8, 0],
    ];
    let v = decode_addresses(&replies).unwrap();
    assert_eq!(v.len(), 2);
    assert_eq!(v[0].to_text(), "192.168.1.10/24");
    assert_eq!(v[1].to_text(), "10.0.0.1/8");
}

#[test]
fn empty_address_list_is_not_a_failure() {
    let replies: Vec<Vec<u32>> = Vec::new();
    let v = decode_addresses(&replies).unwrap();
    assert!(v.is_empty());
}

#[test]
fn short_triple_fails_the_whole_address_reply() {
    let replies = vec![
        vec![swap_bytes(0xC0A8010A), 24, swap_bytes(0xC0A80101)],
        vec![7],
    ];
    assert!(matches!(
        decode_addresses(&replies),
        Err(NetworkError::ReplyShape(_))
    ));
}

#[test]
fn ssid_decodes_as_utf8() {
    let bytes = b"HomeNet".to_vec();
    assert_eq!(decode_ssid(&bytes).unwrap(), "HomeNet");
    let accented = "caf\u{e9}".as_bytes().to_vec();
    assert_eq!(decode_ssid(&accented).unwrap(), "caf\u{e9}");
}

#[test]
fn non_utf8_ssid_is_text_decode_failure() {
    let bytes = vec![0xFF, 0xFE, 0x48];
    assert!(matches!(
        decode_ssid(&bytes),
        Err(NetworkError::TextDecode(_))
    ));
}

#[test]
fn error_messages_name_the_failure() {
    let e = NetworkError::NoPrimaryConnection;
    assert_eq!(e.message(), "No primary connection");
    let t = NetworkError::Transport("state".to_string());
    assert_eq!(t.message(), "transport failure: state");
}
