use raw_ping::ethernet::{Ethernet, ETHERNET_HEADER_LEN, ETHERTYPE_IPV4};

#[test]
fn frame_layout() {
    let frame = Ethernet {
        dest_mac: [0xAA, 0xBB, 0xCC, 0xDD, 0xEE, 0xFF],
        source_mac: [0x01, 0x02, 0x03, 0x04, 0x05, 0x06],
        payload: vec![0x45, 0x00, 0x00, 0x14],
    };
    assert_eq!(
        frame.as_bytes(),
        vec![
            0xAA, 0xBB, 0xCC, 0xDD, 0xEE, 0xFF, 0x01, 0x02, 0x03, 0x04, 0x05, 0x06, 0x08, 0x00,
            0x45, 0x00, 0x00, 0x14
        ]
    );
}

#[test]
fn frame_starts_with_destination_then_source_then_ethertype() {
    for len in [0usize, 1, 46, 1500, 9000, 70_000] {
        let frame = Ethernet { dest_mac: [1; 6], source_mac: [2; 6], payload: vec![3; len] };
        let bytes = frame.as_bytes();
        assert_eq!(bytes.len(), len + 14);
        assert_eq!(bytes[..6], [1; 6]);
        assert_eq!(bytes[6..12], [2; 6]);
        assert_eq!(bytes[12..14], [0x08, 0x00]);
        assert!(bytes[14..].iter().all(|byte| *byte == 3));
    }
}

#[test]
fn frame_without_payload_is_the_header() {
    let frame = Ethernet { dest_mac: [0xFF; 6], source_mac: [0; 6], payload: Vec::new() };
    assert_eq!(
        frame.as_bytes(),
        vec![0xFF, 0xFF, 0xFF, 0xFF, 0xFF, 0xFF, 0, 0, 0, 0, 0, 0, 8, 0]
    );
}

#[test]
fn frame_constants() {
    assert_eq!(ETHERTYPE_IPV4, 0x0800);
    assert_eq!(ETHERNET_HEADER_LEN, 14);
}
