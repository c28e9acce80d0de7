use raw_ping::checksum::checksum;
use raw_ping::error::EncodeError;
use raw_ping::ipv4::{Ipv4, IPV4_HEADER_LEN, MAX_PAYLOAD_LEN, PROTOCOL_ICMP, TTL, VERSION_IHL};

#[test]
fn packet_layout() {
    let packet = Ipv4 { source_ip: [10, 0, 0, 5], dest_ip: [1, 1, 1, 1], payload: vec![0xAB; 12] };
    let bytes = packet.as_bytes().unwrap();
    assert_eq!(bytes.len(), 32);
    assert_eq!(bytes[0], 0x45);
    assert_eq!(bytes[1], 0);
    assert_eq!(bytes[2..4], [0, 32]);
    assert_eq!(bytes[4..8], [0, 0, 0, 0]);
    assert_eq!(bytes[8], 64);
    assert_eq!(bytes[9], 1);
    assert_eq!(bytes[12..16], [10, 0, 0, 5]);
    assert_eq!(bytes[16..20], [1, 1, 1, 1]);
    assert_eq!(bytes[20..], [0xAB; 12]);
}

#[test]
fn packet_exact_header() {
    // 0x4500 + 0x0020 + 0x4001 + 0x0A00 + 0x0005 + 0x0101 + 0x0101 = 0x9128,
    // complement 0x6ED7.
    let packet = Ipv4 { source_ip: [10, 0, 0, 5], dest_ip: [1, 1, 1, 1], payload: vec![0xAB; 12] };
    let bytes = packet.as_bytes().unwrap();
    assert_eq!(
        bytes[..20],
        [0x45, 0, 0, 32, 0, 0, 0, 0, 64, 1, 0x6E, 0xD7, 10, 0, 0, 5, 1, 1, 1, 1]
    );
}

#[test]
fn packet_constants() {
    assert_eq!(VERSION_IHL, 0x45);
    assert_eq!(TTL, 64);
    assert_eq!(PROTOCOL_ICMP, 1);
    assert_eq!(IPV4_HEADER_LEN, 20);
    assert_eq!(MAX_PAYLOAD_LEN + IPV4_HEADER_LEN, 65_535);
}

#[test]
fn packet_without_payload() {
    let packet = Ipv4 { source_ip: [0; 4], dest_ip: [0; 4], payload: Vec::new() };
    let bytes = packet.as_bytes().unwrap();
    // 0x4500 + 0x0014 + 0x4001 = 0x8515, complement 0x7AEA.
    assert_eq!(bytes, vec![0x45, 0, 0, 20, 0, 0, 0, 0, 64, 1, 0x7A, 0xEA, 0, 0, 0, 0, 0, 0, 0, 0]);
}

#[test]
fn header_checksum_covers_the_header_only() {
    let quiet = Ipv4 { source_ip: [192, 168, 1, 10], dest_ip: [8, 8, 8, 8], payload: vec![0; 40] };
    let noisy = Ipv4 { source_ip: [192, 168, 1, 10], dest_ip: [8, 8, 8, 8], payload: vec![0xFF; 40] };
    let quiet = quiet.as_bytes().unwrap();
    let noisy = noisy.as_bytes().unwrap();
    assert_eq!(quiet[..20], noisy[..20]);
    assert_eq!(checksum(&quiet[..20]), [0, 0]);

    let mut blank = [0u8; 20];
    blank.copy_from_slice(&quiet[..20]);
    blank[10] = 0;
    blank[11] = 0;
    assert_eq!(quiet[10..12], checksum(&blank));
}

#[test]
fn total_length_is_header_plus_payload() {
    for len in [0usize, 1, 12, 255, 256, 1480, 40_000, 65_514, 65_515] {
        let packet = Ipv4 { source_ip: [1, 2, 3, 4], dest_ip: [5, 6, 7, 8], payload: vec![7; len] };
        let bytes = packet.as_bytes().unwrap();
        assert_eq!(bytes.len(), len + 20);
        let field = usize::from(u16::from_be_bytes([bytes[2], bytes[3]]));
        assert_eq!(field, len + 20);
        assert_eq!(checksum(&bytes[..20]), [0, 0]);
        assert!(bytes[20..].iter().all(|byte| *byte == 7));
    }
}

#[test]
fn largest_payload_fills_the_length_field() {
    let packet = Ipv4 { source_ip: [9; 4], dest_ip: [8; 4], payload: vec![0; 65_515] };
    let bytes = packet.as_bytes().unwrap();
    assert_eq!(bytes.len(), 65_535);
    assert_eq!(bytes[2..4], [0xFF, 0xFF]);
}

#[test]
fn payload_one_byte_too_long_is_refused() {
    let packet = Ipv4 { source_ip: [9; 4], dest_ip: [8; 4], payload: vec![0; 65_516] };
    assert_eq!(packet.as_bytes(), Err(EncodeError::PayloadTooLarge { len: 65_516 }));
}

#[test]
fn payload_that_would_wrap_the_length_field_is_refused() {
    // 20 + 65_536 would read as 20 if the sum were cut to 16 bits.
    let packet = Ipv4 { source_ip: [9; 4], dest_ip: [8; 4], payload: vec![0; 65_536] };
    assert_eq!(packet.as_bytes(), Err(EncodeError::PayloadTooLarge { len: 65_536 }));
    let packet = Ipv4 { source_ip: [9; 4], dest_ip: [8; 4], payload: vec![0; 100_000] };
    assert_eq!(packet.as_bytes(), Err(EncodeError::PayloadTooLarge { len: 100_000 }));
}

#[test]
fn addresses_are_copied_verbatim() {
    let packet =
        Ipv4 { source_ip: [255, 0, 255, 0], dest_ip: [0, 255, 0, 255], payload: vec![1, 2, 3] };
    let bytes = packet.as_bytes().unwrap();
    assert_eq!(bytes[12..16], [255, 0, 255, 0]);
    assert_eq!(bytes[16..20], [0, 255, 0, 255]);
    assert_eq!(bytes[20..], [1, 2, 3]);
}
