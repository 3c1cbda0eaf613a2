use wol_agent::packet::magic_packet;

#[test]
fn magic_packet_layout() {
    let mac: [u8; 6] = [0x0F, 0x1E, 0x2D, 0x3C, 0x4B, 0x5A];
    let p = magic_packet(&mac);
    assert_eq!(p.len(), 102);
    for i in 0..6 {
        assert_eq!(p[i], 0xFF);
    }
    for rep in 0..16 {
        for j in 0..6 {
            assert_eq!(p[6 + rep * 6 + j], mac[j]);
        }
    }
}

#[test]
fn magic_packet_matches_sender() {
    // The payload the verified builder produces must be byte for byte
    // the one the sending library broadcasts.
    let mac: [u8; 6] = [0xAA, 0xBB, 0xCC, 0x00, 0x11, 0x22];
    let p = magic_packet(&mac);
    let reference = wake_on_lan::MagicPacket::new(&mac);
    assert_eq!(p.as_slice(), &reference.magic_bytes()[..]);
}

#[test]
fn magic_packet_zero_mac() {
    let mac: [u8; 6] = [0; 6];
    let p = magic_packet(&mac);
    assert_eq!(&p[..6], &[0xFF; 6][..]);
    assert_eq!(&p[6..], &[0u8; 96][..]);
}
