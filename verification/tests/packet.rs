use nrf_esb::{Packet, MAX_PAYLOAD_LEN};

fn packet_with(s1: u8) -> Packet {
    let mut packet = Packet::new();
    packet.as_mut_bytes()[1] = s1;
    packet
}

#[test]
fn a_new_packet_is_empty() {
    for p in [Packet::new(), Packet::default()] {
        assert_eq!(p.len(), 0);
        assert!(p.is_empty());
        assert_eq!(p.pid(), 0);
        assert!(!p.no_ack());
        assert!(p.deref().is_empty());
        assert_eq!(p.as_bytes(), &[0u8; 254]);
    }
}

#[test]
fn a_payload_reads_back() {
    let mut p = Packet::new();
    p.copy_from_slice(&[1, 2, 3, 4]);
    assert_eq!(p.len(), 4);
    assert!(!p.is_empty());
    assert_eq!(p.deref(), &[1, 2, 3, 4]);
    assert_eq!(&p.as_bytes()[..8], &[4, 0, 1, 2, 3, 4, 0, 0]);
}

#[test]
fn the_longest_payload_fits() {
    let src = [0xA5u8; 252];
    assert_eq!(src.len(), MAX_PAYLOAD_LEN as usize);
    let mut p = Packet::new();
    p.copy_from_slice(&src);
    assert_eq!(p.len(), 252);
    assert_eq!(p.deref(), &src[..]);
}

#[test]
fn a_shorter_payload_leaves_what_lies_behind_it() {
    let mut p = Packet::new();
    p.copy_from_slice(&[1, 2, 3, 4]);
    p.copy_from_slice(&[9]);
    assert_eq!(p.deref(), &[9]);
    assert_eq!(&p.as_bytes()[..7], &[1, 0, 9, 2, 3, 4, 0]);
    p.copy_from_slice(&[]);
    assert!(p.is_empty());
}

#[test]
fn a_length_taken_away_can_be_given_back() {
    let mut p = Packet::new();
    p.copy_from_slice(&[1, 2, 3, 4]);
    p.set_len(2);
    assert_eq!(p.deref(), &[1, 2]);
    p.set_len(4);
    assert_eq!(p.deref(), &[1, 2, 3, 4]);
    p.set_len(6);
    assert_eq!(p.deref(), &[1, 2, 3, 4, 0, 0]);
    p.set_len(252);
    assert_eq!(p.deref().len(), 252);
}

#[test]
fn a_payload_is_written_in_place() {
    let mut p = Packet::new();
    p.copy_from_slice(&[1, 2, 3]);
    p.deref_mut()[1] = 7;
    assert_eq!(p.deref(), &[1, 7, 3]);
    assert_eq!(p.deref_mut().len(), 3);
}

#[test]
fn the_s1_field_holds_identifier_and_flag() {
    for s1 in 0..=255u8 {
        let p = packet_with(s1);
        assert_eq!(p.pid(), (s1 / 2) % 4);
        assert_eq!(p.no_ack(), s1 % 2 == 1);
    }
}

#[test]
fn the_payload_does_not_touch_the_s1_field() {
    let mut p = packet_with(0b101);
    p.copy_from_slice(&[1, 2, 3]);
    p.set_len(1);
    assert_eq!(p.pid(), 2);
    assert!(p.no_ack());
}

#[test]
fn the_radio_writes_to_the_memory_of_a_packet() {
    let mut p = Packet::new();
    p.as_mut_bytes()[..4].copy_from_slice(&[2, 0b110, 8, 9]);
    assert_eq!(p.deref(), &[8, 9]);
    assert_eq!(p.pid(), 3);
    assert!(!p.no_ack());
}
