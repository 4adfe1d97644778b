use ping_fox::checksum::internet_checksum;
use ping_fox::icmpv4::{decode_echo_reply_sequence, new_icmpv4_package, DecodeError, PAYLOAD_SIZE};
use ping_fox::sequence_number::SequenceNumber;
use pnet_packet::icmp::IcmpPacket;

#[test]
fn encode_decode_recovers_the_sequence_number() {
    let payload = vec![0xABu8; PAYLOAD_SIZE];
    let bytes = new_icmpv4_package(SequenceNumber(300), &payload);
    assert_eq!(PAYLOAD_SIZE + 8, bytes.len());
    assert_eq!(Ok(SequenceNumber(300)), decode_echo_reply_sequence(&bytes));
}

#[test]
fn encode_decode_recovers_edge_sequence_numbers() {
    let payload = vec![7u8; PAYLOAD_SIZE];
    for seqn in [0u16, 1, 255, 256, 65535] {
        let bytes = new_icmpv4_package(SequenceNumber(seqn), &payload);
        assert_eq!(Ok(SequenceNumber(seqn)), decode_echo_reply_sequence(&bytes));
    }
}

#[test]
fn recomputed_checksum_over_wire_bytes_is_zero() {
    let payload = vec![0x5Au8; PAYLOAD_SIZE];
    let bytes = new_icmpv4_package(SequenceNumber(4711), &payload);
    assert_eq!(0, internet_checksum(&bytes));
}

#[test]
fn encoded_packet_fields_are_in_place() {
    let payload = vec![0x11u8; PAYLOAD_SIZE];
    let bytes = new_icmpv4_package(SequenceNumber(0x0102), &payload);
    assert_eq!(8, bytes[0]); // Echo Request type
    assert_eq!(0, bytes[1]); // code
    assert_eq!(0, bytes[4]); // identifier, fixed at 0
    assert_eq!(0, bytes[5]);
    assert_eq!(0x01, bytes[6]); // sequence number, big-endian
    assert_eq!(0x02, bytes[7]);
    assert_eq!(&payload[..], &bytes[8..]);
}

#[test]
fn checksum_of_a_known_packet_is_exact() {
    // Eight bytes: type 8, everything else zero.  The word sum is 0x0800,
    // so the checksum is its complement, 0xF7FF.
    let base = vec![8u8, 0, 0, 0, 0, 0, 0, 0];
    assert_eq!(0xF7FF, internet_checksum(&base));
    // An odd trailing byte is padded with a zero low byte: the sum here is
    // 0x0800 + 0x0100, complemented 0xF6FF.
    let odd = vec![8u8, 0, 0, 0, 0, 0, 0, 0, 1];
    assert_eq!(0xF6FF, internet_checksum(&odd));
    // Carries fold back in end-around: 0xFFFF + 0x0001 folds to 0x0001,
    // complemented 0xFFFE.
    let carry = vec![0xFFu8, 0xFF, 0, 1];
    assert_eq!(0xFFFE, internet_checksum(&carry));
}

#[test]
fn checksum_agrees_with_the_pnet_packet_crate() {
    let payload = vec![0xC3u8; PAYLOAD_SIZE];
    let bytes = new_icmpv4_package(SequenceNumber(9000), &payload);
    // pnet's ICMP checksum skips the checksum field itself, so over a
    // correctly encoded packet it recomputes exactly the embedded value.
    let packet = IcmpPacket::new(&bytes[..]).expect("could not initialize ICMP packet");
    let expected = u16::from_be_bytes([bytes[2], bytes[3]]);
    assert_eq!(expected, pnet_packet::icmp::checksum(&packet));
}

#[test]
fn decoding_a_short_buffer_is_a_decode_error() {
    assert_eq!(Err(DecodeError), decode_echo_reply_sequence(&vec![0u8; 7]));
    assert_eq!(Err(DecodeError), decode_echo_reply_sequence(&Vec::new()));
    assert!(decode_echo_reply_sequence(&vec![0u8; 8]).is_ok());
}
