use ping_fox::addr::Ipv4Address;
use ping_fox::sequence_number::{SequenceAllocator, SequenceNumber};

#[test]
fn sequence_numbers_cycle_through_all_values_skipping_zero() {
    // 65535 values in a row: 1, 2, ..., 65535, then back to 1; never 0.
    let mut current = SequenceNumber::start_value();
    for expected in 1u16..=65535u16 {
        assert_eq!(expected, current.0);
        assert_ne!(0, current.0);
        current = current.next();
    }
    assert_eq!(1, current.0);
}

#[test]
fn sequence_number_start_and_max_values() {
    assert_eq!(1, SequenceNumber::start_value_inner_type());
    assert_eq!(1, SequenceNumber::start_value().0);
    assert_eq!(1, SequenceNumber::start_value2().0);
    assert_eq!(65535, SequenceNumber::max_value());
    assert_eq!(SequenceNumber(1), SequenceNumber(65535).next());
}

#[test]
fn sequence_number_from_conversions() {
    assert_eq!(SequenceNumber(5), SequenceNumber::from(5u16));
    assert_eq!(7u16, u16::from(SequenceNumber(7)));
}

#[test]
fn allocator_counts_destinations_independently() {
    let mut allocator = SequenceAllocator::new();
    let first = Ipv4Address::new(127, 0, 0, 1);
    let second = Ipv4Address::new(10, 0, 0, 1);

    assert_eq!(1, allocator.next(first).0);
    assert_eq!(1, allocator.next(second).0);
    assert_eq!(2, allocator.next(first).0);
    assert_eq!(3, allocator.next(first).0);
    assert_eq!(2, allocator.next(second).0);
}

#[test]
fn allocator_wraps_past_the_largest_value() {
    let mut allocator = SequenceAllocator::new();
    let destination = Ipv4Address::new(192, 168, 0, 1);
    let mut last: u16 = 0;
    for _ in 0..65535u32 {
        last = allocator.next(destination).0;
        assert_ne!(0, last);
    }
    assert_eq!(65535, last);
    assert_eq!(1, allocator.next(destination).0);
}

#[test]
fn ipv4_address_packs_big_endian() {
    assert_eq!(0x7F000001, Ipv4Address::new(127, 0, 0, 1).to_u32());
    assert_eq!(0xC0A80001, Ipv4Address::new(192, 168, 0, 1).to_u32());
}
