use epd_stream::codec::{pack_indices, rgb_to_color_index, unpack_byte, Color};

#[test]
fn to_byte_maps_each_color_to_its_index() {
    assert_eq!(Color::Black.to_byte(), 0x0);
    assert_eq!(Color::White.to_byte(), 0x1);
    assert_eq!(Color::Green.to_byte(), 0x2);
    assert_eq!(Color::Blue.to_byte(), 0x3);
    assert_eq!(Color::Red.to_byte(), 0x4);
    assert_eq!(Color::Yellow.to_byte(), 0x5);
    assert_eq!(Color::Orange.to_byte(), 0x6);
}

#[test]
fn rgb_reference_triples_map_to_their_indices() {
    assert_eq!(rgb_to_color_index(255, 0, 0), 4);
    assert_eq!(rgb_to_color_index(0, 255, 0), 2);
    assert_eq!(rgb_to_color_index(0, 0, 0), 0);
    assert_eq!(rgb_to_color_index(255, 255, 255), 1);
    assert_eq!(rgb_to_color_index(0, 0, 255), 3);
    assert_eq!(rgb_to_color_index(255, 255, 0), 5);
    assert_eq!(rgb_to_color_index(255, 128, 0), 6);
}

#[test]
fn rgb_unrecognized_triples_map_to_white_never_error() {
    assert_eq!(rgb_to_color_index(10, 10, 10), 1);
    assert_eq!(rgb_to_color_index(254, 0, 0), 1);
    assert_eq!(rgb_to_color_index(255, 127, 0), 1);
    assert_eq!(rgb_to_color_index(1, 255, 0), 1);
}

#[test]
fn pack_puts_first_index_in_high_nibble() {
    assert_eq!(pack_indices(4, 2), 0x42);
    assert_eq!(pack_indices(0, 6), 0x06);
    assert_eq!(pack_indices(6, 0), 0x60);
}

#[test]
fn unpack_splits_nibbles_high_first() {
    assert_eq!(unpack_byte(0x42), (4, 2));
    assert_eq!(unpack_byte(0x06), (0, 6));
    assert_eq!(unpack_byte(0xFF), (15, 15));
}

#[test]
fn pack_unpack_round_trips_for_all_palette_index_pairs() {
    for a in 0u8..=6 {
        for b in 0u8..=6 {
            let packed = pack_indices(a, b);
            assert_eq!(packed, (a << 4) | b);
            assert_eq!(unpack_byte(packed), (a, b));
        }
    }
}
