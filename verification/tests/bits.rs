use tps6572x::bits::{get_bit, get_field, set_bit, set_field};

#[test]
fn get_field_reads_the_bits_of_the_field() {
    assert_eq!(get_field(0b1011_0110, 0, 1), 0);
    assert_eq!(get_field(0b1011_0110, 1, 2), 0b11);
    assert_eq!(get_field(0b1011_0110, 4, 2), 0b11);
    assert_eq!(get_field(0b1011_0110, 5, 3), 0b101);
    assert_eq!(get_field(0b1011_0110, 0, 6), 0b11_0110);
    assert_eq!(get_field(0b1011_0110, 6, 2), 0b10);
    assert_eq!(get_field(0b1011_0110, 7, 1), 1);
}

#[test]
fn set_field_replaces_the_bits_of_the_field() {
    assert_eq!(set_field(0b0000_0000, 4, 2, 0b10), 0b0010_0000);
    assert_eq!(set_field(0b1111_1111, 4, 2, 0b10), 0b1110_1111);
    assert_eq!(set_field(0b1111_1111, 0, 6, 42), 0b1110_1010);
    assert_eq!(set_field(0b0000_0000, 5, 3, 0b101), 0b1010_0000);
    assert_eq!(set_field(0b1010_0101, 7, 1, 0), 0b0010_0101);
}

#[test]
fn set_field_takes_the_low_bits_of_the_code() {
    assert_eq!(set_field(0b0000_0000, 4, 2, 0b1111_1110), 0b0010_0000);
    assert_eq!(set_field(0b0000_0000, 0, 1, 0b10), 0b0000_0000);
}

#[test]
fn get_bit_reads_one_bit() {
    for index in 0..8u8 {
        assert_eq!(get_bit(1 << index, index), true);
        assert_eq!(get_bit(!(1 << index), index), false);
    }
}

#[test]
fn set_bit_changes_one_bit() {
    for index in 0..8u8 {
        assert_eq!(set_bit(0b0000_0000, index, true), 1 << index);
        assert_eq!(set_bit(0b1111_1111, index, false), !(1 << index));
        assert_eq!(set_bit(0b1010_0101, index, get_bit(0b1010_0101, index)), 0b1010_0101);
    }
}

#[test]
fn a_field_written_is_the_field_read() {
    for byte in [0b0000_0000u8, 0b1111_1111, 0b1010_0101] {
        for (offset, width) in [(0u8, 1u8), (4, 2), (5, 3), (0, 6), (2, 2), (7, 1)] {
            for code in 0..(1u8 << width) {
                let updated = set_field(byte, offset, width, code);
                assert_eq!(get_field(updated, offset, width), code);
                let mask = ((1u8 << width) - 1) << offset;
                assert_eq!(updated & !mask, byte & !mask);
            }
        }
    }
}

#[test]
fn a_field_may_be_the_whole_byte_or_empty() {
    assert_eq!(get_field(0b1010_0101, 0, 8), 0b1010_0101);
    assert_eq!(set_field(0b1010_0101, 0, 8, 0b0011_1100), 0b0011_1100);
    assert_eq!(get_field(0b1111_1111, 3, 0), 0);
    assert_eq!(set_field(0b1010_0101, 3, 0, 0b1111_1111), 0b1010_0101);
}

#[test]
fn bits_beyond_the_byte_read_as_clear_and_are_dropped() {
    assert_eq!(get_field(0b1111_1111, 6, 3), 0b011);
    assert_eq!(get_field(0b1111_1111, 8, 1), 0);
    assert_eq!(get_field(0b1111_1111, 200, 4), 0);
    assert_eq!(set_field(0b0000_0000, 6, 3, 0b111), 0b1100_0000);
    assert_eq!(set_field(0b1010_0101, 8, 2, 0b11), 0b1010_0101);
    assert_eq!(get_bit(0b1111_1111, 8), false);
    assert_eq!(set_bit(0b1010_1010, 9, true), 0b1010_1010);
}
