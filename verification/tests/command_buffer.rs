use rustation::gpu::bits::{extract, high_half_signed, low_half_signed, test_bit, to_bit};
use rustation::gpu::command_buffer::{CommandBuffer, CAPACITY};

#[test]
fn new_buffer_is_empty() {
    let buffer = CommandBuffer::new();
    assert_eq!(buffer.len(), 0);
}

#[test]
fn capacity_is_twelve_words() {
    assert_eq!(CAPACITY, 12);
}

#[test]
fn buffer_holds_twelve_words_in_order() {
    let mut buffer = CommandBuffer::new();
    for i in 0..12u32 {
        assert_eq!(buffer.len(), i as usize);
        buffer.push_word(0x1000 + i);
    }
    // The buffer is full: there is room for no thirteenth word.
    assert_eq!(buffer.len(), CAPACITY);
    for i in 0..12usize {
        assert_eq!(*buffer.index(i), 0x1000 + i as u32);
    }
}

#[test]
fn only_the_words_below_the_length_are_held() {
    let mut buffer = CommandBuffer::new();
    buffer.push_word(7);
    buffer.push_word(8);
    // Words 0 and 1 are held; the length is the first index that is not.
    assert_eq!(buffer.len(), 2);
    assert_eq!(*buffer.index(0), 7);
    assert_eq!(*buffer.index(1), 8);
}

#[test]
fn clear_forgets_the_words() {
    let mut buffer = CommandBuffer::new();
    for i in 0..12u32 {
        buffer.push_word(i);
    }
    buffer.clear();
    assert_eq!(buffer.len(), 0);
    buffer.push_word(0xdead_beef);
    assert_eq!(buffer.len(), 1);
    assert_eq!(*buffer.index(0), 0xdead_beef);
    buffer.clear();
    buffer.clear();
    assert_eq!(buffer.len(), 0);
}

#[test]
fn fields_are_read_from_their_bits() {
    assert_eq!(extract(0xdead_beef, 0, 8), 0xef);
    assert_eq!(extract(0xdead_beef, 8, 8), 0xbe);
    assert_eq!(extract(0xdead_beef, 24, 8), 0xde);
    assert_eq!(extract(0xdead_beef, 31, 1), 1);
    assert_eq!(extract(0xdead_beef, 4, 12), 0xbee);
    assert_eq!(extract(0xdead_beef, 1, 31), 0x6f56_df77);
    assert_eq!(extract(0xdead_beef, 0, 32), 0xdead_beef);
    assert_eq!(extract(0xffff_ffff, 0, 1), 1);
    assert_eq!(extract(0xffff_ffff, 0, 31), 0x7fff_ffff);
    assert_eq!(extract(0xffff_ffff, 31, 1), 1);
    assert_eq!(extract(0, 0, 32), 0);
    for low in 0..32u32 {
        for width in 1..=(32 - low) {
            let expected = ((0xdead_beefu64 >> low) % (1u64 << width)) as u32;
            assert_eq!(extract(0xdead_beef, low, width), expected);
        }
    }
    assert!(test_bit(0x8000_0000, 31));
    assert!(!test_bit(0x7fff_ffff, 31));
    assert!(test_bit(1, 0));
    assert!(!test_bit(2, 0));
    assert_eq!(to_bit(true), 1);
    assert_eq!(to_bit(false), 0);
}

#[test]
fn halves_are_read_as_signed_numbers() {
    assert_eq!(low_half_signed(0x1234_7fff), 0x7fff);
    assert_eq!(low_half_signed(0x1234_8000), -0x8000);
    assert_eq!(low_half_signed(0x1234_ffff), -1);
    assert_eq!(low_half_signed(0xffff_0000), 0);
    assert_eq!(high_half_signed(0x7fff_1234), 0x7fff);
    assert_eq!(high_half_signed(0x8000_1234), -0x8000);
    assert_eq!(high_half_signed(0xffff_1234), -1);
    assert_eq!(high_half_signed(0x0000_ffff), 0);
}
