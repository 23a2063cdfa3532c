use vnc::screen::{ScreenError, ScreenMemory, Span, FRAMEBUFFER_POINTER_ADDRESS};
use vnc::touch::ByteOrder;

#[test]
fn the_pointer_lies_at_its_fixed_address() {
    assert_eq!(FRAMEBUFFER_POINTER_ADDRESS, 0x004ac7f8);
}

#[test]
fn a_frame_of_the_device_has_width_by_height_by_depth_bytes() {
    let screen = ScreenMemory::new(ByteOrder::Little, &[0, 0, 0, 0], 1404, 1872, 2).unwrap();
    assert_eq!(screen.len(), 1404 * 1872 * 2);
    assert_eq!(screen.len(), 5_256_576);
}

#[test]
fn a_word_of_four_bytes_is_read_in_the_given_order() {
    let word = [0x10u8, 0x20, 0x30, 0x40];
    let little = ScreenMemory::new(ByteOrder::Little, &word, 2, 3, 4).unwrap();
    assert_eq!(little.offset(), 0x4030_2010);
    assert_eq!(little.len(), 24);
    let big = ScreenMemory::new(ByteOrder::Big, &word, 2, 3, 4).unwrap();
    assert_eq!(big.offset(), 0x1020_3040);
    assert_eq!(big.len(), 24);
}

#[test]
fn a_word_of_eight_bytes_is_read_in_the_given_order() {
    let word = [0x01u8, 0x02, 0x03, 0x04, 0x05, 0x06, 0x07, 0x08];
    let little = ScreenMemory::new(ByteOrder::Little, &word, 1, 1, 1).unwrap();
    assert_eq!(little.offset(), 0x0807_0605_0403_0201);
    let big = ScreenMemory::new(ByteOrder::Big, &word, 1, 1, 1).unwrap();
    assert_eq!(big.offset(), 0x0102_0304_0506_0708);
    let top = [0xffu8; 8];
    assert_eq!(ScreenMemory::new(ByteOrder::Little, &top, 1, 1, 1).unwrap().offset(), u64::MAX);
}

#[test]
fn the_native_word_agrees_with_the_standard_library() {
    let address: usize = 0x7654_3210;
    let screen =
        ScreenMemory::new(ByteOrder::native(), &address.to_ne_bytes(), 1404, 1872, 2).unwrap();
    assert_eq!(screen.offset(), address as u64);
}

#[test]
fn a_word_of_another_width_is_refused() {
    for n in [0usize, 1, 2, 3, 5, 6, 7, 9, 16] {
        let word = vec![0u8; n];
        assert_eq!(
            ScreenMemory::new(ByteOrder::Little, &word, 1404, 1872, 2),
            Err(ScreenError::PointerWidth)
        );
    }
}

#[test]
fn an_empty_screen_has_an_empty_frame() {
    let screen = ScreenMemory::new(ByteOrder::Big, &[0, 0, 0, 1], 0, 1872, 2).unwrap();
    assert_eq!(screen.len(), 0);
    assert_eq!(screen.read(0), Ok(Span { offset: 1, len: 0 }));
}

#[test]
fn the_largest_screen_fits_or_is_refused() {
    let result = ScreenMemory::new(ByteOrder::Little, &[0, 0, 0, 0], 0xffff, 0xffff, 0xff);
    let bytes: u64 = 0xffff * 0xffff * 0xff;
    if bytes <= usize::MAX as u64 {
        assert_eq!(result.unwrap().len() as u64, bytes);
    } else {
        assert_eq!(result, Err(ScreenError::FrameTooLarge));
    }
}

#[test]
fn read_wants_a_buffer_that_holds_the_frame() {
    let screen = ScreenMemory::new(ByteOrder::Little, &[0x00, 0x10, 0x00, 0x00], 4, 4, 2).unwrap();
    assert_eq!(screen.len(), 32);
    assert_eq!(screen.read(0), Err(ScreenError::BufferTooSmall));
    assert_eq!(screen.read(31), Err(ScreenError::BufferTooSmall));
    assert_eq!(screen.read(32), Ok(Span { offset: 0x1000, len: 32 }));
    assert_eq!(screen.read(33), Ok(Span { offset: 0x1000, len: 32 }));
    assert_eq!(screen.read(usize::MAX), Ok(Span { offset: 0x1000, len: 32 }));
}
