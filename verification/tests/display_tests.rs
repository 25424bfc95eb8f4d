use nes_emulator::display::write_frame_argb8888;

#[test]
fn frame_bytes_are_bgra() {
    let mut frame = vec![0u32; 256 * 240];
    frame[0] = 0x123456;
    frame[256 * 239 + 255] = 0xABCDEF;
    let pitch = 1024 + 16;
    let mut buf = vec![0x77u8; 239 * pitch + 1024 + 5];
    write_frame_argb8888(&frame, &mut buf, pitch);
    assert_eq!(&buf[0..4], &[0x56, 0x34, 0x12, 0xFF]);
    assert_eq!(&buf[4..8], &[0, 0, 0, 0xFF]);
    // row padding keeps its bytes
    assert_eq!(buf[1024], 0x77);
    let last = 239 * pitch + 255 * 4;
    assert_eq!(&buf[last..last + 4], &[0xEF, 0xCD, 0xAB, 0xFF]);
    assert_eq!(buf[239 * pitch + 1024], 0x77);
}
