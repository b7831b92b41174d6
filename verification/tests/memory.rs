use fpgrars::memory::{
    AccessMode, Memory, mmio_color_to_rgb, FRAME_0, FRAME_1, FRAME_SELECT, MMIO_BASE, MMIO_SIZE,
};

#[test]
fn mmio_write_read_round_trip() {
    let mut m = Memory::new(vec![0; 64], AccessMode::Checked);
    let addr = MMIO_BASE + 5;
    assert!(m.write8(addr, 0xab));
    assert_eq!(m.read8(addr), Some(0xab));
}

#[test]
fn flip_frame_swaps_write_target() {
    let mut m = Memory::new(vec![], AccessMode::Checked);
    assert_eq!(m.displayed_frame_base(), FRAME_0);
    assert_eq!(m.back_frame_base(), FRAME_1);
    m.flip_frame();
    assert_eq!(m.displayed_frame_base(), FRAME_1);
    assert_eq!(m.back_frame_base(), FRAME_0);
    assert_eq!(m.mmio[FRAME_SELECT], 1);
    m.flip_frame();
    assert_eq!(m.back_frame_base(), FRAME_1);
}

#[test]
fn multi_byte_accesses_are_little_endian() {
    let mut m = Memory::new(vec![0; 16], AccessMode::Checked);
    assert!(m.write32(0, 0x1234_5678));
    assert_eq!(&m.data[0..4], &[0x78, 0x56, 0x34, 0x12]);
    assert_eq!(m.read32(0), Some(0x1234_5678));
    assert!(m.write16(8, 0xbeef));
    assert_eq!(&m.data[8..10], &[0xef, 0xbe]);
    assert_eq!(m.read16(8), Some(0xbeef));
}

#[test]
fn checked_mode_rejects_out_of_bounds() {
    let mut m = Memory::new(vec![0; 8], AccessMode::Checked);
    assert_eq!(m.read8(8), None);
    assert!(!m.write8(8, 1));
    assert!(!m.write32(6, 1));  // straddles the end of the data region
    assert_eq!(m.read8(MMIO_BASE + MMIO_SIZE as u32), None);
    // the failed straddling write changed nothing
    assert_eq!(&m.data[..], &[0u8; 8]);
}

#[test]
fn unchecked_mode_absorbs_out_of_bounds() {
    let mut m = Memory::new(vec![0; 8], AccessMode::Unchecked);
    assert!(m.write8(8, 1));
    assert_eq!(m.read8(8), Some(0));
    assert_eq!(m.data.len(), 8);
}

#[test]
fn packed_color_unpacks_by_channel() {
    // bits 0-2 red, 3-5 green, 6-7 blue
    assert_eq!(mmio_color_to_rgb(0b11_010_101), (5 * 32, 2 * 32, 3 * 64));
    assert_eq!(mmio_color_to_rgb(0), (0, 0, 0));
    assert_eq!(mmio_color_to_rgb(0xff), (224, 224, 192));
}
