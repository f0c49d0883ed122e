use nes_emu::cart::Mirroring;
use nes_emu::latches::{AddrRegister, ScrollRegister};
use nes_emu::ppu::{Color, PPU};

fn ppu(m: Mirroring) -> PPU {
    PPU::new(vec![0u8; 0x2000], m)
}

fn set_addr(p: &mut PPU, a: u16) {
    p.write_to_ppu_addr((a >> 8) as u8);
    p.write_to_ppu_addr((a & 0xFF) as u8);
}

#[test]
fn vblank_raises_nmi_once() {
    let mut p = ppu(Mirroring::Horizontal);
    p.write_to_ctrl(0x80);
    assert_eq!((p.scanline, p.cycle), (0, 0));
    let frame = p.tick(241 * 341);
    assert!(!frame);
    assert_eq!(p.scanline, 241);
    assert!(p.status & 0x80 != 0);
    assert_eq!(p.poll_nmi_interrupt(), Some(1));
    assert_eq!(p.poll_nmi_interrupt(), None);
}

#[test]
fn no_nmi_without_ctrl_bit() {
    let mut p = ppu(Mirroring::Horizontal);
    p.tick(241 * 341);
    assert!(p.is_in_vblank());
    assert_eq!(p.poll_nmi_interrupt(), None);
}

#[test]
fn frame_ends_after_262_scanlines() {
    let mut p = ppu(Mirroring::Vertical);
    assert!(!p.tick(262 * 341 - 1));
    assert!(p.tick(1));
    assert_eq!((p.scanline, p.cycle), (0, 0));
    assert!(!p.is_in_vblank());
}

#[test]
fn timing_counters_stay_in_range() {
    let mut p = ppu(Mirroring::Vertical);
    for n in [1u32, 340, 341, 1000, 89341, 262 * 341 * 3 + 17] {
        p.tick(n);
        assert!(p.scanline < 262);
        assert!(p.cycle < 341);
    }
}

#[test]
fn enabling_nmi_during_vblank_latches_it() {
    let mut p = ppu(Mirroring::Horizontal);
    p.tick(241 * 341);
    assert_eq!(p.nmi_interrupt, None);
    p.write_to_ctrl(0x80);
    assert_eq!(p.poll_nmi_interrupt(), Some(1));
}

#[test]
fn status_read_resets_both_latches() {
    let mut p = ppu(Mirroring::Horizontal);
    p.write_to_ppu_addr(0x21);
    p.write_to_scroll(0x05);
    assert!(!p.addr.hi_ptr);
    assert!(p.scroll.latch);
    p.tick(241 * 341);
    let s = p.read_status();
    assert!(s & 0x80 != 0);
    assert!(!p.is_in_vblank());
    assert!(p.addr.hi_ptr);
    assert!(!p.scroll.latch);
}

#[test]
fn data_reads_are_buffered() {
    let mut p = ppu(Mirroring::Horizontal);
    set_addr(&mut p, 0x2305);
    p.write_to_data(0x66);
    set_addr(&mut p, 0x2305);
    let _stale = p.read_data();
    assert_eq!(p.addr.get(), 0x2306);
    assert_eq!(p.read_data(), 0x66);
}

#[test]
fn increment_of_32() {
    let mut p = ppu(Mirroring::Horizontal);
    p.write_to_ctrl(0b100);
    set_addr(&mut p, 0x21FF);
    p.write_to_data(1);
    assert_eq!(p.addr.get(), 0x221F);
}

#[test]
fn palette_mirror_both_ways() {
    let mut p = ppu(Mirroring::Horizontal);
    set_addr(&mut p, 0x3F10);
    p.write_to_data(0x2A);
    set_addr(&mut p, 0x3F00);
    assert_eq!(p.read_data(), 0x2A);
    set_addr(&mut p, 0x3F04);
    p.write_to_data(0x17);
    set_addr(&mut p, 0x3F14);
    assert_eq!(p.read_data(), 0x17);
}

#[test]
fn horizontal_mirroring() {
    let p = ppu(Mirroring::Horizontal);
    assert_eq!(p.mirror_vram_addr(0x2003), 0x0003);
    assert_eq!(p.mirror_vram_addr(0x2403), 0x0003);
    assert_eq!(p.mirror_vram_addr(0x2803), 0x0403);
    assert_eq!(p.mirror_vram_addr(0x2C03), 0x0403);
    assert_eq!(p.mirror_vram_addr(0x3403), 0x0003);
}

#[test]
fn vertical_mirroring() {
    let p = ppu(Mirroring::Vertical);
    assert_eq!(p.mirror_vram_addr(0x2003), 0x0003);
    assert_eq!(p.mirror_vram_addr(0x2403), 0x0403);
    assert_eq!(p.mirror_vram_addr(0x2803), 0x0003);
    assert_eq!(p.mirror_vram_addr(0x2C03), 0x0403);
}

#[test]
fn address_latch_masks_to_14_bits() {
    let mut a = AddrRegister::new();
    a.update(0x7F);
    a.update(0xFF);
    assert_eq!(a.get(), 0x3FFF);
    a.increment(1);
    assert_eq!(a.get(), 0x0000);
    a.reset_latch();
    assert!(a.hi_ptr);
}

#[test]
fn scroll_latch_alternates() {
    let mut s = ScrollRegister::new();
    s.write(1);
    s.write(2);
    assert_eq!((s.scroll_x, s.scroll_y, s.latch), (1, 2, false));
}

#[test]
fn oam_writes_advance_address() {
    let mut p = ppu(Mirroring::Horizontal);
    p.write_to_oam_addr(0xFF);
    p.write_to_oam_data(0x11);
    assert_eq!(p.oam_addr, 0x00);
    p.write_to_oam_addr(0xFF);
    assert_eq!(p.read_oam_data(), 0x11);
}

#[test]
fn oam_dma_wraps_from_oam_addr() {
    let mut p = ppu(Mirroring::Horizontal);
    p.write_to_oam_addr(0x10);
    let data: Vec<u8> = (0..=255u8).collect();
    p.write_oam_dma(&data);
    assert_eq!(p.oam_addr, 0x10);
    assert_eq!(p.oam_data[0x10], 0);
    assert_eq!(p.oam_data[0x0F], 0xFF);
    assert_eq!(p.oam_data[0x00], 0xF0);
}

#[test]
fn control_and_mask_accessors() {
    let mut p = ppu(Mirroring::Horizontal);
    p.write_to_ctrl(0b0111_1110);
    assert_eq!(p.nametable_addr(), 0x2800);
    assert_eq!(p.vram_addr_increment(), 32);
    assert_eq!(p.sprt_pattern_addr(), 0x1000);
    assert_eq!(p.bknd_pattern_addr(), 0x1000);
    assert_eq!(p.sprite_size(), 16);
    assert_eq!(p.master_slave_select(), 1);
    assert!(!p.generate_vblank_nmi());
    p.write_to_mask(0b1011_1111);
    assert!(p.is_grayscale() && p.leftmost_8pxl_background() && p.leftmost_8pxl_sprite());
    assert!(p.show_background() && p.show_sprites());
    assert_eq!(p.emphasise(), vec![Color::Red, Color::Blue]);
}

#[test]
fn sprite_zero_hit() {
    let mut p = ppu(Mirroring::Horizontal);
    p.write_to_mask(0b1_0000);
    p.write_to_oam_addr(0);
    p.write_to_oam_data(2);
    p.write_to_oam_data(0);
    p.write_to_oam_data(0);
    p.write_to_oam_data(5);
    p.tick(2 * 341 + 5);
    assert_eq!(p.status & 0x40, 0);
    p.tick(2);
    assert!(p.status & 0x40 != 0);
    p.set_sprite_zero_hit(false);
    p.set_sprite_overflow(true);
    assert_eq!(p.status & 0x60, 0x20);
}
