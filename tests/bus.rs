use nes_emu::bus::Bus;
use nes_emu::cart::{Cart, LoaderError, Mirroring, RomHeader};
use nes_emu::game_state::GameState;
use nes_emu::joypad::{Inputs, Joypad};

fn image(prg_units: u8, flags6: u8, flags7: u8) -> Vec<u8> {
    let mut rom = vec![0x4E, 0x45, 0x53, 0x1A, prg_units, 1, flags6, flags7, 0, 0, 0, 0, 0, 0, 0, 0];
    if flags6 & 0b100 != 0 {
        rom.extend_from_slice(&vec![0xEEu8; 512]);
    }
    for i in 0..(prg_units as usize * 0x4000) {
        rom.push((i / 0x100) as u8);
    }
    rom.extend_from_slice(&vec![0x77u8; 0x2000]);
    rom
}

fn bus() -> Bus {
    Bus::new(Cart::new(&image(1, 0, 0)).unwrap())
}

#[test]
fn header_fields() {
    let h = RomHeader::new(&image(2, 0b0001_0101, 0b0010_0000)).unwrap();
    assert_eq!(h.prg_rom_start, 16 + 512);
    assert_eq!(h.prg_rom_size, 0x8000);
    assert_eq!(h.chr_rom_size, 0x2000);
    assert_eq!(h.chr_rom_start, 16 + 512 + 0x8000);
    assert_eq!(h.mapper, 0x21);
    assert_eq!(h.screen_mirroring, Mirroring::Vertical);
    let h = RomHeader::new(&image(1, 0b1000, 0)).unwrap();
    assert_eq!(h.screen_mirroring, Mirroring::FourScreen);
    let h = RomHeader::new(&image(1, 0, 0)).unwrap();
    assert_eq!(h.screen_mirroring, Mirroring::Horizontal);
}

#[test]
fn loader_errors() {
    let mut bad = image(1, 0, 0);
    bad[3] = 0;
    assert_eq!(RomHeader::new(&bad).err(), Some(LoaderError::BadMagic));
    assert_eq!(RomHeader::new(&vec![0x4E, 0x45]).err(), Some(LoaderError::BadMagic));
    assert_eq!(RomHeader::new(&vec![0x4E, 0x45, 0x53, 0x1A, 1]).err(), Some(LoaderError::Truncated));
    assert_eq!(RomHeader::new(&image(1, 0, 0b1000)).err(), Some(LoaderError::UnsupportedVersion));
    let mut short = image(1, 0, 0);
    short.truncate(100);
    assert_eq!(Cart::new(&short).err(), Some(LoaderError::Truncated));
}

#[test]
fn cart_slices_with_trainer() {
    let c = Cart::new(&image(1, 0b100, 0)).unwrap();
    assert_eq!(c.prg_rom.len(), 0x4000);
    assert_eq!(c.prg_rom[0x100], 1);
    assert_eq!(c.chr_rom.len(), 0x2000);
    assert_eq!(c.chr_rom[0], 0x77);
}

#[test]
fn ram_is_mirrored() {
    let mut b = bus();
    for a in [0x0000u16, 0x0123, 0x07FF] {
        b.write(a, (a & 0xFF) as u8 ^ 0x5A);
        let v = b.read(a);
        assert_eq!(b.read(a + 0x0800), v);
        assert_eq!(b.read(a + 0x1000), v);
        assert_eq!(b.read(a + 0x1800), v);
    }
    b.write(0x1FFF, 9);
    assert_eq!(b.read(0x07FF), 9);
}

#[test]
fn sixteen_kib_prg_is_mirrored() {
    let mut b = bus();
    assert_eq!(b.read(0x8100), 1);
    assert_eq!(b.read(0xC100), 1);
    assert_eq!(b.read(0xFF00), 0x3F);
}

#[test]
fn read_16_is_little_endian() {
    let mut b = bus();
    b.write(0x0010, 0x34);
    b.write(0x0011, 0x12);
    assert_eq!(b.read_16(0x0010), 0x1234);
    assert_eq!(b.read_16(0x80FF), 0x0100);
    b.write_16(0x0020, 0xBEEF);
    assert_eq!(b.read(0x0020), 0xEF);
    assert_eq!(b.read(0x0021), 0xBE);
}

#[test]
fn ppu_registers_are_mirrored() {
    let mut b = bus();
    b.write(0x2006, 0x21);
    b.write(0x3FFE, 0x00);
    b.write(0x2007, 0x42);
    b.write(0x2006, 0x21);
    b.write(0x2006, 0x00);
    let _ = b.read(0x200F);
    assert_eq!(b.read(0x3FF7), 0x42);
}

#[test]
fn status_read_through_bus_resets_latches() {
    let mut b = bus();
    b.write(0x2006, 0x21);
    b.write(0x2005, 0x01);
    let _ = b.read(0x2002);
    assert!(b.ppu.addr.hi_ptr);
    assert!(!b.ppu.scroll.latch);
}

#[test]
fn unmapped_and_write_only_reads_are_zero() {
    let mut b = bus();
    assert_eq!(b.read(0x2000), 0);
    assert_eq!(b.read(0x4000), 0);
    assert_eq!(b.read(0x4017), 0);
    assert_eq!(b.read(0x6000), 0);
}

#[test]
fn oam_dma_copies_a_page() {
    let mut b = bus();
    for i in 0..=255u16 {
        b.write(0x0200 + i, i as u8);
    }
    b.write(0x2003, 0x00);
    b.write(0x4014, 0x02);
    assert_eq!(b.ppu.oam_data[0], 0);
    assert_eq!(b.ppu.oam_data[200], 200);
}

#[test]
fn tick_runs_ppu_three_times_faster() {
    let mut b = bus();
    b.tick(7);
    assert_eq!(b.cycles, 7);
    assert_eq!(b.ppu.cycle, 21);
}

#[test]
fn nmi_rising_edge_marks_a_frame() {
    let mut b = bus();
    b.write(0x2000, 0x80);
    for _ in 0..(241 * 341 / 3 / 100 + 1) {
        b.tick(100);
    }
    assert!(b.take_frame());
    assert!(!b.take_frame());
    assert_eq!(b.poll_nmi_status(), Some(1));
}

#[test]
fn save_and_load_state() {
    let mut b = bus();
    b.write(0x0005, 0x99);
    let saved = b.save_state();
    b.write(0x0005, 0x01);
    assert!(b.load_state(saved));
    assert_eq!(b.read(0x0005), 0x99);
    let mut broken = b.save_state();
    broken.ram.pop();
    assert!(!b.load_state(broken));
}

#[test]
fn joypad_shifts_out_buttons() {
    let mut j = Joypad::new();
    j.set_button_pressed_status(Inputs::A, true);
    j.set_button_pressed_status(Inputs::Start, true);
    j.write(1);
    assert_eq!(j.read(), 1);
    assert_eq!(j.read(), 1);
    j.write(0);
    let bits: Vec<u8> = (0..10).map(|_| j.read()).collect();
    assert_eq!(bits, vec![1, 0, 0, 1, 0, 0, 0, 0, 1, 1]);
    j.set_button_pressed_status(Inputs::A, false);
    assert_eq!(j.button_status, 0b1000);
}

#[test]
fn joypad_through_bus() {
    let mut b = bus();
    b.joypad.set_button_pressed_status(Inputs::Right, true);
    b.write(0x4016, 1);
    b.write(0x4016, 0);
    let bits: Vec<u8> = (0..8).map(|_| b.read(0x4016)).collect();
    assert_eq!(bits, vec![0, 0, 0, 0, 0, 0, 0, 1]);
}

#[test]
fn game_state_names() {
    let mut ram = vec![0u8; 2048];
    ram[0x0003] = 1;
    ram[0x000E] = 0x08;
    ram[0x001D] = 0x03;
    let g = GameState::new(&ram);
    assert_eq!(g.read_direction(), "Right");
    assert_eq!(g.read_player_state(), "Normal");
    assert_eq!(g.read_float_state(), "Sliding down flagpole");
    ram[0x0003] = 9;
    assert_eq!(GameState::new(&ram).read_direction(), "INVALID DIRECTION");
}
