//! The picture processing unit as seen by the CPU: its memories, its
//! memory-mapped registers, and the scanline/cycle state machine that raises
//! the vertical-blank NMI.
use vstd::prelude::*;
use crate::bits::{bit_of, with_bit, get_bit, set_bit};
use crate::cart::Mirroring;
use crate::latches::{AddrRegister, ScrollRegister};

verus! {

pub const VRAM_SIZE: usize = 2048;
pub const OAM_SIZE: usize = 256;
pub const PALETTE_SIZE: usize = 32;
pub const SCANLINES: u16 = 262;
pub const CYCLES_PER_SCANLINE: u16 = 341;
pub const VBLANK_SCANLINE: u16 = 241;

pub const CTRL_VRAM_ADD_INCREMENT: u8 = 2;
pub const CTRL_SPRITE_PATTERN_ADDR: u8 = 3;
pub const CTRL_BACKGROUND_PATTERN_ADDR: u8 = 4;
pub const CTRL_SPRITE_SIZE: u8 = 5;
pub const CTRL_MASTER_SLAVE_SELECT: u8 = 6;
pub const CTRL_GENERATE_NMI: u8 = 7;

pub const MASK_GREYSCALE: u8 = 0;
pub const MASK_LEFTMOST_BACKGROUND: u8 = 1;
pub const MASK_LEFTMOST_SPRITE: u8 = 2;
pub const MASK_SHOW_BACKGROUND: u8 = 3;
pub const MASK_SHOW_SPRITES: u8 = 4;
pub const MASK_EMPHASISE_RED: u8 = 5;
pub const MASK_EMPHASISE_GREEN: u8 = 6;
pub const MASK_EMPHASISE_BLUE: u8 = 7;

pub const STATUS_SPRITE_OVERFLOW: u8 = 5;
pub const STATUS_SPRITE_ZERO_HIT: u8 = 6;
pub const STATUS_VBLANK_STARTED: u8 = 7;

/// Index into the 2 KiB nametable RAM for a PPU address in $2000-$3FFF.
/// Four-screen layouts address a second 2 KiB that is not modelled: their
/// upper two nametables fall outside the RAM.
pub open spec fn nametable_slot(m: Mirroring, addr: u16) -> int {
    let idx = (addr & 0x2FFFu16) as int - 0x2000;
    let nt = idx / 0x400;
    match m {
        Mirroring::Horizontal => if nt == 0 {
            idx
        } else if nt == 3 {
            idx - 0x800
        } else {
            idx - 0x400
        },
        Mirroring::Vertical => if nt >= 2 {
            idx - 0x800
        } else {
            idx
        },
        Mirroring::FourScreen => idx,
    }
}

/// Index into the 32-byte palette RAM for a PPU address in $3F00-$3FFF;
/// $3F10/$3F14/$3F18/$3F1C share the entries of $3F00/$3F04/$3F08/$3F0C.
pub open spec fn palette_slot(addr: u16) -> int {
    let i = (addr & 0x1Fu16) as int;
    if i == 0x10 || i == 0x14 || i == 0x18 || i == 0x1C {
        i - 0x10
    } else {
        i
    }
}

/// A colour channel that the mask register can emphasise.
#[derive(Clone, Copy, Debug, PartialEq, Eq, Structural)]
pub enum Color {
    Red,
    Green,
    Blue,
}

/// The PPU's state as mathematical values.
pub struct PpuView {
    pub chr_rom: Seq<u8>,
    pub vram: Seq<u8>,
    pub oam_data: Seq<u8>,
    pub palette_table: Seq<u8>,
    pub mirroring: Mirroring,
    pub ctrl: u8,
    pub mask: u8,
    pub status: u8,
    pub scroll: ScrollRegister,
    pub addr: AddrRegister,
    pub oam_addr: u8,
    pub data_buffer: u8,
    pub scanline: u16,
    pub cycle: u16,
    pub nmi_interrupt: Option<u8>,
}

impl PpuView {
    pub open spec fn wf(self) -> bool {
        &&& self.vram.len() == 2048
        &&& self.oam_data.len() == 256
        &&& self.palette_table.len() == 32
        &&& self.scanline < 262
        &&& self.cycle < 341
        &&& self.addr.wf()
    }

    /// The byte of character ROM at `a`; reads past its end give 0.
    pub open spec fn chr_byte(self, a: u16) -> u8 {
        if (a as int) < self.chr_rom.len() {
            self.chr_rom[a as int]
        } else {
            0
        }
    }

    /// The nametable byte that `a` maps to; 0 where the layout needs RAM
    /// that is not there.
    pub open spec fn vram_byte(self, a: u16) -> u8 {
        let i = nametable_slot(self.mirroring, a);
        if 0 <= i < self.vram.len() {
            self.vram[i]
        } else {
            0
        }
    }

    /// How far a $2007 access moves the VRAM address (Ctrl bit 2).
    pub open spec fn addr_step(self) -> u8 {
        if bit_of(self.ctrl, CTRL_VRAM_ADD_INCREMENT) {
            32
        } else {
            1
        }
    }

    /// What a $2007 read returns: the buffered byte below $3F00, the palette
    /// entry itself above.
    pub open spec fn data_read_value(self) -> u8 {
        let a = self.addr.value();
        if a < 0x3F00 {
            self.data_buffer
        } else {
            self.palette_table[palette_slot(a)]
        }
    }

    /// The PPU after a $2007 read: the buffer is refilled from the current
    /// address and the address advances.
    pub open spec fn after_data_read(self) -> PpuView {
        let a = self.addr.value();
        let buf = if a < 0x2000 {
            self.chr_byte(a)
        } else {
            self.vram_byte(a)
        };
        PpuView { data_buffer: buf, addr: self.addr.after_increment(self.addr_step()), ..self }
    }

    /// The PPU after `v` is written to $2007. Character ROM ignores writes.
    pub open spec fn after_data_write(self, v: u8) -> PpuView {
        let a = self.addr.value();
        let i = nametable_slot(self.mirroring, a);
        let stored = if a < 0x2000 {
            self
        } else if a < 0x3F00 {
            if 0 <= i < self.vram.len() {
                PpuView { vram: self.vram.update(i, v), ..self }
            } else {
                self
            }
        } else {
            PpuView { palette_table: self.palette_table.update(palette_slot(a), v), ..self }
        };
        PpuView { addr: self.addr.after_increment(self.addr_step()), ..stored }
    }

    /// The PPU after a $2002 read: VBlank cleared, both write toggles reset.
    pub open spec fn after_status_read(self) -> PpuView {
        PpuView {
            status: with_bit(self.status, STATUS_VBLANK_STARTED, false),
            addr: AddrRegister { hi_ptr: true, ..self.addr },
            scroll: ScrollRegister { latch: false, ..self.scroll },
            ..self
        }
    }

    /// The PPU after `v` is written to $2000. Enabling NMI generation while
    /// VBlank is set latches an NMI at once.
    pub open spec fn after_ctrl_write(self, v: u8) -> PpuView {
        let raise = !bit_of(self.ctrl, CTRL_GENERATE_NMI) && bit_of(v, CTRL_GENERATE_NMI) && bit_of(
            self.status,
            STATUS_VBLANK_STARTED,
        );
        PpuView {
            ctrl: v,
            nmi_interrupt: if raise {
                Some(1u8)
            } else {
                self.nmi_interrupt
            },
            ..self
        }
    }

    /// The PPU after `v` is written to $2004.
    pub open spec fn after_oam_data_write(self, v: u8) -> PpuView {
        PpuView {
            oam_data: self.oam_data.update(self.oam_addr as int, v),
            oam_addr: ((self.oam_addr + 1) % 256) as u8,
            ..self
        }
    }

    /// OAM after a 256-byte DMA starting at the current OAM address.
    pub open spec fn after_oam_dma(self, data: Seq<u8>) -> PpuView {
        PpuView {
            oam_data: Seq::new(256, |j: int| data[(j - self.oam_addr + 256) % 256]),
            ..self
        }
    }

    /// Sprite 0 is on the current scanline, at or left of the current cycle,
    /// and sprites are shown.
    pub open spec fn sprite_zero_hit_now(self) -> bool {
        &&& self.oam_data[0] as int == self.scanline as int
        &&& self.oam_data[3] as int <= self.cycle as int
        &&& bit_of(self.mask, MASK_SHOW_SPRITES)
    }

    /// Whether the next PPU cycle ends the frame.
    pub open spec fn ends_frame(self) -> bool {
        self.cycle + 1 >= 341 && self.scanline + 1 >= 262
    }

    /// The PPU one cycle later.
    pub open spec fn dot(self) -> PpuView {
        let st = if self.sprite_zero_hit_now() {
            with_bit(self.status, STATUS_SPRITE_ZERO_HIT, true)
        } else {
            self.status
        };
        if self.cycle + 1 < 341 {
            PpuView { cycle: (self.cycle + 1) as u16, status: st, ..self }
        } else if self.scanline + 1 == 241 {
            PpuView {
                cycle: 0,
                scanline: 241,
                status: with_bit(
                    with_bit(st, STATUS_VBLANK_STARTED, true),
                    STATUS_SPRITE_ZERO_HIT,
                    false,
                ),
                nmi_interrupt: if bit_of(self.ctrl, CTRL_GENERATE_NMI) {
                    Some(1u8)
                } else {
                    self.nmi_interrupt
                },
                ..self
            }
        } else if self.scanline + 1 >= 262 {
            PpuView {
                cycle: 0,
                scanline: 0,
                status: with_bit(
                    with_bit(st, STATUS_SPRITE_ZERO_HIT, false),
                    STATUS_VBLANK_STARTED,
                    false,
                ),
                nmi_interrupt: None,
                ..self
            }
        } else {
            PpuView { cycle: 0, scanline: (self.scanline + 1) as u16, status: st, ..self }
        }
    }

    /// The PPU `n` cycles later.
    pub open spec fn ticked(self, n: nat) -> PpuView
        decreases n,
    {
        if n == 0 {
            self
        } else {
            self.dot().ticked((n - 1) as nat)
        }
    }

    /// Whether a frame ends within the next `n` cycles.
    pub open spec fn frame_within(self, n: nat) -> bool
        decreases n,
    {
        if n == 0 {
            false
        } else {
            self.ends_frame() || self.dot().frame_within((n - 1) as nat)
        }
    }
}

/// One cycle keeps the state well formed.
pub proof fn lemma_dot_wf(p: PpuView)
    requires
        p.wf(),
    ensures
        p.dot().wf(),
{
}

/// `n + 1` cycles are `n` cycles and then one more.
pub proof fn lemma_ticked_succ(p: PpuView, n: nat)
    ensures
        p.ticked(n + 1) == p.ticked(n).dot(),
        p.frame_within(n + 1) == (p.frame_within(n) || p.ticked(n).ends_frame()),
    decreases n,
{
    assert(p.ticked(n + 1) == p.dot().ticked(n));
    assert(p.frame_within(n + 1) == (p.ends_frame() || p.dot().frame_within(n)));
    if n == 0 {
        assert(p.dot().ticked(0) == p.dot());
    } else {
        lemma_ticked_succ(p.dot(), (n - 1) as nat);
        assert(p.ticked(n) == p.dot().ticked((n - 1) as nat));
        assert(p.frame_within(n) == (p.ends_frame() || p.dot().frame_within((n - 1) as nat)));
    }
}

/// Every state reached by ticking a well-formed PPU is well formed: the
/// scanline stays below 262 and the cycle below 341.
pub proof fn lemma_ticked_wf(p: PpuView, n: nat)
    requires
        p.wf(),
    ensures
        p.ticked(n).wf(),
        0 <= p.ticked(n).scanline < 262,
        0 <= p.ticked(n).cycle < 341,
    decreases n,
{
    if n > 0 {
        lemma_dot_wf(p);
        lemma_ticked_wf(p.dot(), (n - 1) as nat);
    }
}

pub struct PPU {
    pub chr_rom: Vec<u8>,
    pub mirroring: Mirroring,
    pub ctrl: u8,
    pub mask: u8,
    pub status: u8,
    pub scroll: ScrollRegister,
    pub addr: AddrRegister,
    pub vram: Vec<u8>,
    pub oam_addr: u8,
    pub oam_data: Vec<u8>,
    pub palette_table: Vec<u8>,
    pub internal_data_buffer: u8,
    pub scanline: u16,
    pub cycle: u16,
    pub nmi_interrupt: Option<u8>,
}

impl View for PPU {
    type V = PpuView;

    open spec fn view(&self) -> PpuView {
        PpuView {
            chr_rom: self.chr_rom@,
            vram: self.vram@,
            oam_data: self.oam_data@,
            palette_table: self.palette_table@,
            mirroring: self.mirroring,
            ctrl: self.ctrl,
            mask: self.mask,
            status: self.status,
            scroll: self.scroll,
            addr: self.addr,
            oam_addr: self.oam_addr,
            data_buffer: self.internal_data_buffer,
            scanline: self.scanline,
            cycle: self.cycle,
            nmi_interrupt: self.nmi_interrupt,
        }
    }
}

/// `n` zero bytes.
pub fn zeroed(n: usize) -> (r: Vec<u8>)
    ensures
        r@ == Seq::new(n as nat, |i: int| 0u8),
{
    let mut v: Vec<u8> = Vec::with_capacity(n);
    let mut i: usize = 0;
    while i < n
        invariant
            i <= n,
            v@ == Seq::new(i as nat, |k: int| 0u8),
        decreases n - i,
    {
        v.push(0u8);
        i = i + 1;
        assert(v@ =~= Seq::new(i as nat, |k: int| 0u8));
    }
    v
}

/// A copy of `src`.
pub fn copy_bytes(src: &Vec<u8>) -> (r: Vec<u8>)
    ensures
        r@ == src@,
{
    let mut out: Vec<u8> = Vec::with_capacity(src.len());
    let mut i: usize = 0;
    while i < src.len()
        invariant
            i <= src.len(),
            out@ == src@.subrange(0, i as int),
        decreases src.len() - i,
    {
        out.push(src[i]);
        i = i + 1;
        assert(out@ =~= src@.subrange(0, i as int));
    }
    assert(out@ =~= src@);
    out
}

impl PPU {
    /// An independent copy of the whole PPU state.
    pub fn snapshot(&self) -> (r: PPU)
        ensures
            r@ == self@,
    {
        PPU {
            chr_rom: copy_bytes(&self.chr_rom),
            mirroring: self.mirroring,
            ctrl: self.ctrl,
            mask: self.mask,
            status: self.status,
            scroll: self.scroll,
            addr: self.addr,
            vram: copy_bytes(&self.vram),
            oam_addr: self.oam_addr,
            oam_data: copy_bytes(&self.oam_data),
            palette_table: copy_bytes(&self.palette_table),
            internal_data_buffer: self.internal_data_buffer,
            scanline: self.scanline,
            cycle: self.cycle,
            nmi_interrupt: self.nmi_interrupt,
        }
    }

    /// Whether the memories have their sizes, the timing counters are in
    /// range and the VRAM address fits in 14 bits.
    pub fn is_well_formed(&self) -> (r: bool)
        ensures
            r == self@.wf(),
    {
        self.vram.len() == VRAM_SIZE && self.oam_data.len() == OAM_SIZE && self.palette_table.len()
            == PALETTE_SIZE && self.scanline < SCANLINES && self.cycle < CYCLES_PER_SCANLINE
            && self.addr.get() <= 0x3FFF
    }

    pub fn new(chr_rom: Vec<u8>, mirroring: Mirroring) -> (r: PPU)
        ensures
            r@.wf(),
            r@.chr_rom == chr_rom@,
            r@.mirroring == mirroring,
            r@.vram == Seq::new(2048, |i: int| 0u8),
            r@.oam_data == Seq::new(256, |i: int| 0u8),
            r@.palette_table == Seq::new(32, |i: int| 0u8),
            r@.ctrl == 0 && r@.mask == 0 && r@.status == 0 && r@.oam_addr == 0,
            r@.data_buffer == 0,
            r@.addr.value() == 0 && r@.addr.hi_ptr,
            r@.scroll == (ScrollRegister { scroll_x: 0, scroll_y: 0, latch: false }),
            r@.scanline == 0 && r@.cycle == 0,
            r@.nmi_interrupt.is_none(),
    {
        PPU {
            chr_rom,
            mirroring,
            ctrl: 0,
            mask: 0,
            status: 0,
            scroll: ScrollRegister::new(),
            addr: AddrRegister::new(),
            vram: zeroed(VRAM_SIZE),
            oam_addr: 0,
            oam_data: zeroed(OAM_SIZE),
            palette_table: zeroed(PALETTE_SIZE),
            internal_data_buffer: 0,
            scanline: 0,
            cycle: 0,
            nmi_interrupt: None,
        }
    }

    /// Maps a nametable address in $2000-$3FFF to its index in the 2 KiB
    /// VRAM, following the cartridge's mirroring.
    pub fn mirror_vram_addr(&self, addr: u16) -> (r: u16)
        requires
            0x2000 <= addr <= 0x3FFF,
        ensures
            r as int == nametable_slot(self.mirroring, addr),
    {
        let mirrored_vram: u16 = addr & 0b10111111111111;
        assert(0x2000u16 <= addr && addr <= 0x3FFFu16 ==> addr & 0x2FFFu16 >= 0x2000u16
            && addr & 0x2FFFu16 <= 0x2FFFu16) by (bit_vector);
        let vram_index: u16 = mirrored_vram - 0x2000;
        let name_table: u16 = vram_index / 0x400;
        match self.mirroring {
            Mirroring::Vertical => if name_table >= 2 {
                vram_index - 0x800
            } else {
                vram_index
            },
            Mirroring::Horizontal => if name_table == 0 {
                vram_index
            } else if name_table == 3 {
                vram_index - 0x800
            } else {
                vram_index - 0x400
            },
            Mirroring::FourScreen => vram_index,
        }
    }

    /// The nametable byte for `addr`, or 0 where the layout needs RAM that is
    /// not there.
    fn read_vram(&self, addr: u16) -> (r: u8)
        requires
            0x2000 <= addr <= 0x3FFF,
            self@.wf(),
        ensures
            r == self@.vram_byte(addr),
    {
        let i = self.mirror_vram_addr(addr) as usize;
        if i < self.vram.len() {
            self.vram[i]
        } else {
            0
        }
    }

    /// How far a $2007 access moves the VRAM address: 1, or 32 when Ctrl
    /// bit 2 is set.
    pub fn vram_addr_increment(&self) -> (r: u8)
        ensures
            r == self@.addr_step(),
    {
        if !get_bit(self.ctrl, CTRL_VRAM_ADD_INCREMENT) {
            1
        } else {
            32
        }
    }

    fn increment_vram_addr(&mut self)
        requires
            old(self)@.wf(),
        ensures
            final(self)@ == (PpuView {
                addr: old(self)@.addr.after_increment(old(self)@.addr_step()),
                ..old(self)@
            }),
            final(self)@.wf(),
    {
        let inc = self.vram_addr_increment();
        self.addr.increment(inc);
    }

    /// Whether Ctrl bit 7 asks for an NMI at the start of VBlank.
    pub fn generate_vblank_nmi(&self) -> (r: bool)
        ensures
            r == bit_of(self.ctrl, CTRL_GENERATE_NMI),
    {
        get_bit(self.ctrl, CTRL_GENERATE_NMI)
    }

    /// Whether the VBlank bit of the status register is set.
    pub fn is_in_vblank(&self) -> (r: bool)
        ensures
            r == bit_of(self.status, STATUS_VBLANK_STARTED),
    {
        get_bit(self.status, STATUS_VBLANK_STARTED)
    }

    /// Sets or clears the VBlank bit of the status register.
    pub fn set_vblank_status(&mut self, status: bool)
        ensures
            final(self)@ == (PpuView {
                status: with_bit(old(self)@.status, STATUS_VBLANK_STARTED, status),
                ..old(self)@
            }),
    {
        set_bit(&mut self.status, STATUS_VBLANK_STARTED, status);
    }

    /// Sets or clears the sprite-0 hit bit of the status register.
    pub fn set_sprite_zero_hit(&mut self, status: bool)
        ensures
            final(self)@ == (PpuView {
                status: with_bit(old(self)@.status, STATUS_SPRITE_ZERO_HIT, status),
                ..old(self)@
            }),
    {
        set_bit(&mut self.status, STATUS_SPRITE_ZERO_HIT, status);
    }

    /// Sets or clears the sprite-overflow bit of the status register.
    pub fn set_sprite_overflow(&mut self, status: bool)
        ensures
            final(self)@ == (PpuView {
                status: with_bit(old(self)@.status, STATUS_SPRITE_OVERFLOW, status),
                ..old(self)@
            }),
    {
        set_bit(&mut self.status, STATUS_SPRITE_OVERFLOW, status);
    }

    /// Clears the VBlank bit of the status register.
    pub fn reset_vblank_status(&mut self)
        ensures
            final(self)@ == (PpuView {
                status: with_bit(old(self)@.status, STATUS_VBLANK_STARTED, false),
                ..old(self)@
            }),
    {
        set_bit(&mut self.status, STATUS_VBLANK_STARTED, false);
    }

    /// Writes $2000.
    pub fn write_to_ctrl(&mut self, value: u8)
        requires
            old(self)@.wf(),
        ensures
            final(self)@ == old(self)@.after_ctrl_write(value),
            final(self)@.wf(),
    {
        let before_nmi_status = self.generate_vblank_nmi();
        self.ctrl = value;
        if !before_nmi_status && self.generate_vblank_nmi() && self.is_in_vblank() {
            self.nmi_interrupt = Some(1);
        }
    }

    /// Writes $2001.
    pub fn write_to_mask(&mut self, value: u8)
        ensures
            final(self)@ == (PpuView { mask: value, ..old(self)@ }),
    {
        self.mask = value;
    }

    /// Reads $2002: returns the status, then clears VBlank and resets both
    /// write toggles.
    pub fn read_status(&mut self) -> (r: u8)
        requires
            old(self)@.wf(),
        ensures
            r == old(self)@.status,
            final(self)@ == old(self)@.after_status_read(),
            final(self)@.wf(),
            final(self).addr.hi_ptr,
            !final(self).scroll.latch,
    {
        let data = self.status;
        self.reset_vblank_status();
        self.addr.reset_latch();
        self.scroll.reset_latch();
        proof {
            crate::latches::lemma_from_value(self.addr.value(), true);
        }
        data
    }

    /// Writes $2003.
    pub fn write_to_oam_addr(&mut self, value: u8)
        ensures
            final(self)@ == (PpuView { oam_addr: value, ..old(self)@ }),
    {
        self.oam_addr = value;
    }

    /// Writes $2004: stores at the OAM address, which then advances.
    pub fn write_to_oam_data(&mut self, value: u8)
        requires
            old(self)@.wf(),
        ensures
            final(self)@ == old(self)@.after_oam_data_write(value),
            final(self)@.wf(),
    {
        self.oam_data.set(self.oam_addr as usize, value);
        self.oam_addr = self.oam_addr.wrapping_add(1);
    }

    /// Reads $2004.
    pub fn read_oam_data(&self) -> (r: u8)
        requires
            self@.wf(),
        ensures
            r == self@.oam_data[self.oam_addr as int],
    {
        self.oam_data[self.oam_addr as usize]
    }

    /// Writes $2005.
    pub fn write_to_scroll(&mut self, value: u8)
        ensures
            final(self)@ == (PpuView { scroll: old(self)@.scroll.after_write(value), ..old(self)@ }),
    {
        self.scroll.write(value);
    }

    /// Writes $2006.
    pub fn write_to_ppu_addr(&mut self, value: u8)
        requires
            old(self)@.wf(),
        ensures
            final(self)@ == (PpuView { addr: old(self)@.addr.after_update(value), ..old(self)@ }),
            final(self)@.wf(),
    {
        self.addr.update(value);
    }

    /// Index of the palette entry that `addr` ($3F00-$3FFF) selects.
    fn palette_index(addr: u16) -> (r: usize)
        ensures
            r as int == palette_slot(addr),
            r < 32,
    {
        let i: u16 = addr & 0x1F;
        assert(addr & 0x1Fu16 < 32u16) by (bit_vector);
        if i == 0x10 || i == 0x14 || i == 0x18 || i == 0x1C {
            (i - 0x10) as usize
        } else {
            i as usize
        }
    }

    /// What a $2007 read would return, without reading.
    pub fn peek_data(&self) -> (r: u8)
        requires
            self@.wf(),
        ensures
            r == self@.data_read_value(),
    {
        let addr = self.addr.get();
        if addr < 0x3F00 {
            self.internal_data_buffer
        } else {
            self.palette_table[PPU::palette_index(addr)]
        }
    }

    /// Writes $2007 at the current VRAM address, which then advances.
    pub fn write_to_data(&mut self, value: u8)
        requires
            old(self)@.wf(),
        ensures
            final(self)@ == old(self)@.after_data_write(value),
            final(self)@.wf(),
    {
        let addr = self.addr.get();
        if addr < 0x2000 {
            // character ROM is read-only
        } else if addr < 0x3F00 {
            let i = self.mirror_vram_addr(addr) as usize;
            if i < self.vram.len() {
                self.vram.set(i, value);
            }
        } else {
            let i = PPU::palette_index(addr);
            self.palette_table.set(i, value);
        }
        self.increment_vram_addr();
    }

    /// Reads $2007. Below $3F00 the previous buffer is returned and the buffer
    /// refilled from the current address; palette reads return at once and
    /// refill the buffer from the nametable underneath.
    pub fn read_data(&mut self) -> (r: u8)
        requires
            old(self)@.wf(),
        ensures
            r == old(self)@.data_read_value(),
            final(self)@ == old(self)@.after_data_read(),
            final(self)@.wf(),
    {
        let addr = self.addr.get();
        self.increment_vram_addr();
        if addr < 0x2000 {
            let result = self.internal_data_buffer;
            self.internal_data_buffer = if (addr as usize) < self.chr_rom.len() {
                self.chr_rom[addr as usize]
            } else {
                0
            };
            result
        } else if addr < 0x3F00 {
            let result = self.internal_data_buffer;
            self.internal_data_buffer = self.read_vram(addr);
            result
        } else {
            let result = self.palette_table[PPU::palette_index(addr)];
            self.internal_data_buffer = self.read_vram(addr);
            result
        }
    }
}


impl PPU {
    /// One PPU cycle: the sprite-0 check, then the cycle and scanline advance
    /// with the VBlank and end-of-frame transitions. Returns whether the
    /// frame ended.
    fn step_dot(&mut self) -> (r: bool)
        requires
            old(self)@.wf(),
        ensures
            final(self)@ == old(self)@.dot(),
            r == old(self)@.ends_frame(),
    {
        if self.oam_data[0] as u16 == self.scanline && self.oam_data[3] as u16 <= self.cycle
            && self.show_sprites() {
            self.set_sprite_zero_hit(true);
        }
        if self.cycle + 1 < CYCLES_PER_SCANLINE {
            self.cycle = self.cycle + 1;
            return false;
        }
        self.cycle = 0;
        self.scanline = self.scanline + 1;
        if self.scanline == VBLANK_SCANLINE {
            self.set_vblank_status(true);
            self.set_sprite_zero_hit(false);
            if self.generate_vblank_nmi() {
                self.nmi_interrupt = Some(1);
            }
            false
        } else if self.scanline >= SCANLINES {
            self.scanline = 0;
            self.nmi_interrupt = None;
            self.set_sprite_zero_hit(false);
            self.reset_vblank_status();
            true
        } else {
            false
        }
    }

    /// Advances the PPU by `cycles` of its own cycles. Returns whether a
    /// frame ended on the way.
    pub fn tick(&mut self, cycles: u32) -> (r: bool)
        requires
            old(self)@.wf(),
        ensures
            final(self)@ == old(self)@.ticked(cycles as nat),
            r == old(self)@.frame_within(cycles as nat),
            final(self)@.wf(),
    {
        let mut frame = false;
        let mut i: u32 = 0;
        while i < cycles
            invariant
                i <= cycles,
                self@ == old(self)@.ticked(i as nat),
                frame == old(self)@.frame_within(i as nat),
                self@.wf(),
            decreases cycles - i,
        {
            proof {
                lemma_ticked_succ(old(self)@, i as nat);
                lemma_dot_wf(self@);
            }
            let ended = self.step_dot();
            frame = frame || ended;
            i = i + 1;
        }
        frame
    }

    /// Hands out a latched NMI, if any, and clears the latch.
    pub fn poll_nmi_interrupt(&mut self) -> (r: Option<u8>)
        ensures
            r == old(self)@.nmi_interrupt,
            final(self)@ == (PpuView { nmi_interrupt: None, ..old(self)@ }),
    {
        let r = self.nmi_interrupt;
        self.nmi_interrupt = None;
        r
    }

    /// Copies 256 bytes into OAM from the current OAM address on, wrapping
    /// within OAM; the OAM address ends where it started.
    pub fn write_oam_dma(&mut self, data: &Vec<u8>)
        requires
            old(self)@.wf(),
            data@.len() == 256,
        ensures
            final(self)@ == old(self)@.after_oam_dma(data@),
            final(self)@.wf(),
    {
        let ghost start = self.oam_addr as int;
        let ghost before = self.oam_data@;
        let mut i: usize = 0;
        while i < 256
            invariant
                0 <= i <= 256,
                data@.len() == 256,
                self.oam_data@.len() == 256,
                self.oam_addr as int == (start + i) % 256,
                self@ == (PpuView { oam_data: self.oam_data@, oam_addr: self.oam_addr, ..old(self)@ }),
                start == old(self)@.oam_addr,
                before == old(self)@.oam_data,
                forall|j: int|
                    0 <= j < 256 ==> #[trigger] self.oam_data@[j] == if (j - start + 256) % 256 < i {
                        data@[(j - start + 256) % 256]
                    } else {
                        before[j]
                    },
            decreases 256 - i,
        {
            self.oam_data.set(self.oam_addr as usize, data[i]);
            self.oam_addr = self.oam_addr.wrapping_add(1);
            i = i + 1;
        }
        assert(self.oam_data@ =~= old(self)@.after_oam_dma(data@).oam_data);
    }

    /// Base address of the nametable chosen by Ctrl bits 0-1.
    pub fn nametable_addr(&self) -> (r: u16)
        ensures
            r == 0x2000 + 0x400 * (self.ctrl & 3u8),
    {
        let c = self.ctrl;
        let n: u8 = c & 0b11;
        assert(c & 3u8 <= 3u8) by (bit_vector);
        0x2000 + 0x400 * (n as u16)
    }

    /// Sprite pattern table for 8x8 sprites (Ctrl bit 3).
    pub fn sprt_pattern_addr(&self) -> (r: u16)
        ensures
            r == if bit_of(self.ctrl, CTRL_SPRITE_PATTERN_ADDR) {
                0x1000u16
            } else {
                0u16
            },
    {
        if !get_bit(self.ctrl, CTRL_SPRITE_PATTERN_ADDR) {
            0
        } else {
            0x1000
        }
    }

    /// Background pattern table (Ctrl bit 4).
    pub fn bknd_pattern_addr(&self) -> (r: u16)
        ensures
            r == if bit_of(self.ctrl, CTRL_BACKGROUND_PATTERN_ADDR) {
                0x1000u16
            } else {
                0u16
            },
    {
        if !get_bit(self.ctrl, CTRL_BACKGROUND_PATTERN_ADDR) {
            0
        } else {
            0x1000
        }
    }

    /// Sprite height in pixels (Ctrl bit 5).
    pub fn sprite_size(&self) -> (r: u8)
        ensures
            r == if bit_of(self.ctrl, CTRL_SPRITE_SIZE) {
                16u8
            } else {
                8u8
            },
    {
        if !get_bit(self.ctrl, CTRL_SPRITE_SIZE) {
            8
        } else {
            16
        }
    }

    /// PPU master/slave select (Ctrl bit 6).
    pub fn master_slave_select(&self) -> (r: u8)
        ensures
            r == if bit_of(self.ctrl, CTRL_MASTER_SLAVE_SELECT) {
                1u8
            } else {
                0u8
            },
    {
        if !get_bit(self.ctrl, CTRL_MASTER_SLAVE_SELECT) {
            0
        } else {
            1
        }
    }

    pub fn is_grayscale(&self) -> (r: bool)
        ensures
            r == bit_of(self.mask, MASK_GREYSCALE),
    {
        get_bit(self.mask, MASK_GREYSCALE)
    }

    pub fn leftmost_8pxl_background(&self) -> (r: bool)
        ensures
            r == bit_of(self.mask, MASK_LEFTMOST_BACKGROUND),
    {
        get_bit(self.mask, MASK_LEFTMOST_BACKGROUND)
    }

    pub fn leftmost_8pxl_sprite(&self) -> (r: bool)
        ensures
            r == bit_of(self.mask, MASK_LEFTMOST_SPRITE),
    {
        get_bit(self.mask, MASK_LEFTMOST_SPRITE)
    }

    pub fn show_background(&self) -> (r: bool)
        ensures
            r == bit_of(self.mask, MASK_SHOW_BACKGROUND),
    {
        get_bit(self.mask, MASK_SHOW_BACKGROUND)
    }

    pub fn show_sprites(&self) -> (r: bool)
        ensures
            r == bit_of(self.mask, MASK_SHOW_SPRITES),
    {
        get_bit(self.mask, MASK_SHOW_SPRITES)
    }

    /// The emphasised colour channels, in the order red, blue, green.
    pub fn emphasise(&self) -> (r: Vec<Color>)
        ensures
            r@ == emphasis_of(self.mask),
    {
        let mut result: Vec<Color> = Vec::new();
        if get_bit(self.mask, MASK_EMPHASISE_RED) {
            result.push(Color::Red);
        }
        if get_bit(self.mask, MASK_EMPHASISE_BLUE) {
            result.push(Color::Blue);
        }
        if get_bit(self.mask, MASK_EMPHASISE_GREEN) {
            result.push(Color::Green);
        }
        result
    }
}

/// The colours that mask bits 5 (red), 7 (blue) and 6 (green) emphasise, in
/// that order.
pub open spec fn emphasis_of(mask: u8) -> Seq<Color> {
    let r = if bit_of(mask, MASK_EMPHASISE_RED) {
        seq![Color::Red]
    } else {
        Seq::empty()
    };
    let b = if bit_of(mask, MASK_EMPHASISE_BLUE) {
        seq![Color::Blue]
    } else {
        Seq::empty()
    };
    let g = if bit_of(mask, MASK_EMPHASISE_GREEN) {
        seq![Color::Green]
    } else {
        Seq::empty()
    };
    r + b + g
}

} // verus!
