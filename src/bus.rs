//! The CPU's memory bus: decodes addresses onto RAM, the PPU registers, the
//! controller port and program ROM, and clocks the PPU.
use vstd::prelude::*;
use crate::cart::Cart;
use crate::joypad::Joypad;
use crate::ppu::{PPU, PpuView, zeroed};

verus! {

pub const RAM_SIZE: usize = 2048;

/// What the host asks for when it has handled a frame.
#[derive(Clone, Copy, Debug, PartialEq, Eq, Structural)]
pub enum GameloopAction {
    NoAction,
    SaveState,
    LoadState,
}

/// A fatal bus access.
#[derive(Clone, Copy, Debug, PartialEq, Eq, Structural)]
pub enum BusError {
    /// A write into cartridge ROM ($8000-$FFFF).
    WriteToRom,
}

/// The bus as mathematical values.
pub struct BusView {
    pub ram: Seq<u8>,
    pub prg_rom: Seq<u8>,
    pub ppu: PpuView,
    pub joypad: Joypad,
    pub cycles: u64,
    /// An NMI rising edge has been seen that the host has not yet taken.
    pub frame_ready: bool,
    /// The first fatal access, if any.
    pub fault: Option<BusError>,
}

/// The 16-bit value with low byte `lo` and high byte `hi`.
pub open spec fn join(lo: u8, hi: u8) -> u16 {
    (hi as int * 256 + lo as int) as u16
}

/// The PPU register that an address in $2000-$3FFF selects.
pub open spec fn ppu_register(a: u16) -> u16 {
    a & 0x2007u16
}

/// The RAM cell that an address in $0000-$1FFF selects.
pub open spec fn ram_slot(a: u16) -> int {
    (a & 0x07FFu16) as int
}

/// The offset into program ROM for an address in $8000-$FFFF: a 16 KiB ROM
/// appears twice.
pub open spec fn prg_offset(len: int, a: u16) -> int {
    let off = a as int - 0x8000;
    if len == 0x4000 && off >= 0x4000 {
        off % 0x4000
    } else {
        off
    }
}

impl BusView {
    pub open spec fn wf(self) -> bool {
        &&& self.ram.len() == 2048
        &&& self.ppu.wf()
        &&& self.joypad.wf()
    }

    /// The program ROM byte at `a`; 0 past the end of the ROM.
    pub open spec fn prg_byte(self, a: u16) -> u8 {
        let off = prg_offset(self.prg_rom.len() as int, a);
        if 0 <= off < self.prg_rom.len() {
            self.prg_rom[off]
        } else {
            0
        }
    }

    /// What a read of `a` returns.
    pub open spec fn peek(self, a: u16) -> u8 {
        if a < 0x2000 {
            self.ram[ram_slot(a)]
        } else if a < 0x4000 {
            let r = ppu_register(a);
            if r == 0x2002 {
                self.ppu.status
            } else if r == 0x2004 {
                self.ppu.oam_data[self.ppu.oam_addr as int]
            } else if r == 0x2007 {
                self.ppu.data_read_value()
            } else {
                0
            }
        } else if a == 0x4016 {
            self.joypad.read_value()
        } else if a >= 0x8000 {
            self.prg_byte(a)
        } else {
            0
        }
    }

    /// The bus after a read of `a`: reads of $2002, $2007 and $4016 change
    /// state, all others leave it alone.
    pub open spec fn after_read(self, a: u16) -> BusView {
        if 0x2000 <= a < 0x4000 && ppu_register(a) == 0x2002 {
            BusView { ppu: self.ppu.after_status_read(), ..self }
        } else if 0x2000 <= a < 0x4000 && ppu_register(a) == 0x2007 {
            BusView { ppu: self.ppu.after_data_read(), ..self }
        } else if a == 0x4016 {
            BusView { joypad: self.joypad.after_read(), ..self }
        } else {
            self
        }
    }

    /// The bus after the first `n` reads of an OAM DMA from `base`.
    pub open spec fn dma_state(self, base: u16, n: nat) -> BusView
        decreases n,
    {
        if n == 0 {
            self
        } else {
            self.dma_state(base, (n - 1) as nat).after_read((base + n - 1) as u16)
        }
    }

    /// The bytes that the first `n` reads of an OAM DMA from `base` return.
    pub open spec fn dma_bytes(self, base: u16, n: nat) -> Seq<u8>
        decreases n,
    {
        if n == 0 {
            Seq::empty()
        } else {
            self.dma_bytes(base, (n - 1) as nat).push(
                self.dma_state(base, (n - 1) as nat).peek((base + n - 1) as u16),
            )
        }
    }

    /// The little-endian word that reads of `a` and `a + 1` return.
    pub open spec fn word(self, a: u16) -> u16 {
        join(self.peek(a), self.after_read(a).peek(a.wrapping_add(1)))
    }

    /// The bus after the two reads of a word at `a`.
    pub open spec fn after_word(self, a: u16) -> BusView {
        self.after_read(a).after_read(a.wrapping_add(1))
    }

    /// The little-endian word at `a` and `a + 1` as seen without reading.
    pub open spec fn peek_word(self, a: u16) -> u16 {
        join(self.peek(a), self.peek(a.wrapping_add(1)))
    }

    /// The bus after `v` is written to the PPU register `r`.
    pub open spec fn after_ppu_write(self, r: u16, v: u8) -> BusView {
        let p = self.ppu;
        let p2 = if r == 0x2000 {
            p.after_ctrl_write(v)
        } else if r == 0x2001 {
            PpuView { mask: v, ..p }
        } else if r == 0x2003 {
            PpuView { oam_addr: v, ..p }
        } else if r == 0x2004 {
            p.after_oam_data_write(v)
        } else if r == 0x2005 {
            PpuView { scroll: p.scroll.after_write(v), ..p }
        } else if r == 0x2006 {
            PpuView { addr: p.addr.after_update(v), ..p }
        } else if r == 0x2007 {
            p.after_data_write(v)
        } else {
            p
        };
        BusView { ppu: p2, ..self }
    }

    /// The bus after `v` is written to `a`.
    pub open spec fn after_write(self, a: u16, v: u8) -> BusView {
        if a < 0x2000 {
            BusView { ram: self.ram.update(ram_slot(a), v), ..self }
        } else if a < 0x4000 {
            self.after_ppu_write(ppu_register(a), v)
        } else if a == 0x4014 {
            let base = (v as u16 * 256) as u16;
            let b = self.dma_state(base, 256);
            BusView { ppu: b.ppu.after_oam_dma(self.dma_bytes(base, 256)), ..b }
        } else if a == 0x4016 {
            BusView { joypad: self.joypad.after_write(v), ..self }
        } else if a >= 0x8000 {
            BusView {
                fault: if self.fault.is_none() {
                    Some(BusError::WriteToRom)
                } else {
                    self.fault
                },
                ..self
            }
        } else {
            self
        }
    }

    /// The bus after `n` CPU cycles: the PPU runs three cycles for each, and
    /// a rising edge of its NMI latch marks a frame as ready.
    pub open spec fn after_tick(self, n: u8) -> BusView {
        let p = self.ppu.ticked(3 * n as nat);
        BusView {
            cycles: self.cycles.wrapping_add(n as u64),
            ppu: p,
            frame_ready: self.frame_ready || (self.ppu.nmi_interrupt.is_none()
                && p.nmi_interrupt.is_some()),
            ..self
        }
    }
}

/// Reads and writes keep the bus well formed.
pub proof fn lemma_access_wf(b: BusView, a: u16, v: u8)
    requires
        b.wf(),
    ensures
        b.after_read(a).wf(),
        a != 0x4014 ==> b.after_write(a, v).wf(),
{
    crate::latches::lemma_addr_wf(b.ppu.addr, v, b.ppu.addr_step());
    let pa = b.ppu.addr.value();
    assert(a & 0x07FFu16 < 2048u16) by (bit_vector);
    assert(pa & 0x1Fu16 < 32u16) by (bit_vector);
}

/// DMA reads keep the bus well formed, and never touch program state other
/// than the PPU and the controller.
pub proof fn lemma_dma_state_wf(b: BusView, base: u16, n: nat)
    requires
        b.wf(),
    ensures
        b.dma_state(base, n).wf(),
        b.dma_state(base, n).ram == b.ram,
        b.dma_state(base, n).prg_rom == b.prg_rom,
        b.dma_state(base, n).cycles == b.cycles,
        b.dma_state(base, n).frame_ready == b.frame_ready,
        b.dma_state(base, n).fault == b.fault,
        b.dma_bytes(base, n).len() == n,
    decreases n,
{
    if n > 0 {
        lemma_dma_state_wf(b, base, (n - 1) as nat);
        lemma_access_wf(b.dma_state(base, (n - 1) as nat), (base + n - 1) as u16, 0);
    }
}

pub struct Bus {
    /// The console's 2 KiB of work RAM.
    pub vram: Vec<u8>,
    pub prg_rom: Vec<u8>,
    pub ppu: PPU,
    pub joypad: Joypad,
    pub cycles: u64,
    pub frame_ready: bool,
    pub fault: Option<BusError>,
}

impl View for Bus {
    type V = BusView;

    open spec fn view(&self) -> BusView {
        BusView {
            ram: self.vram@,
            prg_rom: self.prg_rom@,
            ppu: self.ppu@,
            joypad: self.joypad,
            cycles: self.cycles,
            frame_ready: self.frame_ready,
            fault: self.fault,
        }
    }
}

impl Bus {
    /// A bus around a freshly loaded cartridge.
    pub fn new(cart: Cart) -> (r: Bus)
        ensures
            r@.wf(),
            r@.ram == Seq::new(2048, |i: int| 0u8),
            r@.prg_rom == cart.prg_rom@,
            r@.ppu.chr_rom == cart.chr_rom@,
            r@.ppu.mirroring == cart.rom_header.screen_mirroring,
            r@.cycles == 0,
            !r@.frame_ready,
            r@.fault.is_none(),
            r@.ppu.scanline == 0 && r@.ppu.cycle == 0,
            r@.ppu.nmi_interrupt.is_none(),
            r@.ppu.ctrl == 0 && r@.ppu.mask == 0 && r@.ppu.status == 0,
            r@.joypad == Joypad::new_spec(),
    {
        let ppu = PPU::new(cart.chr_rom, cart.rom_header.screen_mirroring);
        Bus {
            vram: zeroed(RAM_SIZE),
            prg_rom: cart.prg_rom,
            ppu,
            joypad: Joypad::new(),
            cycles: 0,
            frame_ready: false,
            fault: None,
        }
    }

    fn read_prg_rom(&self, addr: u16) -> (r: u8)
        requires
            addr >= 0x8000,
        ensures
            r == self@.prg_byte(addr),
    {
        let mut off: u16 = addr - 0x8000;
        if self.prg_rom.len() == 0x4000 && off >= 0x4000 {
            off = off % 0x4000;
        }
        if (off as usize) < self.prg_rom.len() {
            self.prg_rom[off as usize]
        } else {
            0
        }
    }

    /// Reads one byte from the CPU's address space.
    pub fn read(&mut self, addr: u16) -> (r: u8)
        requires
            old(self)@.wf(),
        ensures
            r == old(self)@.peek(addr),
            final(self)@ == old(self)@.after_read(addr),
            final(self)@.wf(),
            final(self).cycles == old(self).cycles,
    {
        proof {
            lemma_access_wf(self@, addr, 0);
        }
        if addr < 0x2000 {
            let mirror_down_addr: u16 = addr & 0b0000_0111_1111_1111;
            assert(addr & 0x07FFu16 < 2048u16) by (bit_vector);
            self.vram[mirror_down_addr as usize]
        } else if addr < 0x4000 {
            let reg: u16 = addr & 0b0010_0000_0000_0111;
            if reg == 0x2002 {
                self.ppu.read_status()
            } else if reg == 0x2004 {
                self.ppu.read_oam_data()
            } else if reg == 0x2007 {
                self.ppu.read_data()
            } else {
                0
            }
        } else if addr == 0x4016 {
            self.joypad.read()
        } else if addr >= 0x8000 {
            self.read_prg_rom(addr)
        } else {
            0
        }
    }

    /// The byte a read of `addr` would return, without the read's side
    /// effects.
    pub fn peek(&self, addr: u16) -> (r: u8)
        requires
            self@.wf(),
        ensures
            r == self@.peek(addr),
    {
        if addr < 0x2000 {
            let mirror_down_addr: u16 = addr & 0b0000_0111_1111_1111;
            assert(addr & 0x07FFu16 < 2048u16) by (bit_vector);
            self.vram[mirror_down_addr as usize]
        } else if addr < 0x4000 {
            let reg: u16 = addr & 0b0010_0000_0000_0111;
            if reg == 0x2002 {
                self.ppu.status
            } else if reg == 0x2004 {
                self.ppu.read_oam_data()
            } else if reg == 0x2007 {
                self.ppu.peek_data()
            } else {
                0
            }
        } else if addr == 0x4016 {
            self.joypad.peek()
        } else if addr >= 0x8000 {
            self.read_prg_rom(addr)
        } else {
            0
        }
    }

    /// The little-endian word at `addr` as seen without reading.
    pub fn peek_16(&self, addr: u16) -> (r: u16)
        requires
            self@.wf(),
        ensures
            r == self@.peek_word(addr),
    {
        let lo = self.peek(addr);
        let hi = self.peek(addr.wrapping_add(1));
        proof {
            crate::latches::lemma_value_of(hi, lo);
        }
        ((hi as u16) << 8) | (lo as u16)
    }

    /// Writes one byte into the CPU's address space. A write into ROM is
    /// dropped and recorded as a fault.
    pub fn write(&mut self, addr: u16, value: u8)
        requires
            old(self)@.wf(),
        ensures
            final(self)@ == old(self)@.after_write(addr, value),
            final(self)@.wf(),
            final(self).cycles == old(self).cycles,
    {
        proof {
            lemma_access_wf(self@, addr, value);
        }
        if addr < 0x2000 {
            let mirror_down_addr: u16 = addr & 0b11111111111;
            assert(addr & 0x07FFu16 < 2048u16) by (bit_vector);
            self.vram.set(mirror_down_addr as usize, value);
        } else if addr < 0x4000 {
            let reg: u16 = addr & 0b0010_0000_0000_0111;
            if reg == 0x2000 {
                self.ppu.write_to_ctrl(value);
            } else if reg == 0x2001 {
                self.ppu.write_to_mask(value);
            } else if reg == 0x2003 {
                self.ppu.write_to_oam_addr(value);
            } else if reg == 0x2004 {
                self.ppu.write_to_oam_data(value);
            } else if reg == 0x2005 {
                self.ppu.write_to_scroll(value);
            } else if reg == 0x2006 {
                self.ppu.write_to_ppu_addr(value);
            } else if reg == 0x2007 {
                self.ppu.write_to_data(value);
            }
        } else if addr == 0x4014 {
            self.oam_dma(value);
        } else if addr == 0x4016 {
            self.joypad.write(value);
        } else if addr >= 0x8000 {
            if self.fault.is_none() {
                self.fault = Some(BusError::WriteToRom);
            }
        }
    }

    /// Copies page `page` ($XX00-$XXFF) into OAM through ordinary reads.
    fn oam_dma(&mut self, page: u8)
        requires
            old(self)@.wf(),
        ensures
            final(self)@ == old(self)@.after_write(0x4014, page),
            final(self)@.wf(),
            final(self).cycles == old(self).cycles,
    {
        let hi: u16 = (page as u16) << 8;
        assert(((page as u16) << 8u16) == (page as u16 * 256) as u16) by (bit_vector);
        let mut buffer: Vec<u8> = Vec::with_capacity(256);
        let mut i: u16 = 0;
        while i < 256
            invariant
                0 <= i <= 256,
                hi == (page as u16 * 256) as u16,
                self@ == old(self)@.dma_state(hi, i as nat),
                buffer@ == old(self)@.dma_bytes(hi, i as nat),
                self@.wf(),
                old(self)@.wf(),
            decreases 256 - i,
        {
            proof {
                lemma_dma_state_wf(old(self)@, hi, i as nat);
            }
            let b = self.read(hi.wrapping_add(i));
            assert(hi.wrapping_add(i) == (hi + (i + 1) as nat - 1) as u16);
            buffer.push(b);
            i = i + 1;
        }
        proof {
            lemma_dma_state_wf(old(self)@, hi, 256);
        }
        self.ppu.write_oam_dma(&buffer);
    }

    /// Reads a little-endian word: low byte at `addr`, high byte at `addr + 1`
    /// (wrapping at $FFFF).
    pub fn read_16(&mut self, addr: u16) -> (r: u16)
        requires
            old(self)@.wf(),
        ensures
            r == old(self)@.word(addr),
            final(self)@ == old(self)@.after_word(addr),
            final(self)@.wf(),
            final(self).cycles == old(self).cycles,
    {
        let lo = self.read(addr) as u16;
        let hi = self.read(addr.wrapping_add(1)) as u16;
        proof {
            crate::latches::lemma_value_of(hi as u8, lo as u8);
        }
        (hi << 8) | lo
    }

    /// Writes a little-endian word.
    pub fn write_16(&mut self, addr: u16, value: u16)
        requires
            old(self)@.wf(),
        ensures
            final(self)@ == old(self)@.after_write(addr, (value & 0xFF) as u8).after_write(
                addr.wrapping_add(1),
                (value >> 8) as u8,
            ),
            final(self)@.wf(),
    {
        let hi = (value >> 8) as u8;
        let lo = (value & 0xff) as u8;
        self.write(addr, lo);
        self.write(addr.wrapping_add(1), hi);
    }

    /// Advances the CPU cycle counter by `cycles` and the PPU by three times
    /// as many of its own cycles; a rising edge of the PPU's NMI latch marks
    /// a frame as ready for the host.
    pub fn tick(&mut self, cycles: u8)
        requires
            old(self)@.wf(),
        ensures
            final(self)@ == old(self)@.after_tick(cycles),
            final(self)@.wf(),
    {
        self.cycles = self.cycles.wrapping_add(cycles as u64);
        let nmi_before = self.ppu.nmi_interrupt.is_some();
        self.ppu.tick(3 * cycles as u32);
        let nmi_after = self.ppu.nmi_interrupt.is_some();
        if !nmi_before && nmi_after {
            self.frame_ready = true;
        }
    }

    /// Hands out the PPU's latched NMI, if any.
    pub fn poll_nmi_status(&mut self) -> (r: Option<u8>)
        ensures
            r == old(self)@.ppu.nmi_interrupt,
            final(self)@ == (BusView {
                ppu: PpuView { nmi_interrupt: None, ..old(self)@.ppu },
                ..old(self)@
            }),
    {
        self.ppu.poll_nmi_interrupt()
    }

    /// Reports and clears a pending frame.
    pub fn take_frame(&mut self) -> (r: bool)
        ensures
            r == old(self)@.frame_ready,
            final(self)@ == (BusView { frame_ready: false, ..old(self)@ }),
    {
        let r = self.frame_ready;
        self.frame_ready = false;
        r
    }
}

} // verus!
