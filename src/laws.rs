//! Properties that hold of every state of the machine.
use vstd::prelude::*;
use crate::bus::{BusView, ppu_register};
use crate::cpu::CpuView;
use crate::latches::AddrRegister;
use crate::bits::bit_of;
use crate::ppu::{PpuView, palette_slot};
use vstd::arithmetic::div_mod::lemma_fundamental_div_mod_converse;

verus! {

/// Ticking a well-formed PPU by any number of cycles keeps the scanline in
/// 0..262 and the cycle in 0..341.
pub proof fn law_ppu_timing_bounds(p: PpuView, n: nat)
    requires
        p.wf(),
    ensures
        0 <= p.ticked(n).scanline < 262,
        0 <= p.ticked(n).cycle < 341,
{
    crate::ppu::lemma_ticked_wf(p, n);
}

/// After any read of $2002 or one of its mirrors, both the address latch and
/// the scroll latch expect their first write next.
pub proof fn law_status_read_resets_latches(b: BusView, a: u16)
    requires
        0x2000 <= a < 0x4000,
        ppu_register(a) == 0x2002,
    ensures
        b.after_read(a).ppu.addr.hi_ptr,
        !b.after_read(a).ppu.scroll.latch,
{
}

/// Pushing a byte and popping it back returns the byte and restores the
/// stack pointer; the rest of the registers are untouched.
pub proof fn law_push_pop_round_trip(c: CpuView, v: u8)
    requires
        c.wf(),
    ensures
        c.push(v).pop_value() == v,
        c.push(v).pop().regs == c.regs,
{
    reveal(CpuView::push);
    let a = (0x0100 + c.regs.sp) as u16;
    assert(c.push(v).top() == a);
    assert(a & 0x07FFu16 == a) by (bit_vector)
        requires
            0x0100 <= a <= 0x01FF,
    ;
}

/// RAM is mirrored every $0800 bytes through $1FFF: the four mirrors of a
/// cell read the same byte, and reading RAM changes nothing.
pub proof fn law_ram_mirroring(b: BusView, a: u16)
    requires
        a < 0x0800,
    ensures
        b.peek(a) == b.peek((a + 0x0800) as u16),
        b.peek(a) == b.peek((a + 0x1000) as u16),
        b.peek(a) == b.peek((a + 0x1800) as u16),
        b.after_read(a) == b,
        b.after_read((a + 0x0800) as u16) == b,
        b.after_read((a + 0x1000) as u16) == b,
        b.after_read((a + 0x1800) as u16) == b,
{
    assert(a < 0x0800u16 ==> ((a + 0x0800u16) as u16) & 0x07FFu16 == a & 0x07FFu16) by (bit_vector);
    assert(a < 0x0800u16 ==> ((a + 0x1000u16) as u16) & 0x07FFu16 == a & 0x07FFu16) by (bit_vector);
    assert(a < 0x0800u16 ==> ((a + 0x1800u16) as u16) & 0x07FFu16 == a & 0x07FFu16) by (bit_vector);
}

/// A $2007 write at $3F10 is seen by a $2007 read at $3F00, and a write at
/// $3F00 by a read at $3F10 (and likewise for $3F14/$3F04, $3F18/$3F08,
/// $3F1C/$3F0C).
pub proof fn law_palette_mirror(p: PpuView, v: u8, hi_ptr: bool)
    requires
        p.wf(),
    ensures
        ({
            let w = PpuView { addr: AddrRegister::from_value(0x3F10, hi_ptr), ..p }.after_data_write(v);
            PpuView { addr: AddrRegister::from_value(0x3F00, hi_ptr), ..w }.data_read_value() == v
        }),
        ({
            let w = PpuView { addr: AddrRegister::from_value(0x3F00, hi_ptr), ..p }.after_data_write(v);
            PpuView { addr: AddrRegister::from_value(0x3F10, hi_ptr), ..w }.data_read_value() == v
        }),
        palette_slot(0x3F10) == palette_slot(0x3F00),
        palette_slot(0x3F14) == palette_slot(0x3F04),
        palette_slot(0x3F18) == palette_slot(0x3F08),
        palette_slot(0x3F1C) == palette_slot(0x3F0C),
{
    crate::latches::lemma_from_value(0x3F10, hi_ptr);
    crate::latches::lemma_from_value(0x3F00, hi_ptr);
    assert(0x3F10u16 & 0x1Fu16 == 0x10u16) by (bit_vector);
    assert(0x3F00u16 & 0x1Fu16 == 0u16) by (bit_vector);
    assert(0x3F14u16 & 0x1Fu16 == 0x14u16) by (bit_vector);
    assert(0x3F04u16 & 0x1Fu16 == 0x04u16) by (bit_vector);
    assert(0x3F18u16 & 0x1Fu16 == 0x18u16) by (bit_vector);
    assert(0x3F08u16 & 0x1Fu16 == 0x08u16) by (bit_vector);
    assert(0x3F1Cu16 & 0x1Fu16 == 0x1Cu16) by (bit_vector);
    assert(0x3F0Cu16 & 0x1Fu16 == 0x0Cu16) by (bit_vector);
}

/// A 16-bit read is little-endian everywhere: the byte at `a` is the low
/// half and the byte at `a + 1` (wrapping) the high half. Where the first
/// read has a side effect ($2002, $2007, $4016 and their mirrors), the
/// second address reads the same whatever that effect was.
pub proof fn law_read_16_little_endian(b: BusView, a: u16)
    ensures
        b.word(a) == ((b.peek(a.wrapping_add(1)) as u16) << 8u16) | (b.peek(a) as u16),
{
    let n = a.wrapping_add(1);
    assert(0x2000u16 <= a && a < 0x4000u16 && a & 0x2007u16 == 0x2002u16 ==> (n < 0x4000u16
        && n >= 0x2000u16 && n & 0x2007u16 == 0x2003u16)) by (bit_vector)
        requires
            n == a.wrapping_add(1),
    ;
    assert(0x2000u16 <= a && a < 0x3FFFu16 && a & 0x2007u16 == 0x2007u16 ==> (n < 0x4000u16
        && n >= 0x2000u16 && n & 0x2007u16 == 0x2000u16)) by (bit_vector)
        requires
            n == a.wrapping_add(1),
    ;
    let lo = b.peek(a);
    let hi = b.after_read(a).peek(n);
    assert(hi == b.peek(n));
    crate::latches::lemma_value_of(hi, lo);
}

/// Where a PPU that starts a frame at scanline 0, cycle 0 with NMI
/// generation on, and is not polled, stands `n` cycles later within that
/// frame: scanline and cycle count the cycles; VBlank and the NMI latch are
/// set from the first cycle of scanline 241 on and not before.
pub open spec fn frame_position(p: PpuView, n: nat) -> bool {
    let q = p.ticked(n);
    &&& q.scanline == n / 341
    &&& q.cycle == n % 341
    &&& q.ctrl == p.ctrl
    &&& q.mask == p.mask
    &&& q.oam_data == p.oam_data
    &&& q.nmi_interrupt == if n >= 241 * 341 {
        Some(1u8)
    } else {
        None
    }
    &&& n >= 241 * 341 ==> bit_of(q.status, 7)
    &&& !p.frame_within(n)
}

proof fn lemma_frame_position(p: PpuView, n: nat)
    requires
        p.wf(),
        p.scanline == 0,
        p.cycle == 0,
        bit_of(p.ctrl, 7),
        p.nmi_interrupt.is_none(),
        n < 262 * 341,
    ensures
        frame_position(p, n),
    decreases n,
{
    if n == 0 {
        lemma_fundamental_div_mod_converse(0, 341, 0, 0);
    } else {
        let m = (n - 1) as nat;
        lemma_frame_position(p, m);
        crate::ppu::lemma_ticked_succ(p, m);
        crate::ppu::lemma_ticked_wf(p, m);
        let q = p.ticked(m);
        let st = if q.sprite_zero_hit_now() {
            crate::bits::with_bit(q.status, 6, true)
        } else {
            q.status
        };
        crate::bits::lemma_with_bit(q.status, 6, true);
        crate::bits::lemma_with_bit(st, 7, true);
        crate::bits::lemma_with_bit(crate::bits::with_bit(st, 7, true), 6, false);
        if q.cycle + 1 < 341 {
            lemma_fundamental_div_mod_converse(n as int, 341, (m / 341) as int, (m % 341 + 1) as int);
        } else {
            lemma_fundamental_div_mod_converse(n as int, 341, (m / 341 + 1) as int, 0);
            assert(m == 341 * (m / 341) + 340);
        }
    }
}

/// Started at scanline 0, cycle 0 with Ctrl bit 7 set and no NMI latched, a
/// PPU ticked by any count from 241 * 341 up to the end of the frame has
/// VBlank set and its NMI latched; the latch rose once, at the first cycle
/// of scanline 241, and was clear before.
pub proof fn law_vblank_nmi(p: PpuView, t: nat)
    requires
        p.wf(),
        p.scanline == 0,
        p.cycle == 0,
        bit_of(p.ctrl, 7),
        p.nmi_interrupt.is_none(),
        241 * 341 <= t < 262 * 341,
    ensures
        bit_of(p.ticked(t).status, 7),
        p.ticked(t).nmi_interrupt == Some(1u8),
        p.ticked((241 * 341 - 1) as nat).nmi_interrupt.is_none(),
        forall|n: nat| n < 241 * 341 ==> (#[trigger] p.ticked(n)).nmi_interrupt.is_none(),
        forall|n: nat| 241 * 341 <= n <= t ==> (#[trigger] p.ticked(n)).nmi_interrupt == Some(1u8),
{
    lemma_frame_position(p, t);
    lemma_frame_position(p, (241 * 341 - 1) as nat);
    assert forall|n: nat| n < 241 * 341 implies (#[trigger] p.ticked(n)).nmi_interrupt.is_none() by {
        lemma_frame_position(p, n);
    }
    assert forall|n: nat| 241 * 341 <= n <= t implies (#[trigger] p.ticked(n)).nmi_interrupt == Some(
        1u8,
    ) by {
        lemma_frame_position(p, n);
    }
}

} // verus!
