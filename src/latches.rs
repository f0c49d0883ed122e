//! The PPU's two-write registers: the VRAM address ($2006) and the scroll
//! position ($2005).
use vstd::prelude::*;

verus! {

/// The VRAM address latch: the first write sets the high byte, the second the
/// low byte.
#[derive(Clone, Copy, Debug, PartialEq, Eq, Structural)]
pub struct AddrRegister {
    pub hi: u8,
    pub lo: u8,
    /// Whether the next write goes to the high byte.
    pub hi_ptr: bool,
}

impl AddrRegister {
    /// The 16-bit address held.
    pub open spec fn value(self) -> u16 {
        ((self.hi as u16) << 8u16) | (self.lo as u16)
    }

    /// The register holding `v`, with toggle `hi_ptr`.
    pub open spec fn from_value(v: u16, hi_ptr: bool) -> AddrRegister {
        AddrRegister { hi: (v >> 8u16) as u8, lo: (v & 0xFFu16) as u8, hi_ptr }
    }

    /// The register after `data` is written to it.
    pub open spec fn after_update(self, data: u8) -> AddrRegister {
        let raw = if self.hi_ptr {
            AddrRegister { hi: data, ..self }
        } else {
            AddrRegister { lo: data, ..self }
        };
        AddrRegister::from_value(raw.value() & 0x3FFFu16, !self.hi_ptr)
    }

    /// The register after the address is advanced by `inc`, wrapping within
    /// the 14-bit VRAM address space.
    pub open spec fn after_increment(self, inc: u8) -> AddrRegister {
        AddrRegister::from_value(
            ((self.value() as int + inc) % 0x4000) as u16,
            self.hi_ptr,
        )
    }

    pub open spec fn wf(self) -> bool {
        self.value() <= 0x3FFF
    }

    pub fn new() -> (r: AddrRegister)
        ensures
            r.value() == 0,
            r.hi_ptr,
            r.wf(),
    {
        let r = AddrRegister { hi: 0, lo: 0, hi_ptr: true };
        proof {
            lemma_value_of(0, 0);
        }
        r
    }

    fn set(&mut self, data: u16)
        ensures
            *final(self) == AddrRegister::from_value(data, old(self).hi_ptr),
    {
        self.hi = (data >> 8) as u8;
        self.lo = (data & 0xff) as u8;
    }

    /// Writes one byte: high byte first, then low; the address is masked to
    /// 14 bits and the toggle flips.
    pub fn update(&mut self, data: u8)
        ensures
            *final(self) == old(self).after_update(data),
            final(self).wf(),
            final(self).hi_ptr == !old(self).hi_ptr,
    {
        if self.hi_ptr {
            self.hi = data;
        } else {
            self.lo = data;
        }
        let g = self.get();
        let v = g & 0x3FFF;
        assert(g & 0x3FFFu16 <= 0x3FFFu16) by (bit_vector);
        self.set(v);
        self.hi_ptr = !self.hi_ptr;
        proof {
            lemma_from_value(v, self.hi_ptr);
        }
    }

    /// Advances the address by `inc`.
    pub fn increment(&mut self, inc: u8)
        requires
            old(self).wf(),
        ensures
            *final(self) == old(self).after_increment(inc),
            final(self).wf(),
    {
        let v0 = self.get();
        let s: u16 = v0 + inc as u16;
        let v: u16 = s & 0x3FFF;
        assert(s & 0x3FFFu16 == s % 0x4000u16) by (bit_vector);
        self.set(v);
        proof {
            lemma_from_value(v, self.hi_ptr);
        }
    }

    /// The next write goes to the high byte.
    pub fn reset_latch(&mut self)
        ensures
            *final(self) == (AddrRegister { hi_ptr: true, ..*old(self) }),
    {
        self.hi_ptr = true;
    }

    pub fn get(&self) -> (r: u16)
        ensures
            r == self.value(),
    {
        ((self.hi as u16) << 8) | (self.lo as u16)
    }
}

/// The address held is `hi * 256 + lo`.
pub proof fn lemma_value_of(hi: u8, lo: u8)
    ensures
        ((hi as u16) << 8u16) | (lo as u16) == hi as int * 256 + lo,
{
    assert(((hi as u16) << 8u16) | (lo as u16) == hi as u16 * 256 + lo as u16) by (bit_vector);
}

/// Splitting a 16-bit value into bytes and joining them again is the identity.
pub proof fn lemma_from_value(v: u16, hi_ptr: bool)
    ensures
        AddrRegister::from_value(v, hi_ptr).value() == v,
{
    let r = AddrRegister::from_value(v, hi_ptr);
    assert(((((v >> 8u16) as u8) as u16) << 8u16) | (((v & 0xFFu16) as u8) as u16) == v)
        by (bit_vector);
}

/// Writes and increments keep the address within 14 bits.
pub proof fn lemma_addr_wf(r: AddrRegister, data: u8, inc: u8)
    ensures
        r.after_update(data).wf(),
        r.after_increment(inc).wf(),
        (AddrRegister { hi_ptr: true, ..r }).value() == r.value(),
{
    let raw = if r.hi_ptr {
        AddrRegister { hi: data, ..r }
    } else {
        AddrRegister { lo: data, ..r }
    };
    let rv = raw.value();
    let m = rv & 0x3FFFu16;
    assert(rv & 0x3FFFu16 <= 0x3FFFu16) by (bit_vector);
    lemma_from_value(m, !r.hi_ptr);
    lemma_from_value(((r.value() as int + inc) % 0x4000) as u16, r.hi_ptr);
}

/// The scroll latch: the first write is the X scroll, the second the Y scroll.
#[derive(Clone, Copy, Debug, PartialEq, Eq, Structural)]
pub struct ScrollRegister {
    pub scroll_x: u8,
    pub scroll_y: u8,
    /// Whether the next write goes to Y.
    pub latch: bool,
}

impl ScrollRegister {
    pub open spec fn after_write(self, data: u8) -> ScrollRegister {
        if !self.latch {
            ScrollRegister { scroll_x: data, latch: true, ..self }
        } else {
            ScrollRegister { scroll_y: data, latch: false, ..self }
        }
    }

    pub fn new() -> (r: ScrollRegister)
        ensures
            r == (ScrollRegister { scroll_x: 0, scroll_y: 0, latch: false }),
    {
        ScrollRegister { scroll_x: 0, scroll_y: 0, latch: false }
    }

    pub fn write(&mut self, data: u8)
        ensures
            *final(self) == old(self).after_write(data),
    {
        if !self.latch {
            self.scroll_x = data;
        } else {
            self.scroll_y = data;
        }
        self.latch = !self.latch;
    }

    /// The next write goes to X.
    pub fn reset_latch(&mut self)
        ensures
            *final(self) == (ScrollRegister { latch: false, ..*old(self) }),
    {
        self.latch = false;
    }
}

} // verus!
