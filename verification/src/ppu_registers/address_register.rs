use vstd::prelude::*;

verus! {

/// Video-memory address register, written high byte then low byte under a
/// shared write toggle. The held address is always kept inside the 14-bit
/// video address space (high byte at most 0x3F).
#[derive(Clone, Copy, Debug, PartialEq, Eq, Structural)]
pub struct AddrRegister {
    pub hi: u8,
    pub lo: u8,
    pub hi_ptr: bool,
}

impl AddrRegister {
    pub open spec fn wf(&self) -> bool {
        self.hi <= 0x3F
    }

    pub open spec fn spec_get(&self) -> u16 {
        (((self.hi as u16) << 8) | (self.lo as u16)) as u16
    }

    /// The two-write update: the first write sets the high byte (folded into
    /// the 14-bit space), the second the low byte; the toggle flips each time.
    pub open spec fn update_m(s: AddrRegister, data: u8) -> AddrRegister {
        if s.hi_ptr {
            AddrRegister { hi: data & 0x3F, hi_ptr: false, ..s }
        } else {
            AddrRegister { lo: data, hi_ptr: true, ..s }
        }
    }

    /// Address auto-increment after a data-port access, wrapping inside the
    /// 14-bit video address space.
    pub open spec fn increment_m(s: AddrRegister, inc: u8) -> AddrRegister {
        let lo2 = vstd::wrapping::u8_specs::wrapping_add(s.lo, inc);
        let hi2 = if lo2 < s.lo {
            ((s.hi + 1) as u8) & 0x3F
        } else {
            s.hi
        };
        AddrRegister { hi: hi2, lo: lo2, ..s }
    }

    pub fn new() -> (r: AddrRegister)
        ensures
            r == (AddrRegister { hi: 0, lo: 0, hi_ptr: true }),
    {
        AddrRegister { hi: 0, lo: 0, hi_ptr: true }
    }

    pub fn get(&self) -> (r: u16)
        ensures
            r == self.spec_get(),
    {
        ((self.hi as u16) << 8) | (self.lo as u16)
    }

    pub fn update(&mut self, data: u8)
        ensures
            *final(self) == Self::update_m(*old(self), data),
            old(self).wf() ==> final(self).wf(),
    {
        proof {
            assert(forall|x: u8| #[trigger] (x & 0x3F) <= 0x3F) by (bit_vector);
        }
        if self.hi_ptr {
            self.hi = data & 0x3F;
        } else {
            self.lo = data;
        }
        self.hi_ptr = !self.hi_ptr;
    }

    pub fn increment(&mut self, inc: u8)
        requires
            old(self).wf(),
        ensures
            *final(self) == Self::increment_m(*old(self), inc),
            final(self).wf(),
    {
        proof {
            assert(forall|x: u8| #[trigger] (x & 0x3F) <= 0x3F) by (bit_vector);
        }
        let lo = self.lo;
        self.lo = self.lo.wrapping_add(inc);
        if self.lo < lo {
            self.hi = (self.hi + 1) & 0x3F;
        }
    }

    pub fn reset_latch(&mut self)
        ensures
            *final(self) == (AddrRegister { hi_ptr: true, ..*old(self) }),
    {
        self.hi_ptr = true;
    }
}

/// The held address never leaves the 14-bit video address space.
pub proof fn lemma_addr_in_range(r: AddrRegister)
    requires
        r.wf(),
    ensures
        r.spec_get() <= 0x3FFF,
{
    let hi = r.hi;
    let lo = r.lo;
    assert(hi <= 0x3F ==> (((hi as u16) << 8) | (lo as u16)) <= 0x3FFF) by (bit_vector);
}

} // verus!
