use vstd::prelude::*;

verus! {

/// Scroll register: two sequential writes set the horizontal then the
/// vertical scroll position, tracked by a write toggle that the status-read
/// side effect resets.
#[derive(Clone, Copy, Debug, PartialEq, Eq, Structural)]
pub struct ScrollRegister {
    pub scroll_x: u8,
    pub scroll_y: u8,
    pub w_latch: bool,
}

impl ScrollRegister {
    pub open spec fn write_m(s: ScrollRegister, data: u8) -> ScrollRegister {
        if !s.w_latch {
            ScrollRegister { scroll_x: data, w_latch: true, ..s }
        } else {
            ScrollRegister { scroll_y: data, w_latch: false, ..s }
        }
    }

    pub fn new() -> (r: ScrollRegister)
        ensures
            r == (ScrollRegister { scroll_x: 0, scroll_y: 0, w_latch: false }),
    {
        ScrollRegister { scroll_x: 0, scroll_y: 0, w_latch: false }
    }

    pub fn reset_latch(&mut self)
        ensures
            *final(self) == (ScrollRegister { w_latch: false, ..*old(self) }),
    {
        self.w_latch = false;
    }

    pub fn write(&mut self, data: u8)
        ensures
            *final(self) == Self::write_m(*old(self), data),
    {
        if !self.w_latch {
            self.scroll_x = data;
        } else {
            self.scroll_y = data;
        }
        self.w_latch = !self.w_latch;
    }
}

} // verus!
