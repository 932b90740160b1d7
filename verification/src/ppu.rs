use vstd::prelude::*;
use crate::ppu_registers::address_register::AddrRegister;
use crate::ppu_registers::control_register::ControlRegister;
use crate::ppu_registers::mask_register::MaskRegister;
use crate::ppu_registers::scroll_register::ScrollRegister;
use crate::ppu_registers::status_register::StatusRegister;
use crate::ppu_registers::status_register::STATUS_SPRITE_ZERO_HIT;
use crate::ppu_registers::status_register::STATUS_VBLANK;
use crate::rom::Mirroring;

verus! {

/// A vector of `len` zero bytes.
pub fn zeroed(len: usize) -> (r: Vec<u8>)
    ensures
        r@ == Seq::new(len as nat, |i: int| 0u8),
{
    let mut v: Vec<u8> = Vec::new();
    let mut i: usize = 0;
    while i < len
        invariant
            i <= len,
            v@.len() == i,
            forall|j: int| 0 <= j < i ==> v@[j] == 0u8,
        decreases len - i,
    {
        v.push(0);
        i = i + 1;
    }
    proof {
        assert(v@ =~= Seq::new(len as nat, |i: int| 0u8));
    }
    v
}

/// Diagnostic counter increment that cannot overflow: it sticks at the top.
pub open spec fn spec_bump(c: u64) -> u64 {
    if c == u64::MAX {
        c
    } else {
        (c + 1) as u64
    }
}

pub fn bump(c: u64) -> (r: u64)
    ensures
        r == spec_bump(c),
{
    if c == u64::MAX {
        c
    } else {
        c + 1
    }
}

/// Abstract state of the picture unit: pattern-table bytes from the
/// cartridge, nametable RAM, palette RAM, sprite memory, the five registers,
/// the read buffer, the scanline/cycle counters and the interrupt line. The
/// fault counter records rejected or unmapped data-port accesses.
#[verifier::ext_equal]
pub struct PpuV {
    pub chr_rom: Seq<u8>,
    pub palette_table: Seq<u8>,
    pub vram: Seq<u8>,
    pub oam_data: Seq<u8>,
    pub mirroring: Mirroring,
    pub ctrl: ControlRegister,
    pub mask: MaskRegister,
    pub status: StatusRegister,
    pub scroll: ScrollRegister,
    pub addr: AddrRegister,
    pub oam_addr: u8,
    pub nmi_interrupt: Option<u8>,
    pub scanline: u16,
    pub cycles: u16,
    pub internal_data_buf: u8,
    pub faults: u64,
}

impl PpuV {
    pub open spec fn wf(self) -> bool {
        &&& self.vram.len() == 2048
        &&& self.palette_table.len() == 32
        &&& self.oam_data.len() == 256
        &&& self.addr.wf()
        &&& self.cycles < 341
        &&& self.scanline <= 261
    }
}

/// Picture unit. Field layout matches `PpuV`; the executable methods are
/// each proved equal to the specification-level transition of the same name.
pub struct NesPPU {
    pub chr_rom: Vec<u8>,
    pub palette_table: Vec<u8>,
    pub vram: Vec<u8>,
    pub oam_data: Vec<u8>,
    pub mirroring: Mirroring,
    pub ctrl: ControlRegister,
    pub mask: MaskRegister,
    pub status: StatusRegister,
    pub scroll: ScrollRegister,
    pub addr: AddrRegister,
    pub oam_addr: u8,
    pub nmi_interrupt: Option<u8>,
    pub scanline: u16,
    pub cycles: u16,
    pub internal_data_buf: u8,
    pub faults: u64,
}

impl View for NesPPU {
    type V = PpuV;

    open spec fn view(&self) -> PpuV {
        PpuV {
            chr_rom: self.chr_rom@,
            palette_table: self.palette_table@,
            vram: self.vram@,
            oam_data: self.oam_data@,
            mirroring: self.mirroring,
            ctrl: self.ctrl,
            mask: self.mask,
            status: self.status,
            scroll: self.scroll,
            addr: self.addr,
            oam_addr: self.oam_addr,
            nmi_interrupt: self.nmi_interrupt,
            scanline: self.scanline,
            cycles: self.cycles,
            internal_data_buf: self.internal_data_buf,
            faults: self.faults,
        }
    }
}

impl NesPPU {
    pub open spec fn new_m(chr_rom: Seq<u8>, mirroring: Mirroring) -> PpuV {
        PpuV {
            chr_rom,
            palette_table: Seq::new(32, |i: int| 0u8),
            vram: Seq::new(2048, |i: int| 0u8),
            oam_data: Seq::new(256, |i: int| 0u8),
            mirroring,
            ctrl: ControlRegister { bits: 0 },
            mask: MaskRegister { bits: 0 },
            status: StatusRegister { bits: 0 },
            scroll: ScrollRegister { scroll_x: 0, scroll_y: 0, w_latch: false },
            addr: AddrRegister { hi: 0, lo: 0, hi_ptr: true },
            oam_addr: 0,
            nmi_interrupt: None,
            scanline: 0,
            cycles: 0,
            internal_data_buf: 0,
            faults: 0,
        }
    }

    /// Fold a raw nametable address into the 2 KiB of physical nametable RAM
    /// under the cartridge's mirroring: vertical folds tables {0,2} and
    /// {1,3}; horizontal folds {0,1} and {2,3}.
    pub open spec fn mirror_vram_m(mirroring: Mirroring, addr: u16) -> u16 {
        let mirrored = addr & 0b10_1111_1111_1111;
        let vram_index = (mirrored - 0x2000) as u16;
        let name_table = vram_index / 0x400;
        if mirroring == Mirroring::VERTICAL && (name_table == 2 || name_table == 3) {
            (vram_index - 0x800) as u16
        } else if mirroring == Mirroring::HORIZONTAL && (name_table == 1 || name_table == 2) {
            (vram_index - 0x400) as u16
        } else if mirroring == Mirroring::HORIZONTAL && name_table == 3 {
            (vram_index - 0x800) as u16
        } else {
            vram_index
        }
    }

    /// The palette index for a data-port address in the palette window,
    /// folded to the 32 bytes of palette RAM with the backdrop aliases
    /// 0x10/0x14/0x18/0x1C mapped down to 0x00/0x04/0x08/0x0C.
    pub open spec fn palette_index_m(addr: u16) -> u16 {
        let idx = (addr - 0x3F00) as u16 % 0x20;
        if idx == 0x10 || idx == 0x14 || idx == 0x18 || idx == 0x1C {
            (idx - 0x10) as u16
        } else {
            idx
        }
    }

    pub open spec fn increment_vram_addr_m(p: PpuV) -> PpuV {
        PpuV { addr: AddrRegister::increment_m(p.addr, p.ctrl.spec_vram_addr_increment()), ..p }
    }

    /// Data-port write: pattern-table space is read-only (rejected and
    /// counted), nametable space goes through the mirroring fold, the
    /// palette window takes the backdrop aliases, and the gap below the
    /// palette is unmapped (counted). The address then auto-increments.
    pub open spec fn write_to_data_m(p: PpuV, value: u8) -> PpuV {
        let addr = p.addr.spec_get();
        let p2 = if addr <= 0x1FFF {
            PpuV { faults: spec_bump(p.faults), ..p }
        } else if addr <= 0x2FFF {
            PpuV { vram: p.vram.update(Self::mirror_vram_m(p.mirroring, addr) as int, value), ..p }
        } else if addr <= 0x3EFF {
            PpuV { faults: spec_bump(p.faults), ..p }
        } else {
            PpuV { palette_table: p.palette_table.update(Self::palette_index_m(addr) as int, value), ..p }
        };
        Self::increment_vram_addr_m(p2)
    }

    /// Data-port read: pattern-table and nametable reads return the previous
    /// buffer contents and refill the buffer (one-read latency); palette
    /// reads bypass the buffer; the unmapped gap reads as zero (counted).
    /// The address auto-increments on every read.
    pub open spec fn read_data_m(p: PpuV) -> (u8, PpuV) {
        let addr = p.addr.spec_get();
        let p1 = Self::increment_vram_addr_m(p);
        if addr <= 0x1FFF {
            let fill = if addr < p.chr_rom.len() {
                p.chr_rom[addr as int]
            } else {
                0u8
            };
            let faults = if addr < p.chr_rom.len() {
                p.faults
            } else {
                spec_bump(p.faults)
            };
            (p.internal_data_buf, PpuV { internal_data_buf: fill, faults, ..p1 })
        } else if addr <= 0x2FFF {
            (
                p.internal_data_buf,
                PpuV { internal_data_buf: p.vram[Self::mirror_vram_m(p.mirroring, addr) as int], ..p1 },
            )
        } else if addr <= 0x3EFF {
            (0u8, PpuV { faults: spec_bump(p.faults), ..p1 })
        } else {
            (p.palette_table[Self::palette_index_m(addr) as int], p1)
        }
    }

    /// Status read returns the current flags, then clears the vblank flag
    /// and resets the write toggles shared by the address and scroll
    /// registers.
    pub open spec fn read_status_m(p: PpuV) -> (u8, PpuV) {
        (
            p.status.bits,
            PpuV {
                status: StatusRegister { bits: p.status.bits & !STATUS_VBLANK },
                addr: AddrRegister { hi_ptr: true, ..p.addr },
                scroll: ScrollRegister { w_latch: false, ..p.scroll },
                ..p
            },
        )
    }

    /// Control write: if vblank-interrupt generation turns on while the
    /// vblank flag is already set, the interrupt is raised immediately.
    pub open spec fn write_to_ctrl_m(p: PpuV, value: u8) -> PpuV {
        let before = p.ctrl.spec_generate_vblank_nmi();
        let ctrl = ControlRegister { bits: value };
        let nmi = if !before && ctrl.spec_generate_vblank_nmi() && p.status.spec_is_in_vblank() {
            Some(1u8)
        } else {
            p.nmi_interrupt
        };
        PpuV { ctrl, nmi_interrupt: nmi, ..p }
    }

    pub open spec fn write_to_oam_data_m(p: PpuV, value: u8) -> PpuV {
        PpuV {
            oam_data: p.oam_data.update(p.oam_addr as int, value),
            oam_addr: vstd::wrapping::u8_specs::wrapping_add(p.oam_addr, 1),
            ..p
        }
    }

    /// One batch of pixel-clock ticks: at 341 cycles the scanline advances;
    /// entering scanline 241 sets vblank (raising the interrupt when
    /// enabled); entering scanline 262 resets to scanline 0, clears the
    /// flags and the interrupt, and reports the frame complete.
    pub open spec fn tick_m(p: PpuV, cycles: u8) -> (PpuV, bool) {
        if p.cycles + cycles < 341 {
            (PpuV { cycles: (p.cycles + cycles) as u16, ..p }, false)
        } else {
            let c = (p.cycles + cycles - 341) as u16;
            let sl = (p.scanline + 1) as u16;
            if sl == 241 {
                let nmi = if p.ctrl.spec_generate_vblank_nmi() {
                    Some(1u8)
                } else {
                    p.nmi_interrupt
                };
                (
                    PpuV {
                        cycles: c,
                        scanline: 241,
                        status: StatusRegister {
                            bits: (p.status.bits | STATUS_VBLANK)
                                & !crate::ppu_registers::status_register::STATUS_SPRITE_ZERO_HIT,
                        },
                        nmi_interrupt: nmi,
                        ..p
                    },
                    false,
                )
            } else if sl >= 262 {
                (
                    PpuV {
                        cycles: c,
                        scanline: 0,
                        nmi_interrupt: None,
                        status: StatusRegister {
                            bits: (p.status.bits
                                & !crate::ppu_registers::status_register::STATUS_SPRITE_ZERO_HIT)
                                & !STATUS_VBLANK,
                        },
                        ..p
                    },
                    true,
                )
            } else {
                (PpuV { cycles: c, scanline: sl, ..p }, false)
            }
        }
    }

    pub fn new(chr_rom: Vec<u8>, mirroring: Mirroring) -> (r: NesPPU)
        ensures
            r@ == Self::new_m(chr_rom@, mirroring),
            r@.wf(),
    {
        let p = NesPPU {
            chr_rom,
            mirroring,
            vram: zeroed(2048),
            oam_data: zeroed(256),
            palette_table: zeroed(32),
            oam_addr: 0,
            ctrl: ControlRegister::new(),
            addr: AddrRegister::new(),
            status: StatusRegister::new(),
            scroll: ScrollRegister::new(),
            mask: MaskRegister::new(),
            scanline: 0,
            cycles: 0,
            internal_data_buf: 0,
            nmi_interrupt: None,
            faults: 0,
        };
        proof {
            assert(p@ =~= Self::new_m(p.chr_rom@, mirroring));
        }
        p
    }

    pub fn new_empty_rom() -> (r: NesPPU)
        ensures
            r@ == Self::new_m(Seq::new(2048, |i: int| 0u8), Mirroring::HORIZONTAL),
            r@.wf(),
    {
        NesPPU::new(zeroed(2048), Mirroring::HORIZONTAL)
    }

    fn increment_vram_addr(&mut self)
        requires
            old(self)@.wf(),
        ensures
            final(self)@ == Self::increment_vram_addr_m(old(self)@),
            final(self)@.wf(),
    {
        let step = self.ctrl.vram_addr_increment();
        self.addr.increment(step);
        proof {
            assert(self@ =~= Self::increment_vram_addr_m(old(self)@));
        }
    }

    fn increment_oam_addr(&mut self)
        ensures
            final(self)@ == (PpuV {
                oam_addr: vstd::wrapping::u8_specs::wrapping_add(old(self).oam_addr, 1),
                ..old(self)@
            }),
    {
        self.oam_addr = self.oam_addr.wrapping_add(1);
        proof {
            assert(self@ =~= (PpuV {
                oam_addr: vstd::wrapping::u8_specs::wrapping_add(old(self).oam_addr, 1),
                ..old(self)@
            }));
        }
    }

    /// Accumulate pixel clocks and report whether this batch completed a
    /// frame. With a well-formed state and a batch of at most 255 cycles, at
    /// most one scanline boundary is crossed.
    pub fn tick(&mut self, cycles: u8) -> (frame_complete: bool)
        requires
            old(self)@.wf(),
        ensures
            (final(self)@, frame_complete) == Self::tick_m(old(self)@, cycles),
            final(self)@.wf(),
    {
        self.cycles = self.cycles + cycles as u16;
        if self.cycles >= 341 {
            self.cycles = self.cycles - 341;
            self.scanline = self.scanline + 1;

            if self.scanline == 241 {
                self.status.set_vblank_status(true);
                self.status.set_sprite_zero_hit_status(false);
                if self.ctrl.generate_vblank_nmi() {
                    self.nmi_interrupt = Some(1);
                }
                proof {
                    assert((self@, false) =~= Self::tick_m(old(self)@, cycles));
                }
                return false;
            }

            if self.scanline >= 262 {
                self.scanline = 0;
                self.nmi_interrupt = None;
                self.status.set_sprite_zero_hit_status(false);
                self.status.reset_vblank_status();
                proof {
                    assert((self@, true) =~= Self::tick_m(old(self)@, cycles));
                }
                return true;
            }
            proof {
                assert((self@, false) =~= Self::tick_m(old(self)@, cycles));
            }
            return false;
        }
        proof {
            assert((self@, false) =~= Self::tick_m(old(self)@, cycles));
        }
        false
    }

    pub fn write_to_ppu_addr(&mut self, value: u8)
        ensures
            final(self)@ == (PpuV { addr: AddrRegister::update_m(old(self).addr, value), ..old(self)@ }),
            old(self)@.wf() ==> final(self)@.wf(),
    {
        self.addr.update(value);
        proof {
            assert(self@ =~= (PpuV { addr: AddrRegister::update_m(old(self).addr, value), ..old(self)@ }));
        }
    }

    /// Enabling the vblank interrupt while the vblank flag is set raises the
    /// interrupt immediately, without waiting for the next vblank entry.
    pub fn write_to_ctrl(&mut self, value: u8)
        ensures
            final(self)@ == Self::write_to_ctrl_m(old(self)@, value),
            old(self)@.wf() ==> final(self)@.wf(),
            !old(self).ctrl.spec_generate_vblank_nmi()
                && (value & crate::ppu_registers::control_register::CTRL_GENERATE_NMI != 0)
                && old(self).status.spec_is_in_vblank() ==> final(self).nmi_interrupt == Some(1u8),
    {
        let before_nmi_status = self.ctrl.generate_vblank_nmi();
        self.ctrl.update(value);
        if !before_nmi_status && self.ctrl.generate_vblank_nmi() && self.status.is_in_vblank() {
            self.nmi_interrupt = Some(1);
        }
        proof {
            assert(self@ =~= Self::write_to_ctrl_m(old(self)@, value));
        }
    }

    /// The mirroring fold always lands inside the 2 KiB of nametable RAM.
    pub fn mirror_vram_addr(&self, addr: u16) -> (r: u16)
        requires
            0x2000 <= addr <= 0x3EFF,
        ensures
            r == Self::mirror_vram_m(self.mirroring, addr),
            r < 2048,
    {
        proof {
            assert(0x2000 <= (addr & 0b10_1111_1111_1111) <= 0x2FFF) by (bit_vector)
                requires
                    0x2000 <= addr <= 0x3EFF,
            ;
        }
        let mirrored_vram = addr & 0b10_1111_1111_1111;
        let vram_index = mirrored_vram - 0x2000;
        let name_table = vram_index / 0x400;
        if self.mirroring == Mirroring::VERTICAL && (name_table == 2 || name_table == 3) {
            vram_index - 0x800
        } else if self.mirroring == Mirroring::HORIZONTAL && (name_table == 1 || name_table == 2) {
            vram_index - 0x400
        } else if self.mirroring == Mirroring::HORIZONTAL && name_table == 3 {
            vram_index - 0x800
        } else {
            vram_index
        }
    }

    pub fn write_to_data(&mut self, value: u8)
        requires
            old(self)@.wf(),
        ensures
            final(self)@ == Self::write_to_data_m(old(self)@, value),
            final(self)@.wf(),
    {
        let addr = self.addr.get();
        proof {
            crate::ppu_registers::address_register::lemma_addr_in_range(self.addr);
        }
        if addr <= 0x1FFF {
            self.faults = bump(self.faults);
        } else if addr <= 0x2FFF {
            let idx = self.mirror_vram_addr(addr);
            self.vram.set(idx as usize, value);
        } else if addr <= 0x3EFF {
            self.faults = bump(self.faults);
        } else {
            let idx = (addr - 0x3F00) % 0x20;
            let idx = if idx == 0x10 || idx == 0x14 || idx == 0x18 || idx == 0x1C {
                idx - 0x10
            } else {
                idx
            };
            self.palette_table.set(idx as usize, value);
        }
        self.increment_vram_addr();
        proof {
            assert(self@ =~= Self::write_to_data_m(old(self)@, value));
        }
    }

    pub fn read_data(&mut self) -> (r: u8)
        requires
            old(self)@.wf(),
        ensures
            (r, final(self)@) == Self::read_data_m(old(self)@),
            final(self)@.wf(),
    {
        let addr = self.addr.get();
        proof {
            crate::ppu_registers::address_register::lemma_addr_in_range(self.addr);
        }
        self.increment_vram_addr();

        if addr <= 0x1FFF {
            let result = self.internal_data_buf;
            if (addr as usize) < self.chr_rom.len() {
                self.internal_data_buf = self.chr_rom[addr as usize];
            } else {
                self.internal_data_buf = 0;
                self.faults = bump(self.faults);
            }
            proof {
                assert((result, self@) =~= Self::read_data_m(old(self)@));
            }
            result
        } else if addr <= 0x2FFF {
            let result = self.internal_data_buf;
            let idx = self.mirror_vram_addr(addr);
            self.internal_data_buf = self.vram[idx as usize];
            proof {
                assert((result, self@) =~= Self::read_data_m(old(self)@));
            }
            result
        } else if addr <= 0x3EFF {
            self.faults = bump(self.faults);
            proof {
                assert((0u8, self@) =~= Self::read_data_m(old(self)@));
            }
            0
        } else {
            let idx = (addr - 0x3F00) % 0x20;
            let idx = if idx == 0x10 || idx == 0x14 || idx == 0x18 || idx == 0x1C {
                idx - 0x10
            } else {
                idx
            };
            let result = self.palette_table[idx as usize];
            proof {
                assert((result, self@) =~= Self::read_data_m(old(self)@));
            }
            result
        }
    }

    /// Reading the status register clears the vblank flag and resets both
    /// write toggles.
    pub fn read_status(&mut self) -> (r: u8)
        ensures
            (r, final(self)@) == Self::read_status_m(old(self)@),
            old(self)@.wf() ==> final(self)@.wf(),
    {
        let data = self.status.snapshot();
        self.status.reset_vblank_status();
        self.addr.reset_latch();
        self.scroll.reset_latch();
        proof {
            assert((data, self@) =~= Self::read_status_m(old(self)@));
        }
        data
    }

    pub fn write_to_oam_addr(&mut self, value: u8)
        ensures
            final(self)@ == (PpuV { oam_addr: value, ..old(self)@ }),
            old(self)@.wf() ==> final(self)@.wf(),
    {
        self.oam_addr = value;
        proof {
            assert(self@ =~= (PpuV { oam_addr: value, ..old(self)@ }));
        }
    }

    pub fn write_to_oam_data(&mut self, value: u8)
        requires
            old(self)@.wf(),
        ensures
            final(self)@ == Self::write_to_oam_data_m(old(self)@, value),
            final(self)@.wf(),
    {
        self.oam_data.set(self.oam_addr as usize, value);
        self.increment_oam_addr();
        proof {
            assert(self@ =~= Self::write_to_oam_data_m(old(self)@, value));
        }
    }

    /// Sprite DMA: 256 bytes written at the running sprite address, which
    /// wraps; equivalent to 256 single data writes.
    pub open spec fn oam_dma_m(oam: Seq<u8>, oam_addr: u8, data: Seq<u8>, n: nat) -> (Seq<u8>, u8)
        decreases n,
    {
        if n == 0 {
            (oam, oam_addr)
        } else {
            let (o, a) = Self::oam_dma_m(oam, oam_addr, data, (n - 1) as nat);
            (o.update(a as int, data[n - 1]), vstd::wrapping::u8_specs::wrapping_add(a, 1))
        }
    }

    pub fn write_oam_dma(&mut self, data: &[u8])
        requires
            old(self)@.wf(),
            data@.len() == 256,
        ensures
            ({
                let (o, a) = Self::oam_dma_m(old(self)@.oam_data, old(self).oam_addr, data@, 256);
                final(self)@ == (PpuV { oam_data: o, oam_addr: a, ..old(self)@ })
            }),
            final(self)@.wf(),
    {
        let mut i: usize = 0;
        while i < 256
            invariant
                i <= 256,
                data@.len() == 256,
                self@.wf(),
                ({
                    let (o, a) = Self::oam_dma_m(old(self)@.oam_data, old(self).oam_addr, data@, i as nat);
                    self@ == (PpuV { oam_data: o, oam_addr: a, ..old(self)@ })
                }),
            decreases 256 - i,
        {
            self.oam_data.set(self.oam_addr as usize, data[i]);
            self.increment_oam_addr();
            i = i + 1;
            proof {
                let (o, a) = Self::oam_dma_m(old(self)@.oam_data, old(self).oam_addr, data@, i as nat);
                assert(self@ =~= (PpuV { oam_data: o, oam_addr: a, ..old(self)@ }));
            }
        }
    }

    pub fn read_oam_data(&self) -> (r: u8)
        requires
            self@.wf(),
        ensures
            r == self@.oam_data[self.oam_addr as int],
    {
        self.oam_data[self.oam_addr as usize]
    }

    pub fn write_to_scroll(&mut self, data: u8)
        ensures
            final(self)@ == (PpuV { scroll: ScrollRegister::write_m(old(self).scroll, data), ..old(self)@ }),
            old(self)@.wf() ==> final(self)@.wf(),
    {
        self.scroll.write(data);
        proof {
            assert(self@ =~= (PpuV { scroll: ScrollRegister::write_m(old(self).scroll, data), ..old(self)@ }));
        }
    }

    /// The mirroring fold, stated at the specification level, lands inside
    /// the 2 KiB of nametable RAM.
    pub proof fn lemma_mirror_vram_bound(m: Mirroring, addr: u16)
        requires
            0x2000 <= addr <= 0x3EFF,
        ensures
            Self::mirror_vram_m(m, addr) < 2048,
    {
        assert(0x2000 <= (addr & 0b10_1111_1111_1111) <= 0x2FFF) by (bit_vector)
            requires
                0x2000 <= addr <= 0x3EFF,
        ;
    }

    pub fn write_to_mask(&mut self, data: u8)
        ensures
            final(self)@ == (PpuV { mask: MaskRegister { bits: data }, ..old(self)@ }),
            old(self)@.wf() ==> final(self)@.wf(),
    {
        self.mask.update(data);
        proof {
            assert(self@ =~= (PpuV { mask: MaskRegister { bits: data }, ..old(self)@ }));
        }
    }
}

/// Data round trip through the one-read buffer: writing byte `v` to a
/// nametable address, re-pointing the address register at it, and reading
/// the data port twice yields the stale buffer first and `v` second. The
/// address is given by its two register bytes and kept far enough from the
/// top of the nametable window that the auto-increment stays inside it.
pub proof fn lemma_data_round_trip(p: PpuV, hi: u8, lo: u8, v: u8)
    requires
        p.wf(),
        p.addr.hi_ptr,
        0x20 <= hi <= 0x2F,
        (((hi as u16) << 8) | (lo as u16)) <= 0x2FDF,
    ensures
        ({
            let a = AddrRegister::update_m(AddrRegister::update_m(p.addr, hi), lo);
            let pw = NesPPU::write_to_data_m(PpuV { addr: a, ..p }, v);
            let a2 = AddrRegister::update_m(AddrRegister::update_m(pw.addr, hi), lo);
            let (r1, p3) = NesPPU::read_data_m(PpuV { addr: a2, ..pw });
            let (r2, _) = NesPPU::read_data_m(p3);
            r1 == p.internal_data_buf && r2 == v
        }),
{
    assert(hi & 0x3F == hi) by (bit_vector)
        requires
            hi <= 0x2F,
    ;
    let addr_v = ((((hi as u16) << 8) | (lo as u16)) as u16);
    assert(0x2000 <= addr_v && addr_v <= 0x2FFF) by (bit_vector)
        requires
            0x20 <= hi <= 0x2F,
            addr_v == (((hi as u16) << 8) | (lo as u16)),
    ;
    NesPPU::lemma_mirror_vram_bound(p.mirroring, addr_v);

    let a = AddrRegister::update_m(AddrRegister::update_m(p.addr, hi), lo);
    let pw = NesPPU::write_to_data_m(PpuV { addr: a, ..p }, v);
    let a2 = AddrRegister::update_m(AddrRegister::update_m(pw.addr, hi), lo);
    let (r1, p3) = NesPPU::read_data_m(PpuV { addr: a2, ..pw });

    let inc = p.ctrl.spec_vram_addr_increment();
    let lo2 = p3.addr.lo;
    let h2 = p3.addr.hi;
    assert(0x2000 <= (((h2 as u16) << 8) | (lo2 as u16)) <= 0x2FFF) by (bit_vector)
        requires
            0x20 <= hi <= 0x2F,
            (((hi as u16) << 8) | (lo as u16)) <= 0x2FDF,
            inc <= 32,
            lo2 == (if lo + inc > 255 {
                (lo + inc - 256)
            } else {
                lo + inc
            }) as u8,
            h2 == (if lo2 < lo {
                ((hi + 1) as u8) & 0x3F
            } else {
                hi
            }),
    ;
}

/// A state at the very start of a frame with the vblank interrupt disabled:
/// what a freshly reset picture unit looks like.
pub open spec fn at_frame_start(p: PpuV) -> bool {
    &&& p.cycles == 0
    &&& p.scanline == 0
    &&& p.status.bits == 0
    &&& p.nmi_interrupt is None
    &&& !p.ctrl.spec_generate_vblank_nmi()
}

/// Total pixel clocks in a sequence of tick batches.
pub open spec fn batch_sum(batches: Seq<u8>) -> nat
    decreases batches.len(),
{
    if batches.len() == 0 {
        0nat
    } else {
        (batches[0] + batch_sum(batches.drop_first())) as nat
    }
}

/// The state and the number of frame completions after a sequence of tick
/// batches.
pub open spec fn ticks_frames_m(p: PpuV, batches: Seq<u8>) -> (PpuV, nat)
    decreases batches.len(),
{
    if batches.len() == 0 {
        (p, 0nat)
    } else {
        let (p1, f) = NesPPU::tick_m(p, batches[0]);
        let (p2, k) = ticks_frames_m(p1, batches.drop_first());
        (p2, (k + if f { 1nat } else { 0nat }) as nat)
    }
}

/// The picture unit's timing state after `n` pixel clocks from the start of
/// a frame with the vblank interrupt disabled: the cycle and scanline
/// counters follow the division by 341, and the vblank flag holds exactly on
/// scanlines 241 through 261.
pub open spec fn frame_state(p: PpuV, n: nat) -> PpuV {
    PpuV {
        cycles: (n % 341) as u16,
        scanline: ((n / 341) % 262) as u16,
        status: if 241 <= n / 341 && n / 341 < 262 {
            StatusRegister { bits: STATUS_VBLANK }
        } else {
            StatusRegister { bits: 0 }
        },
        ..p
    }
}

/// One tick batch advances the frame-start characterization by its cycle
/// count, and reports the frame complete exactly when it reaches cycle
/// 341 * 262.
proof fn lemma_frame_tick_step(p: PpuV, n: nat, c: u8)
    requires
        at_frame_start(p),
        n + c <= 341 * 262,
    ensures
        NesPPU::tick_m(frame_state(p, n), c) == (
            frame_state(p, (n + c) as nat),
            n < 341 * 262 && n + c == 341 * 262,
        ),
{
    vstd::arithmetic::div_mod::lemma_fundamental_div_mod(n as int, 341);
    let q = n as int / 341;
    let r = n as int % 341;
    assert((0u8 | STATUS_VBLANK) & !STATUS_SPRITE_ZERO_HIT == STATUS_VBLANK) by (bit_vector);
    assert((STATUS_VBLANK & !STATUS_SPRITE_ZERO_HIT) & !STATUS_VBLANK == 0) by (bit_vector);
    assert((0u8 & !STATUS_SPRITE_ZERO_HIT) & !STATUS_VBLANK == 0) by (bit_vector);
    if r + c < 341 {
        vstd::arithmetic::div_mod::lemma_fundamental_div_mod_converse(n + c as int, 341, q, r + c);
        assert((n + c) as nat / 341 == q && (n + c) as nat % 341 == r + c);
        if n < 341 * 262 && n + c == 341 * 262 {
            vstd::arithmetic::div_mod::lemma_fundamental_div_mod_converse(341int * 262, 341, 262, 0);
            assert(r + c == 0);
            assert(false);
        }
        assert(NesPPU::tick_m(frame_state(p, n), c) =~= (
            frame_state(p, (n + c) as nat),
            false,
        ));
    } else {
        vstd::arithmetic::div_mod::lemma_fundamental_div_mod_converse(n + c as int, 341, q + 1, r + c - 341);
        assert((n + c) as nat / 341 == q + 1 && (n + c) as nat % 341 == r + c - 341);
        assert(q + 1 <= 262) by (nonlinear_arith)
            requires
                341 * (q + 1) + (r + c - 341) <= 341 * 262,
                r + c - 341 >= 0,
        ;
        assert(((q % 262) + 1) as u16 == (q + 1) as u16);
        if q + 1 == 262 {
            assert(n + c == 341 * 262) by (nonlinear_arith)
                requires
                    n + c == 341 * (q + 1) + (r + c - 341),
                    q + 1 == 262,
                    r + c - 341 >= 0,
                    n + c <= 341 * 262,
            ;
            assert(NesPPU::tick_m(frame_state(p, n), c) =~= (
                frame_state(p, (n + c) as nat),
                true,
            ));
        } else {
            if n + c == 341 * 262 {
                vstd::arithmetic::div_mod::lemma_fundamental_div_mod_converse(341int * 262, 341, 262, 0);
                assert(false);
            }
            assert(NesPPU::tick_m(frame_state(p, n), c) =~= (
                frame_state(p, (n + c) as nat),
                false,
            ));
        }
    }
}

proof fn lemma_frame_schedule_rec(p: PpuV, batches: Seq<u8>, n: nat)
    requires
        at_frame_start(p),
        n + batch_sum(batches) <= 341 * 262,
    ensures
        ticks_frames_m(frame_state(p, n), batches) == (
            frame_state(p, (n + batch_sum(batches)) as nat),
            if n < 341 * 262 && n + batch_sum(batches) == 341 * 262 {
                1nat
            } else {
                0nat
            },
        ),
    decreases batches.len(),
{
    if batches.len() == 0 {
        assert(ticks_frames_m(frame_state(p, n), batches) =~= (frame_state(p, n), 0nat));
    } else {
        let c = batches[0];
        lemma_frame_tick_step(p, n, c);
        lemma_frame_schedule_rec(p, batches.drop_first(), (n + c) as nat);
    }
}

/// The frame schedule: from a freshly reset state, any sequence of tick
/// batches totalling exactly 341 * 262 pixel clocks reports the frame
/// complete exactly once and returns to scanline 0 and cycle 0, with the
/// vblank flag clear and no interrupt pending.
pub proof fn lemma_frame_schedule(p: PpuV, batches: Seq<u8>)
    requires
        at_frame_start(p),
        batch_sum(batches) == 341 * 262,
    ensures
        ({
            let (p2, frames) = ticks_frames_m(p, batches);
            &&& frames == 1
            &&& p2.scanline == 0
            &&& p2.cycles == 0
            &&& p2.nmi_interrupt is None
            &&& !p2.status.spec_is_in_vblank()
        }),
{
    assert(p.status == (StatusRegister { bits: p.status.bits }));
    assert(frame_state(p, 0) =~= p);
    lemma_frame_schedule_rec(p, batches, 0);
    vstd::arithmetic::div_mod::lemma_fundamental_div_mod_converse(341int * 262, 341, 262, 0);
    assert(0u8 & STATUS_VBLANK == 0) by (bit_vector);
}

} // verus!
