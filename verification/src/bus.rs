use vstd::prelude::*;
use crate::apu::Apu;
use crate::apu::ApuV;
use crate::joypad::Joypad;
use crate::ppu::NesPPU;
use crate::ppu::PpuV;
use crate::ppu::bump;
use crate::ppu::spec_bump;
use crate::ppu::zeroed;
use crate::rom::Rom;

verus! {

/// Abstract state of the bus: work RAM, the program window, the subordinate
/// units and the diagnostic counters for recoverable memory-map violations
/// (reads of write-only registers, writes to read-only space, unmapped
/// addresses).
#[verifier::ext_equal]
pub struct BusV {
    pub cpu_vram: Seq<u8>,
    pub prg_rom: Seq<u8>,
    pub prg_writable: bool,
    pub ppu: PpuV,
    pub apu: ApuV,
    pub joypad: Joypad,
    pub cycles: u64,
    pub illegal_reads: u64,
    pub illegal_writes: u64,
    pub unmapped_accesses: u64,
}

impl BusV {
    pub open spec fn wf(self) -> bool {
        &&& self.cpu_vram.len() == 2048
        &&& (self.prg_rom.len() == 0x4000 || self.prg_rom.len() == 0x8000)
        &&& (self.prg_writable ==> self.prg_rom.len() == 0x8000)
        &&& self.ppu.wf()
        &&& self.apu.wf()
    }
}

/// The single memory-map dispatcher and per-cycle driver: owns work RAM, the
/// program window, the picture and audio units and the input device. Every
/// CPU cycle ticks the picture unit three times and the audio unit once.
pub struct Bus {
    pub cpu_vram: Vec<u8>,
    pub prg_rom: Vec<u8>,
    pub prg_writable: bool,
    pub ppu: NesPPU,
    pub apu: Apu,
    pub joypad: Joypad,
    pub cycles: u64,
    pub illegal_reads: u64,
    pub illegal_writes: u64,
    pub unmapped_accesses: u64,
}

impl View for Bus {
    type V = BusV;

    open spec fn view(&self) -> BusV {
        BusV {
            cpu_vram: self.cpu_vram@,
            prg_rom: self.prg_rom@,
            prg_writable: self.prg_writable,
            ppu: self.ppu@,
            apu: self.apu@,
            joypad: self.joypad,
            cycles: self.cycles,
            illegal_reads: self.illegal_reads,
            illegal_writes: self.illegal_writes,
            unmapped_accesses: self.unmapped_accesses,
        }
    }
}

impl Bus {
    /// Program-window read: the upper 32 KiB, with a single 16 KiB bank
    /// mirrored to fill the window.
    pub open spec fn read_prg_m(b: BusV, addr: u16) -> u8 {
        let a = (addr - 0x8000) as u16;
        if b.prg_rom.len() == 0x4000 && a >= 0x4000 {
            b.prg_rom[(a % 0x4000) as int]
        } else {
            b.prg_rom[a as int]
        }
    }

    /// One bus read. Work RAM is mirrored every 0x800 over 0x0000–0x1FFF;
    /// the eight picture registers are mirrored every 8 over 0x2000–0x3FFF;
    /// reads of write-only registers — picture or audio — return 0 and are
    /// counted; the audio status register sits at 0x4015; the program window
    /// sits at 0x8000–0xFFFF; anything else reads 0 and is counted.
    #[verifier::opaque]
    pub open spec fn read_m(b: BusV, addr: u16) -> (u8, BusV) {
        if addr <= 0x1FFF {
            (b.cpu_vram[(addr & 0x7FF) as int], b)
        } else if addr <= 0x3FFF {
            let reg = addr & 0x2007;
            if reg == 0x2002 {
                let (v, p) = NesPPU::read_status_m(b.ppu);
                (v, BusV { ppu: p, ..b })
            } else if reg == 0x2004 {
                (b.ppu.oam_data[b.ppu.oam_addr as int], b)
            } else if reg == 0x2007 {
                let (v, p) = NesPPU::read_data_m(b.ppu);
                (v, BusV { ppu: p, ..b })
            } else {
                (0u8, BusV { illegal_reads: spec_bump(b.illegal_reads), ..b })
            }
        } else if addr == 0x4015 {
            (Apu::read_m(b.apu, addr), b)
        } else if 0x4000 <= addr && addr <= 0x4014 {
            (0u8, BusV { illegal_reads: spec_bump(b.illegal_reads), ..b })
        } else if addr == 0x4016 {
            let (v, j) = Joypad::read_m(b.joypad);
            (v, BusV { joypad: j, ..b })
        } else if addr == 0x4017 {
            (0u8, b)
        } else if addr >= 0x8000 {
            (Self::read_prg_m(b, addr), b)
        } else {
            (0u8, BusV { unmapped_accesses: spec_bump(b.unmapped_accesses), ..b })
        }
    }

    /// The audio unit ticked once per CPU cycle.
    pub open spec fn apu_ticks_m(a: ApuV, n: nat) -> ApuV
        decreases n,
    {
        if n == 0 {
            a
        } else {
            Apu::tick_m(Self::apu_ticks_m(a, (n - 1) as nat))
        }
    }

    /// One batch of CPU cycles: the cycle counter advances, the audio unit
    /// ticks once per cycle, the picture unit three times per cycle; the
    /// returned flag reports a rising edge of the picture unit's interrupt
    /// line (the frame-ready notification point).
    #[verifier::opaque]
    pub open spec fn tick_m(b: BusV, cycles: u8) -> (BusV, bool) {
        let apu = Self::apu_ticks_m(b.apu, cycles as nat);
        let (ppu, frame) = NesPPU::tick_m(b.ppu, (cycles * 3) as u8);
        let edge = b.ppu.nmi_interrupt is None && ppu.nmi_interrupt is Some;
        (
            BusV {
                cycles: vstd::wrapping::u64_specs::wrapping_add(b.cycles, cycles as u64),
                apu,
                ppu,
                ..b
            },
            edge,
        )
    }

    /// `n` single-cycle ticks in sequence.
    pub open spec fn apply_ticks_m(b: BusV, n: nat) -> BusV
        decreases n,
    {
        if n == 0 {
            b
        } else {
            Self::tick_m(Self::apply_ticks_m(b, (n - 1) as nat), 1).0
        }
    }

    /// The `n` bus reads of a sprite DMA transfer from page `hi`, in order,
    /// each through the normal read path (so a transfer can itself touch
    /// registers, as the hardware does).
    pub open spec fn dma_reads_m(b: BusV, hi: u16, n: nat) -> (Seq<u8>, BusV)
        decreases n,
    {
        if n == 0 {
            (Seq::empty(), b)
        } else {
            let (s, b1) = Self::dma_reads_m(b, hi, (n - 1) as nat);
            let (v, b2) = Self::read_m(b1, (hi + (n - 1)) as u16);
            (s.push(v), b2)
        }
    }

    /// One bus write. RAM and the picture registers dispatch as for reads;
    /// a write to 0x4014 performs the 256-byte sprite DMA through the read
    /// path and stalls the clock 513 or 514 cycles by the cycle parity;
    /// writes into the program window are rejected and counted unless the
    /// bus was built without a cartridge; anything else is counted.
    #[verifier::opaque]
    pub open spec fn write_m(b: BusV, addr: u16, data: u8) -> BusV {
        if addr <= 0x1FFF {
            BusV { cpu_vram: b.cpu_vram.update((addr & 0x7FF) as int, data), ..b }
        } else if addr <= 0x3FFF {
            let reg = addr & 0x2007;
            if reg == 0x2000 {
                BusV { ppu: NesPPU::write_to_ctrl_m(b.ppu, data), ..b }
            } else if reg == 0x2001 {
                BusV { ppu: PpuV { mask: crate::ppu_registers::mask_register::MaskRegister { bits: data }, ..b.ppu }, ..b }
            } else if reg == 0x2002 {
                BusV { illegal_writes: spec_bump(b.illegal_writes), ..b }
            } else if reg == 0x2003 {
                BusV { ppu: PpuV { oam_addr: data, ..b.ppu }, ..b }
            } else if reg == 0x2004 {
                BusV { ppu: NesPPU::write_to_oam_data_m(b.ppu, data), ..b }
            } else if reg == 0x2005 {
                BusV {
                    ppu: PpuV {
                        scroll: crate::ppu_registers::scroll_register::ScrollRegister::write_m(b.ppu.scroll, data),
                        ..b.ppu
                    },
                    ..b
                }
            } else if reg == 0x2006 {
                BusV {
                    ppu: PpuV {
                        addr: crate::ppu_registers::address_register::AddrRegister::update_m(b.ppu.addr, data),
                        ..b.ppu
                    },
                    ..b
                }
            } else {
                BusV { ppu: NesPPU::write_to_data_m(b.ppu, data), ..b }
            }
        } else if addr == 0x4014 {
            let hi = (data as u16) << 8;
            let (buf, b1) = Self::dma_reads_m(b, hi, 256);
            let (o, a) = NesPPU::oam_dma_m(b1.ppu.oam_data, b1.ppu.oam_addr, buf, 256);
            let b2 = BusV { ppu: PpuV { oam_data: o, oam_addr: a, ..b1.ppu }, ..b1 };
            let stall: u16 = if b2.cycles % 2 == 1 {
                514
            } else {
                513
            };
            Self::apply_ticks_m(b2, stall as nat)
        } else if (0x4000 <= addr && addr <= 0x4013) || addr == 0x4015 || addr == 0x4017 {
            BusV { apu: Apu::write_m(b.apu, addr, data), ..b }
        } else if addr == 0x4016 {
            BusV { joypad: Joypad::write_m(b.joypad, data), ..b }
        } else if addr >= 0x8000 {
            if b.prg_writable {
                BusV { prg_rom: b.prg_rom.update((addr - 0x8000) as int, data), ..b }
            } else {
                BusV { illegal_writes: spec_bump(b.illegal_writes), ..b }
            }
        } else {
            BusV { unmapped_accesses: spec_bump(b.unmapped_accesses), ..b }
        }
    }

    /// A bus without a cartridge, for batch runs of in-memory programs: the
    /// program window is writable RAM so a loader can place code and the
    /// reset vector.
    pub fn new() -> (r: Bus)
        ensures
            r@ == (BusV {
                cpu_vram: Seq::new(2048, |i: int| 0u8),
                prg_rom: Seq::new(0x8000, |i: int| 0u8),
                prg_writable: true,
                ppu: NesPPU::new_m(Seq::new(2048, |i: int| 0u8), crate::rom::Mirroring::HORIZONTAL),
                apu: ApuV::init(),
                joypad: Joypad { strobe: false, button_index: 0, button_status: 0 },
                cycles: 0,
                illegal_reads: 0,
                illegal_writes: 0,
                unmapped_accesses: 0,
            }),
            r@.wf(),
    {
        let b = Bus {
            cpu_vram: zeroed(2048),
            prg_rom: zeroed(0x8000),
            prg_writable: true,
            ppu: NesPPU::new_empty_rom(),
            apu: Apu::new(),
            joypad: Joypad::new(),
            cycles: 0,
            illegal_reads: 0,
            illegal_writes: 0,
            unmapped_accesses: 0,
        };
        proof {
            assert(b@ =~= (BusV {
                cpu_vram: Seq::new(2048, |i: int| 0u8),
                prg_rom: Seq::new(0x8000, |i: int| 0u8),
                prg_writable: true,
                ppu: NesPPU::new_m(Seq::new(2048, |i: int| 0u8), crate::rom::Mirroring::HORIZONTAL),
                apu: ApuV::init(),
                joypad: Joypad { strobe: false, button_index: 0, button_status: 0 },
                cycles: 0,
                illegal_reads: 0,
                illegal_writes: 0,
                unmapped_accesses: 0,
            }));
        }
        b
    }

    /// A bus driving a cartridge: the character ROM and mirroring go to the
    /// picture unit; the program window is read-only.
    pub fn new_with_rom(rom: Rom) -> (r: Bus)
        requires
            rom.wf(),
        ensures
            r@.cpu_vram == Seq::new(2048, |i: int| 0u8),
            r@.prg_rom == rom.prg_rom@,
            !r@.prg_writable,
            r@.ppu == NesPPU::new_m(rom.chr_rom@, rom.screen_mirroring),
            r@.apu == ApuV::init(),
            r@.joypad == (Joypad { strobe: false, button_index: 0, button_status: 0 }),
            r@.cycles == 0 && r@.illegal_reads == 0 && r@.illegal_writes == 0 && r@.unmapped_accesses == 0,
            r@.wf(),
    {
        let ppu = NesPPU::new(rom.chr_rom, rom.screen_mirroring);
        let b = Bus {
            cpu_vram: zeroed(2048),
            prg_rom: rom.prg_rom,
            prg_writable: false,
            ppu,
            apu: Apu::new(),
            joypad: Joypad::new(),
            cycles: 0,
            illegal_reads: 0,
            illegal_writes: 0,
            unmapped_accesses: 0,
        };
        proof {
            assert(b@.cpu_vram =~= Seq::new(2048, |i: int| 0u8));
        }
        b
    }

    /// Side-effect-free inspection used by the tracer: RAM and the program
    /// window read their true contents; the register windows read as zero,
    /// because a true read disturbs them.
    pub open spec fn peek_m(b: BusV, addr: u16) -> u8 {
        if addr <= 0x1FFF {
            b.cpu_vram[(addr & 0x7FF) as int]
        } else if addr >= 0x8000 {
            Self::read_prg_m(b, addr)
        } else {
            0u8
        }
    }

    pub fn peek(&self, addr: u16) -> (r: u8)
        requires
            self@.wf(),
        ensures
            r == Self::peek_m(self@, addr),
    {
        proof {
            assert(forall|a: u16| #[trigger] (a & 0x7FF) < 2048) by (bit_vector);
        }
        if addr <= 0x1FFF {
            self.cpu_vram[(addr & 0x7FF) as usize]
        } else if addr >= 0x8000 {
            self.read_prg_rom(addr)
        } else {
            0
        }
    }

    fn read_prg_rom(&self, addr: u16) -> (r: u8)
        requires
            self@.wf(),
            addr >= 0x8000,
        ensures
            r == Self::read_prg_m(self@, addr),
    {
        let mut a = addr - 0x8000;
        if self.prg_rom.len() == 0x4000 && a >= 0x4000 {
            a = a % 0x4000;
        }
        self.prg_rom[a as usize]
    }

    /// Drive one batch of CPU cycles and report a rising edge of the picture
    /// unit's interrupt line. At most 85 cycles per batch, so the picture
    /// unit's triple-rate batch fits its tick argument.
    pub fn tick(&mut self, cycles: u8) -> (nmi_edge: bool)
        requires
            old(self)@.wf(),
            cycles <= 85,
        ensures
            (final(self)@, nmi_edge) == Self::tick_m(old(self)@, cycles),
            final(self)@.wf(),
    {
        proof {
            reveal(Bus::tick_m);
        }
        self.cycles = self.cycles.wrapping_add(cycles as u64);
        let mut i: u8 = 0;
        while i < cycles
            invariant
                i <= cycles,
                self.apu@.wf(),
                self.apu@ == Self::apu_ticks_m(old(self)@.apu, i as nat),
                self.cpu_vram@ == old(self)@.cpu_vram,
                self.prg_rom@ == old(self)@.prg_rom,
                self.prg_writable == old(self)@.prg_writable,
                self.ppu@ == old(self)@.ppu,
                self.ppu@.wf(),
                self.joypad == old(self)@.joypad,
                self.cycles == vstd::wrapping::u64_specs::wrapping_add(old(self)@.cycles, cycles as u64),
                self.illegal_reads == old(self)@.illegal_reads,
                self.illegal_writes == old(self)@.illegal_writes,
                self.unmapped_accesses == old(self)@.unmapped_accesses,
            decreases cycles - i,
        {
            self.apu.tick();
            i = i + 1;
        }
        let nmi_before = self.ppu.nmi_interrupt.is_some();
        let _ = self.ppu.tick(cycles * 3);
        let nmi_after = self.ppu.nmi_interrupt.is_some();
        let edge = !nmi_before && nmi_after;
        proof {
            assert((self@, edge) =~= Self::tick_m(old(self)@, cycles));
        }
        edge
    }

    /// Take the pending interrupt off the line, if any.
    pub fn poll_nmi_status(&mut self) -> (r: Option<u8>)
        ensures
            r == old(self)@.ppu.nmi_interrupt,
            final(self)@ == (BusV { ppu: PpuV { nmi_interrupt: None, ..old(self)@.ppu }, ..old(self)@ }),
    {
        let r = self.ppu.nmi_interrupt;
        self.ppu.nmi_interrupt = None;
        proof {
            assert(self@ =~= (BusV { ppu: PpuV { nmi_interrupt: None, ..old(self)@.ppu }, ..old(self)@ }));
        }
        r
    }

    /// Drain the audio unit's sample buffer.
    pub fn get_audio_samples(&mut self) -> (r: Vec<i16>)
        ensures
            r@ == old(self)@.apu.buffer,
            final(self)@ == (BusV { apu: ApuV { buffer: Seq::empty(), ..old(self)@.apu }, ..old(self)@ }),
    {
        let r = self.apu.take_samples();
        proof {
            assert(self@ =~= (BusV { apu: ApuV { buffer: Seq::<i16>::empty(), ..old(self)@.apu }, ..old(self)@ }));
        }
        r
    }

    pub fn mem_read(&mut self, addr: u16) -> (r: u8)
        requires
            old(self)@.wf(),
        ensures
            (r, final(self)@) == Self::read_m(old(self)@, addr),
            final(self)@.wf(),
    {
        proof {
            reveal(Bus::read_m);
            assert(forall|a: u16| #[trigger] (a & 0x7FF) < 2048) by (bit_vector);
        }
        if addr <= 0x1FFF {
            let r = self.cpu_vram[(addr & 0x7FF) as usize];
            proof {
                assert((r, self@) =~= Self::read_m(old(self)@, addr));
            }
            r
        } else if addr <= 0x3FFF {
            let reg = addr & 0x2007;
            let r = if reg == 0x2002 {
                self.ppu.read_status()
            } else if reg == 0x2004 {
                self.ppu.read_oam_data()
            } else if reg == 0x2007 {
                self.ppu.read_data()
            } else {
                self.illegal_reads = bump(self.illegal_reads);
                0
            };
            proof {
                assert((r, self@) =~= Self::read_m(old(self)@, addr));
            }
            r
        } else if addr == 0x4015 {
            let r = self.apu.read_register(addr);
            proof {
                assert((r, self@) =~= Self::read_m(old(self)@, addr));
            }
            r
        } else if 0x4000 <= addr && addr <= 0x4014 {
            self.illegal_reads = bump(self.illegal_reads);
            proof {
                assert((0u8, self@) =~= Self::read_m(old(self)@, addr));
            }
            0
        } else if addr == 0x4016 {
            let r = self.joypad.read();
            proof {
                assert((r, self@) =~= Self::read_m(old(self)@, addr));
            }
            r
        } else if addr == 0x4017 {
            0
        } else if addr >= 0x8000 {
            self.read_prg_rom(addr)
        } else {
            self.unmapped_accesses = bump(self.unmapped_accesses);
            proof {
                assert((0u8, self@) =~= Self::read_m(old(self)@, addr));
            }
            0
        }
    }

    pub fn mem_write(&mut self, addr: u16, data: u8)
        requires
            old(self)@.wf(),
        ensures
            final(self)@ == Self::write_m(old(self)@, addr, data),
            final(self)@.wf(),
    {
        proof {
            reveal(Bus::write_m);
            assert(forall|a: u16| #[trigger] (a & 0x7FF) < 2048) by (bit_vector);
        }
        if addr <= 0x1FFF {
            self.cpu_vram.set((addr & 0x7FF) as usize, data);
            proof {
                assert(self@ =~= Self::write_m(old(self)@, addr, data));
            }
        } else if addr <= 0x3FFF {
            let reg = addr & 0x2007;
            if reg == 0x2000 {
                self.ppu.write_to_ctrl(data);
            } else if reg == 0x2001 {
                self.ppu.write_to_mask(data);
            } else if reg == 0x2002 {
                self.illegal_writes = bump(self.illegal_writes);
            } else if reg == 0x2003 {
                self.ppu.write_to_oam_addr(data);
            } else if reg == 0x2004 {
                self.ppu.write_to_oam_data(data);
            } else if reg == 0x2005 {
                self.ppu.write_to_scroll(data);
            } else if reg == 0x2006 {
                self.ppu.write_to_ppu_addr(data);
            } else {
                proof {
                    assert(0x2000 <= (addr & 0x2007) <= 0x2007) by (bit_vector)
                        requires
                            0x2000 <= addr <= 0x3FFF,
                    ;
                }
                self.ppu.write_to_data(data);
            }
            proof {
                assert(self@ =~= Self::write_m(old(self)@, addr, data));
            }
        } else if addr == 0x4014 {
            self.oam_dma(data);
        } else if (0x4000 <= addr && addr <= 0x4013) || addr == 0x4015 || addr == 0x4017 {
            self.apu.write_register(addr, data);
            proof {
                assert(self@ =~= Self::write_m(old(self)@, addr, data));
            }
        } else if addr == 0x4016 {
            self.joypad.write(data);
            proof {
                assert(self@ =~= Self::write_m(old(self)@, addr, data));
            }
        } else if addr >= 0x8000 {
            if self.prg_writable {
                self.prg_rom.set((addr - 0x8000) as usize, data);
            } else {
                self.illegal_writes = bump(self.illegal_writes);
            }
            proof {
                assert(self@ =~= Self::write_m(old(self)@, addr, data));
            }
        } else {
            self.unmapped_accesses = bump(self.unmapped_accesses);
            proof {
                assert(self@ =~= Self::write_m(old(self)@, addr, data));
            }
        }
    }

    /// Sprite DMA: copy 256 bytes from page `data << 8` into sprite memory
    /// through the normal read path, then stall 513 or 514 cycles by the
    /// cycle parity, applying the stall to the clock and the ticking units.
    fn oam_dma(&mut self, data: u8)
        requires
            old(self)@.wf(),
        ensures
            final(self)@ == Self::write_m(old(self)@, 0x4014, data),
            final(self)@.wf(),
    {
        proof {
            reveal(Bus::write_m);
            assert(forall|d: u8| #[trigger] ((d as u16) << 8) <= 0xFF00) by (bit_vector);
        }
        let hi: u16 = (data as u16) << 8;
        let mut buffer: Vec<u8> = Vec::new();
        let mut i: usize = 0;
        while i < 256
            invariant
                i <= 256,
                hi <= 0xFF00,
                self@.wf(),
                buffer@.len() == i,
                (buffer@, self@) == Self::dma_reads_m(old(self)@, hi, i as nat),
            decreases 256 - i,
        {
            let v = self.mem_read(hi + i as u16);
            buffer.push(v);
            i = i + 1;
            proof {
                assert((buffer@, self@) =~= Self::dma_reads_m(old(self)@, hi, i as nat));
            }
        }
        self.ppu.write_oam_dma(buffer.as_slice());
        let ghost mid = Self::dma_reads_m(old(self)@, hi, 256);
        let ghost b2 = BusV {
            ppu: PpuV {
                oam_data: NesPPU::oam_dma_m(mid.1.ppu.oam_data, mid.1.ppu.oam_addr, mid.0, 256).0,
                oam_addr: NesPPU::oam_dma_m(mid.1.ppu.oam_data, mid.1.ppu.oam_addr, mid.0, 256).1,
                ..mid.1.ppu
            },
            ..mid.1
        };
        proof {
            assert(self@ =~= b2);
        }
        let stall: u16 = if self.cycles % 2 == 1 {
            514
        } else {
            513
        };
        let mut k: u16 = 0;
        while k < stall
            invariant
                k <= stall,
                self@.wf(),
                self@ == Self::apply_ticks_m(b2, k as nat),
            decreases stall - k,
        {
            let _ = self.tick(1);
            k = k + 1;
        }
        proof {
            assert(self@ =~= Self::write_m(old(self)@, 0x4014, data));
        }
    }
}

/// Mirrored RAM: any two addresses of the 0x0000–0x1FFF window that differ
/// by a multiple of 0x800 read the same byte, and the read leaves the bus
/// unchanged.
pub proof fn lemma_ram_mirroring(b: BusV, addr: u16, k: u16)
    requires
        addr <= 0x1FFF,
        addr + 0x800 * k <= 0x1FFF,
    ensures
        Bus::read_m(b, (addr + 0x800 * k) as u16).0 == Bus::read_m(b, addr).0,
        Bus::read_m(b, addr).1 == b,
{
    reveal(Bus::read_m);
    let a2 = (addr + 0x800 * k) as u16;
    assert(a2 & 0x7FF == addr & 0x7FF) by (bit_vector)
        requires
            addr <= 0x1FFF,
            addr + 0x800 * k <= 0x1FFF,
            a2 == addr + 0x800 * k,
    ;
}

} // verus!
