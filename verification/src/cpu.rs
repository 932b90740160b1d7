use vstd::prelude::*;
use vstd::wrapping::u16_specs;
use vstd::wrapping::u8_specs;
use crate::bus::Bus;
use crate::bus::BusV;
use crate::interrupt::Interrupt;
use crate::opcode::Mnemonic;
use crate::opcode::OpCode;
use crate::opcode::decode;
use crate::opcode::spec_decode;

verus! {

/// Base address of the fixed 256-byte stack window.
pub const STACK: u16 = 0x0100;

/// Stack pointer after reset.
pub const STACK_RESET: u8 = 0xfd;

pub const FLAG_CARRY: u8 = 0b0000_0001;

pub const FLAG_ZERO: u8 = 0b0000_0010;

pub const FLAG_INTERRUPT_DISABLE: u8 = 0b0000_0100;

pub const FLAG_DECIMAL: u8 = 0b0000_1000;

pub const FLAG_BREAK: u8 = 0b0001_0000;

pub const FLAG_BREAK2: u8 = 0b0010_0000;

pub const FLAG_OVERFLOW: u8 = 0b0100_0000;

pub const FLAG_NEGATIVE: u8 = 0b1000_0000;

/// The addressing modes of the instruction set. `NoneAddressing` marks
/// implied, accumulator, branch and jump forms that resolve their own
/// operands.
#[derive(Clone, Copy, Debug, PartialEq, Eq, Structural)]
#[allow(non_camel_case_types)]
pub enum AddressingMode {
    Immediate,
    ZeroPage,
    ZeroPage_X,
    ZeroPage_Y,
    Absolute,
    Absolute_X,
    Absolute_Y,
    Indirect_X,
    Indirect_Y,
    NoneAddressing,
}

/// A status byte with `mask` set or cleared.
pub open spec fn set_flag(status: u8, mask: u8, on: bool) -> u8 {
    if on {
        status | mask
    } else {
        status & !mask
    }
}

/// A status byte with the zero and negative flags set from a result byte.
pub open spec fn zn_flags(status: u8, result: u8) -> u8 {
    set_flag(set_flag(status, FLAG_ZERO, result == 0), FLAG_NEGATIVE, result & 0b1000_0000 != 0)
}

/// The two's-complement value of a byte.
pub open spec fn signed(v: u8) -> int {
    if v < 0x80 {
        v as int
    } else {
        v - 256
    }
}

/// The offset a relative branch adds to the program counter: the operand
/// byte sign-extended to sixteen bits.
pub open spec fn sign_extend(v: u8) -> u16 {
    if v < 0x80 {
        v as u16
    } else {
        (v + 0xFF00) as u16
    }
}

/// Result, carry-out and signed overflow of the 9-bit sum `a + m + carry`:
/// the result wraps modulo 256, carry is set exactly when the sum exceeds
/// 255, and overflow exactly when the true signed sum falls outside
/// [-128, 127].
pub fn add_with_carry(a: u8, m: u8, carry: bool) -> (r: (u8, bool, bool))
    ensures
        r.0 == (a + m + (if carry { 1int } else { 0int })) % 256,
        r.1 == (a + m + (if carry { 1int } else { 0int }) > 255),
        r.2 == !(-128 <= signed(a) + signed(m) + (if carry { 1int } else { 0int }) <= 127),
{
    let c: u16 = if carry {
        1
    } else {
        0
    };
    let sum: u16 = a as u16 + m as u16 + c;
    let result = sum as u8;
    let overflow = (m ^ result) & (result ^ a) & 0x80 != 0;
    proof {
        assert(sum as u8 == (a + m + c) % 256 && (((m ^ (sum as u8)) & ((sum as u8) ^ a) & 0x80 != 0)
            == !(-128 <= (if a < 0x80 { a as int } else { a - 256 }) + (if m < 0x80 { m as int } else { m - 256 }) + c
                <= 127)) && ((sum > 255) == (a + m + c > 255))) by (bit_vector)
            requires
                sum == a as u16 + m as u16 + c,
                c <= 1,
        ;
    }
    (result, sum > 255, overflow)
}

/// Abstract machine state: the register file and the bus with everything it
/// owns. Field names match the executable `CPU`.
#[verifier::ext_equal]
pub struct CpuV {
    pub register_a: u8,
    pub register_x: u8,
    pub register_y: u8,
    pub status: u8,
    pub program_counter: u16,
    pub stack_pointer: u8,
    pub bus: BusV,
}

impl CpuV {
    pub open spec fn wf(self) -> bool {
        self.bus.wf()
    }
}

/// What one interpreter step reports: whether the instruction was the
/// software-interrupt opcode that ends a batch run, whether the picture unit
/// signalled a frame boundary during the step's bus ticks, and the cycles
/// consumed.
#[derive(Clone, Copy, Debug, PartialEq, Eq, Structural)]
pub struct StepInfo {
    pub halted: bool,
    pub frame_ready: bool,
    pub cycles: u8,
}

/// The one fatal condition: an opcode byte outside the instruction set,
/// reported with the byte and the address it was fetched from.
#[derive(Clone, Copy, Debug, PartialEq, Eq, Structural)]
pub enum EmuError {
    InvalidOpcode { opcode: u8, address: u16 },
}

/// The interpreter: the 6502 register file driving the bus. Each public
/// operation is proved equal to a specification-level transition on `CpuV`.
pub struct CPU {
    pub register_a: u8,
    pub register_x: u8,
    pub register_y: u8,
    pub status: u8,
    pub program_counter: u16,
    pub stack_pointer: u8,
    pub bus: Bus,
}

impl View for CPU {
    type V = CpuV;

    open spec fn view(&self) -> CpuV {
        CpuV {
            register_a: self.register_a,
            register_x: self.register_x,
            register_y: self.register_y,
            status: self.status,
            program_counter: self.program_counter,
            stack_pointer: self.stack_pointer,
            bus: self.bus@,
        }
    }
}

/// Byte-addressed memory as the interpreter sees it. The trait only demands
/// that accesses preserve the implementor's well-formedness; what each
/// access does is stated on the implementors' own inherent methods.
pub trait Mem {
    spec fn mem_wf(&self) -> bool;

    fn mem_read(&mut self, addr: u16) -> (r: u8)
        requires
            old(self).mem_wf(),
        ensures
            final(self).mem_wf(),
    ;

    fn mem_write(&mut self, addr: u16, data: u8)
        requires
            old(self).mem_wf(),
        ensures
            final(self).mem_wf(),
    ;

    fn mem_read_u16(&mut self, pos: u16) -> (r: u16)
        requires
            old(self).mem_wf(),
        ensures
            final(self).mem_wf(),
    ;

    fn mem_write_u16(&mut self, pos: u16, data: u16)
        requires
            old(self).mem_wf(),
        ensures
            final(self).mem_wf(),
    ;
}

impl Mem for Bus {
    open spec fn mem_wf(&self) -> bool {
        self@.wf()
    }

    fn mem_read(&mut self, addr: u16) -> u8 {
        Bus::mem_read(self, addr)
    }

    fn mem_write(&mut self, addr: u16, data: u8) {
        Bus::mem_write(self, addr, data)
    }

    fn mem_read_u16(&mut self, pos: u16) -> u16 {
        let lo = Bus::mem_read(self, pos) as u16;
        let hi = Bus::mem_read(self, pos.wrapping_add(1)) as u16;
        (hi << 8) | lo
    }

    fn mem_write_u16(&mut self, pos: u16, data: u16) {
        let hi = (data >> 8) as u8;
        let lo = (data & 0xff) as u8;
        Bus::mem_write(self, pos, lo);
        Bus::mem_write(self, pos.wrapping_add(1), hi);
    }
}

impl Mem for CPU {
    open spec fn mem_wf(&self) -> bool {
        self@.wf()
    }

    fn mem_read(&mut self, addr: u16) -> u8 {
        CPU::mem_read(self, addr)
    }

    fn mem_write(&mut self, addr: u16, data: u8) {
        CPU::mem_write(self, addr, data)
    }

    fn mem_read_u16(&mut self, pos: u16) -> u16 {
        CPU::mem_read_u16(self, pos)
    }

    fn mem_write_u16(&mut self, pos: u16, data: u16) {
        CPU::mem_write_u16(self, pos, data)
    }
}

impl CPU {
    pub open spec fn read_m(c: CpuV, addr: u16) -> (u8, CpuV) {
        let (v, b) = Bus::read_m(c.bus, addr);
        (v, CpuV { bus: b, ..c })
    }

    pub open spec fn write_m(c: CpuV, addr: u16, data: u8) -> CpuV {
        CpuV { bus: Bus::write_m(c.bus, addr, data), ..c }
    }

    /// Little-endian 16-bit read; the second byte's address wraps at the top
    /// of the address space.
    pub open spec fn read16_m(c: CpuV, pos: u16) -> (u16, CpuV) {
        let (lo, c1) = Self::read_m(c, pos);
        let (hi, c2) = Self::read_m(c1, vstd::wrapping::u16_specs::wrapping_add(pos, 1));
        ((((hi as u16) << 8) | (lo as u16)) as u16, c2)
    }

    pub open spec fn write16_m(c: CpuV, pos: u16, data: u16) -> CpuV {
        let c1 = Self::write_m(c, pos, (data & 0xff) as u8);
        Self::write_m(c1, vstd::wrapping::u16_specs::wrapping_add(pos, 1), (data >> 8) as u8)
    }

    pub open spec fn stack_push_m(c: CpuV, data: u8) -> CpuV {
        let c1 = Self::write_m(c, (0x0100 + c.stack_pointer) as u16, data);
        CpuV { stack_pointer: vstd::wrapping::u8_specs::wrapping_sub(c.stack_pointer, 1), ..c1 }
    }

    pub open spec fn stack_pop_m(c: CpuV) -> (u8, CpuV) {
        let sp = vstd::wrapping::u8_specs::wrapping_add(c.stack_pointer, 1);
        Self::read_m(CpuV { stack_pointer: sp, ..c }, (0x0100 + sp) as u16)
    }

    pub open spec fn stack_push16_m(c: CpuV, data: u16) -> CpuV {
        let c1 = Self::stack_push_m(c, (data >> 8) as u8);
        Self::stack_push_m(c1, (data & 0xff) as u8)
    }

    pub open spec fn stack_pop16_m(c: CpuV) -> (u16, CpuV) {
        let (lo, c1) = Self::stack_pop_m(c);
        let (hi, c2) = Self::stack_pop_m(c1);
        ((((hi as u16) << 8) | (lo as u16)) as u16, c2)
    }

    pub fn new(bus: Bus) -> (r: CPU)
        ensures
            r@ == (CpuV {
                register_a: 0,
                register_x: 0,
                register_y: 0,
                status: 0,
                program_counter: 0,
                stack_pointer: STACK_RESET,
                bus: bus@,
            }),
    {
        CPU {
            register_a: 0,
            register_x: 0,
            register_y: 0,
            status: 0,
            program_counter: 0,
            stack_pointer: STACK_RESET,
            bus,
        }
    }

    pub fn mem_read(&mut self, addr: u16) -> (r: u8)
        requires
            old(self)@.wf(),
        ensures
            (r, final(self)@) == Self::read_m(old(self)@, addr),
            final(self)@.wf(),
    {
        let r = self.bus.mem_read(addr);
        proof {
            assert((r, self@) =~= Self::read_m(old(self)@, addr));
        }
        r
    }

    pub fn mem_write(&mut self, addr: u16, data: u8)
        requires
            old(self)@.wf(),
        ensures
            final(self)@ == Self::write_m(old(self)@, addr, data),
            final(self)@.wf(),
    {
        self.bus.mem_write(addr, data);
        proof {
            assert(self@ =~= Self::write_m(old(self)@, addr, data));
        }
    }

    fn mem_read_u16(&mut self, pos: u16) -> (r: u16)
        requires
            old(self)@.wf(),
        ensures
            (r, final(self)@) == Self::read16_m(old(self)@, pos),
            final(self)@.wf(),
    {
        let lo = self.mem_read(pos) as u16;
        let hi = self.mem_read(pos.wrapping_add(1)) as u16;
        (hi << 8) | lo
    }

    fn mem_write_u16(&mut self, pos: u16, data: u16)
        requires
            old(self)@.wf(),
        ensures
            final(self)@ == Self::write16_m(old(self)@, pos, data),
            final(self)@.wf(),
    {
        let hi = (data >> 8) as u8;
        let lo = (data & 0xff) as u8;
        self.mem_write(pos, lo);
        self.mem_write(pos.wrapping_add(1), hi);
    }

    fn stack_pop(&mut self) -> (r: u8)
        requires
            old(self)@.wf(),
        ensures
            (r, final(self)@) == Self::stack_pop_m(old(self)@),
            final(self)@.wf(),
    {
        self.stack_pointer = self.stack_pointer.wrapping_add(1);
        self.mem_read(STACK + self.stack_pointer as u16)
    }

    fn stack_push(&mut self, data: u8)
        requires
            old(self)@.wf(),
        ensures
            final(self)@ == Self::stack_push_m(old(self)@, data),
            final(self)@.wf(),
    {
        self.mem_write(STACK + self.stack_pointer as u16, data);
        self.stack_pointer = self.stack_pointer.wrapping_sub(1);
        proof {
            assert(self@ =~= Self::stack_push_m(old(self)@, data));
        }
    }

    fn stack_push_u16(&mut self, data: u16)
        requires
            old(self)@.wf(),
        ensures
            final(self)@ == Self::stack_push16_m(old(self)@, data),
            final(self)@.wf(),
    {
        let hi = (data >> 8) as u8;
        let lo = (data & 0xff) as u8;
        self.stack_push(hi);
        self.stack_push(lo);
    }

    fn stack_pop_u16(&mut self) -> (r: u16)
        requires
            old(self)@.wf(),
        ensures
            (r, final(self)@) == Self::stack_pop16_m(old(self)@),
            final(self)@.wf(),
    {
        let lo = self.stack_pop() as u16;
        let hi = self.stack_pop() as u16;
        (hi << 8) | lo
    }

    fn update_carry_flag(&mut self, enable: bool)
        ensures
            final(self)@ == (CpuV { status: set_flag(old(self).status, FLAG_CARRY, enable), ..old(self)@ }),
    {
        if enable {
            self.status = self.status | FLAG_CARRY;
        } else {
            self.status = self.status & !FLAG_CARRY;
        }
    }

    fn update_overflow_flag(&mut self, enable: bool)
        ensures
            final(self)@ == (CpuV { status: set_flag(old(self).status, FLAG_OVERFLOW, enable), ..old(self)@ }),
    {
        if enable {
            self.status = self.status | FLAG_OVERFLOW;
        } else {
            self.status = self.status & !FLAG_OVERFLOW;
        }
    }

    fn update_negative_flag(&mut self, enable: bool)
        ensures
            final(self)@ == (CpuV { status: set_flag(old(self).status, FLAG_NEGATIVE, enable), ..old(self)@ }),
    {
        if enable {
            self.status = self.status | FLAG_NEGATIVE;
        } else {
            self.status = self.status & !FLAG_NEGATIVE;
        }
    }

    fn update_zero_and_negative_flags(&mut self, result: u8)
        ensures
            final(self)@ == (CpuV { status: zn_flags(old(self).status, result), ..old(self)@ }),
    {
        if result == 0 {
            self.status = self.status | FLAG_ZERO;
        } else {
            self.status = self.status & !FLAG_ZERO;
        }
        if result & 0b1000_0000 != 0 {
            self.status = self.status | FLAG_NEGATIVE;
        } else {
            self.status = self.status & !FLAG_NEGATIVE;
        }
    }

    /// Operand address resolution. Zero-page indexed modes wrap within the
    /// page; indirect-indexed wraps the high-byte fetch within the zero page
    /// and then adds Y with 16-bit wraparound (the canonical page-wrap
    /// behaviour). The table never routes an implied-mode instruction here;
    /// that arm resolves to address zero.
    #[verifier::opaque]
    pub open spec fn operand_m(c: CpuV, mode: AddressingMode) -> (u16, CpuV) {
        match mode {
            AddressingMode::Immediate => (c.program_counter, c),
            AddressingMode::ZeroPage => {
                let (v, c1) = Self::read_m(c, c.program_counter);
                (v as u16, c1)
            },
            AddressingMode::Absolute => Self::read16_m(c, c.program_counter),
            AddressingMode::ZeroPage_X => {
                let (pos, c1) = Self::read_m(c, c.program_counter);
                (u8_specs::wrapping_add(pos, c.register_x) as u16, c1)
            },
            AddressingMode::ZeroPage_Y => {
                let (pos, c1) = Self::read_m(c, c.program_counter);
                (u8_specs::wrapping_add(pos, c.register_y) as u16, c1)
            },
            AddressingMode::Absolute_X => {
                let (base, c1) = Self::read16_m(c, c.program_counter);
                (u16_specs::wrapping_add(base, c.register_x as u16), c1)
            },
            AddressingMode::Absolute_Y => {
                let (base, c1) = Self::read16_m(c, c.program_counter);
                (u16_specs::wrapping_add(base, c.register_y as u16), c1)
            },
            AddressingMode::Indirect_X => {
                let (base, c1) = Self::read_m(c, c.program_counter);
                let ptr = u8_specs::wrapping_add(base, c.register_x);
                let (lo, c2) = Self::read_m(c1, ptr as u16);
                let (hi, c3) = Self::read_m(c2, u8_specs::wrapping_add(ptr, 1) as u16);
                ((((hi as u16) << 8) | (lo as u16)) as u16, c3)
            },
            AddressingMode::Indirect_Y => {
                let (base, c1) = Self::read_m(c, c.program_counter);
                let (lo, c2) = Self::read_m(c1, base as u16);
                let (hi, c3) = Self::read_m(c2, u8_specs::wrapping_add(base, 1) as u16);
                let deref_base = (((hi as u16) << 8) | (lo as u16)) as u16;
                (u16_specs::wrapping_add(deref_base, c.register_y as u16), c3)
            },
            AddressingMode::NoneAddressing => (0u16, c),
        }
    }

    fn get_operand_address(&mut self, mode: &AddressingMode) -> (r: u16)
        requires
            old(self)@.wf(),
        ensures
            (r, final(self)@) == Self::operand_m(old(self)@, *mode),
            final(self)@.wf(),
    {
        proof {
            reveal(CPU::operand_m);
        }
        match mode {
            AddressingMode::Immediate => self.program_counter,
            AddressingMode::ZeroPage => self.mem_read(self.program_counter) as u16,
            AddressingMode::Absolute => self.mem_read_u16(self.program_counter),
            AddressingMode::ZeroPage_X => {
                let pos = self.mem_read(self.program_counter);
                pos.wrapping_add(self.register_x) as u16
            },
            AddressingMode::ZeroPage_Y => {
                let pos = self.mem_read(self.program_counter);
                pos.wrapping_add(self.register_y) as u16
            },
            AddressingMode::Absolute_X => {
                let base = self.mem_read_u16(self.program_counter);
                base.wrapping_add(self.register_x as u16)
            },
            AddressingMode::Absolute_Y => {
                let base = self.mem_read_u16(self.program_counter);
                base.wrapping_add(self.register_y as u16)
            },
            AddressingMode::Indirect_X => {
                let base = self.mem_read(self.program_counter);
                let ptr = base.wrapping_add(self.register_x);
                let lo = self.mem_read(ptr as u16);
                let hi = self.mem_read(ptr.wrapping_add(1) as u16);
                ((hi as u16) << 8) | (lo as u16)
            },
            AddressingMode::Indirect_Y => {
                let base = self.mem_read(self.program_counter);
                let lo = self.mem_read(base as u16);
                let hi = self.mem_read(base.wrapping_add(1) as u16);
                let deref_base = ((hi as u16) << 8) | (lo as u16);
                deref_base.wrapping_add(self.register_y as u16)
            },
            AddressingMode::NoneAddressing => 0,
        }
    }

    /// A taken branch adds the sign-extended operand to the address after
    /// the operand byte.
    pub open spec fn branch_m(c: CpuV, condition: bool) -> CpuV {
        if condition {
            let (jump, c1) = Self::read_m(c, c.program_counter);
            CpuV {
                program_counter: u16_specs::wrapping_add(
                    u16_specs::wrapping_add(c.program_counter, 1),
                    sign_extend(jump),
                ),
                ..c1
            }
        } else {
            c
        }
    }

    fn jump_to_branch(&mut self, condition: bool)
        requires
            old(self)@.wf(),
        ensures
            final(self)@ == Self::branch_m(old(self)@, condition),
            final(self)@.wf(),
    {
        if condition {
            let jump = self.mem_read(self.program_counter);
            let offset: u16 = if jump < 0x80 {
                jump as u16
            } else {
                jump as u16 + 0xFF00
            };
            self.program_counter = self.program_counter.wrapping_add(1).wrapping_add(offset);
            proof {
                assert(self@ =~= Self::branch_m(old(self)@, condition));
            }
        }
    }

    /// Add with carry: a 9-bit sum whose carry-out and signed-overflow
    /// conditions are stated arithmetically.
    pub open spec fn adc_m(c: CpuV, mode: AddressingMode) -> CpuV {
        let (addr, c1) = Self::operand_m(c, mode);
        let (m, c2) = Self::read_m(c1, addr);
        let ci: int = if c2.status & FLAG_CARRY != 0 {
            1
        } else {
            0
        };
        let sum = c2.register_a + m + ci;
        let result = (sum % 256) as u8;
        let carry = sum > 255;
        let overflow = !(-128 <= signed(c2.register_a) + signed(m) + ci <= 127);
        CpuV {
            register_a: result,
            status: zn_flags(set_flag(set_flag(c2.status, FLAG_CARRY, carry), FLAG_OVERFLOW, overflow), result),
            ..c2
        }
    }

    fn adc(&mut self, mode: &AddressingMode)
        requires
            old(self)@.wf(),
        ensures
            final(self)@ == Self::adc_m(old(self)@, *mode),
            final(self)@.wf(),
    {
        let addr = self.get_operand_address(mode);
        let m = self.mem_read(addr);
        let carry = self.status & FLAG_CARRY != 0;
        let (result, carry_out, overflow) = add_with_carry(self.register_a, m, carry);
        self.register_a = result;
        self.update_carry_flag(carry_out);
        self.update_overflow_flag(overflow);
        self.update_zero_and_negative_flags(self.register_a);
        proof {
            assert(self@ =~= Self::adc_m(old(self)@, *mode));
        }
    }

    /// Subtract with carry: add with carry of the subtrahend's
    /// one's-complement, with the same carry and overflow conditions.
    pub open spec fn sbc_m(c: CpuV, mode: AddressingMode) -> CpuV {
        let (addr, c1) = Self::operand_m(c, mode);
        let (m, c2) = Self::read_m(c1, addr);
        let sub = !m;
        let ci: int = if c2.status & FLAG_CARRY != 0 {
            1
        } else {
            0
        };
        let sum = c2.register_a + sub + ci;
        let result = (sum % 256) as u8;
        let carry = sum > 255;
        let overflow = !(-128 <= signed(c2.register_a) + signed(sub) + ci <= 127);
        CpuV {
            register_a: result,
            status: zn_flags(set_flag(set_flag(c2.status, FLAG_CARRY, carry), FLAG_OVERFLOW, overflow), result),
            ..c2
        }
    }

    fn sbc(&mut self, mode: &AddressingMode)
        requires
            old(self)@.wf(),
        ensures
            final(self)@ == Self::sbc_m(old(self)@, *mode),
            final(self)@.wf(),
    {
        let addr = self.get_operand_address(mode);
        let m = self.mem_read(addr);
        let carry = self.status & FLAG_CARRY != 0;
        let (result, carry_out, overflow) = add_with_carry(self.register_a, !m, carry);
        self.register_a = result;
        self.update_carry_flag(carry_out);
        self.update_overflow_flag(overflow);
        self.update_zero_and_negative_flags(self.register_a);
        proof {
            assert(self@ =~= Self::sbc_m(old(self)@, *mode));
        }
    }

    pub open spec fn and_m(c: CpuV, mode: AddressingMode) -> CpuV {
        let (addr, c1) = Self::operand_m(c, mode);
        let (m, c2) = Self::read_m(c1, addr);
        let v = c2.register_a & m;
        CpuV { register_a: v, status: zn_flags(c2.status, v), ..c2 }
    }

    fn and(&mut self, mode: &AddressingMode)
        requires
            old(self)@.wf(),
        ensures
            final(self)@ == Self::and_m(old(self)@, *mode),
            final(self)@.wf(),
    {
        let addr = self.get_operand_address(mode);
        let m = self.mem_read(addr);
        self.register_a = self.register_a & m;
        self.update_zero_and_negative_flags(self.register_a);
        proof {
            assert(self@ =~= Self::and_m(old(self)@, *mode));
        }
    }

    pub open spec fn ora_m(c: CpuV, mode: AddressingMode) -> CpuV {
        let (addr, c1) = Self::operand_m(c, mode);
        let (m, c2) = Self::read_m(c1, addr);
        let v = c2.register_a | m;
        CpuV { register_a: v, status: zn_flags(c2.status, v), ..c2 }
    }

    fn ora(&mut self, mode: &AddressingMode)
        requires
            old(self)@.wf(),
        ensures
            final(self)@ == Self::ora_m(old(self)@, *mode),
            final(self)@.wf(),
    {
        let addr = self.get_operand_address(mode);
        let m = self.mem_read(addr);
        self.register_a = self.register_a | m;
        self.update_zero_and_negative_flags(self.register_a);
        proof {
            assert(self@ =~= Self::ora_m(old(self)@, *mode));
        }
    }

    pub open spec fn eor_m(c: CpuV, mode: AddressingMode) -> CpuV {
        let (addr, c1) = Self::operand_m(c, mode);
        let (m, c2) = Self::read_m(c1, addr);
        let v = c2.register_a ^ m;
        CpuV { register_a: v, status: zn_flags(c2.status, v), ..c2 }
    }

    fn eor(&mut self, mode: &AddressingMode)
        requires
            old(self)@.wf(),
        ensures
            final(self)@ == Self::eor_m(old(self)@, *mode),
            final(self)@.wf(),
    {
        let addr = self.get_operand_address(mode);
        let m = self.mem_read(addr);
        self.register_a = self.register_a ^ m;
        self.update_zero_and_negative_flags(self.register_a);
        proof {
            assert(self@ =~= Self::eor_m(old(self)@, *mode));
        }
    }

    pub open spec fn asl_accumulator_m(c: CpuV) -> CpuV {
        let v = c.register_a << 1;
        CpuV {
            register_a: v,
            status: zn_flags(set_flag(c.status, FLAG_CARRY, c.register_a >> 7 == 1), v),
            ..c
        }
    }

    fn asl_accumulator(&mut self)
        ensures
            final(self)@ == Self::asl_accumulator_m(old(self)@),
    {
        self.update_carry_flag(self.register_a >> 7 == 1);
        self.register_a = self.register_a << 1;
        self.update_zero_and_negative_flags(self.register_a);
        proof {
            assert(self@ =~= Self::asl_accumulator_m(old(self)@));
        }
    }

    pub open spec fn asl_m(c: CpuV, mode: AddressingMode) -> CpuV {
        let (addr, c1) = Self::operand_m(c, mode);
        let (v, c2) = Self::read_m(c1, addr);
        let data = v << 1;
        let c3 = Self::write_m(CpuV { status: set_flag(c2.status, FLAG_CARRY, v >> 7 == 1), ..c2 }, addr, data);
        CpuV { status: zn_flags(c3.status, data), ..c3 }
    }

    fn asl(&mut self, mode: &AddressingMode)
        requires
            old(self)@.wf(),
        ensures
            final(self)@ == Self::asl_m(old(self)@, *mode),
            final(self)@.wf(),
    {
        let addr = self.get_operand_address(mode);
        let value = self.mem_read(addr);
        self.update_carry_flag(value >> 7 == 1);
        let data = value << 1;
        self.mem_write(addr, data);
        self.update_zero_and_negative_flags(data);
        proof {
            assert(self@ =~= Self::asl_m(old(self)@, *mode));
        }
    }

    pub open spec fn lsr_accumulator_m(c: CpuV) -> CpuV {
        let v = c.register_a >> 1;
        CpuV {
            register_a: v,
            status: zn_flags(set_flag(c.status, FLAG_CARRY, c.register_a & 1 == 1), v),
            ..c
        }
    }

    fn lsr_accumulator(&mut self)
        ensures
            final(self)@ == Self::lsr_accumulator_m(old(self)@),
    {
        self.update_carry_flag(self.register_a & 1 == 1);
        self.register_a = self.register_a >> 1;
        self.update_zero_and_negative_flags(self.register_a);
        proof {
            assert(self@ =~= Self::lsr_accumulator_m(old(self)@));
        }
    }

    pub open spec fn lsr_m(c: CpuV, mode: AddressingMode) -> CpuV {
        let (addr, c1) = Self::operand_m(c, mode);
        let (v, c2) = Self::read_m(c1, addr);
        let data = v >> 1;
        let c3 = Self::write_m(CpuV { status: set_flag(c2.status, FLAG_CARRY, v & 1 == 1), ..c2 }, addr, data);
        CpuV { status: zn_flags(c3.status, data), ..c3 }
    }

    fn lsr(&mut self, mode: &AddressingMode)
        requires
            old(self)@.wf(),
        ensures
            final(self)@ == Self::lsr_m(old(self)@, *mode),
            final(self)@.wf(),
    {
        let addr = self.get_operand_address(mode);
        let value = self.mem_read(addr);
        self.update_carry_flag(value & 1 == 1);
        let data = value >> 1;
        self.mem_write(addr, data);
        self.update_zero_and_negative_flags(data);
        proof {
            assert(self@ =~= Self::lsr_m(old(self)@, *mode));
        }
    }

    pub open spec fn rol_accumulator_m(c: CpuV) -> CpuV {
        let old_carry = c.status & 1 == 1;
        let shifted = c.register_a << 1;
        let v = if old_carry {
            shifted | 1
        } else {
            shifted
        };
        CpuV {
            register_a: v,
            status: zn_flags(set_flag(c.status, FLAG_CARRY, c.register_a >> 7 == 1), v),
            ..c
        }
    }

    fn rol_accumulator(&mut self)
        ensures
            final(self)@ == Self::rol_accumulator_m(old(self)@),
    {
        let old_carry = self.status & 1 == 1;
        self.update_carry_flag(self.register_a >> 7 == 1);
        self.register_a = self.register_a << 1;
        if old_carry {
            self.register_a = self.register_a | 1;
        }
        self.update_zero_and_negative_flags(self.register_a);
        proof {
            assert(self@ =~= Self::rol_accumulator_m(old(self)@));
        }
    }

    pub open spec fn rol_m(c: CpuV, mode: AddressingMode) -> CpuV {
        let (addr, c1) = Self::operand_m(c, mode);
        let (v, c2) = Self::read_m(c1, addr);
        let old_carry = c2.status & 1 == 1;
        let shifted = v << 1;
        let data = if old_carry {
            shifted | 1
        } else {
            shifted
        };
        let c3 = Self::write_m(CpuV { status: set_flag(c2.status, FLAG_CARRY, v >> 7 == 1), ..c2 }, addr, data);
        CpuV { status: zn_flags(c3.status, data), ..c3 }
    }

    fn rol(&mut self, mode: &AddressingMode)
        requires
            old(self)@.wf(),
        ensures
            final(self)@ == Self::rol_m(old(self)@, *mode),
            final(self)@.wf(),
    {
        let addr = self.get_operand_address(mode);
        let value = self.mem_read(addr);
        let old_carry = self.status & 1 == 1;
        self.update_carry_flag(value >> 7 == 1);
        let mut data = value << 1;
        if old_carry {
            data = data | 1;
        }
        self.mem_write(addr, data);
        self.update_zero_and_negative_flags(data);
        proof {
            assert(self@ =~= Self::rol_m(old(self)@, *mode));
        }
    }

    pub open spec fn ror_accumulator_m(c: CpuV) -> CpuV {
        let old_carry = c.status & 1 == 1;
        let shifted = c.register_a >> 1;
        let v = if old_carry {
            shifted | 0b1000_0000
        } else {
            shifted
        };
        CpuV {
            register_a: v,
            status: zn_flags(set_flag(c.status, FLAG_CARRY, c.register_a & 1 == 1), v),
            ..c
        }
    }

    fn ror_accumulator(&mut self)
        ensures
            final(self)@ == Self::ror_accumulator_m(old(self)@),
    {
        let old_carry = self.status & 1 == 1;
        self.update_carry_flag(self.register_a & 1 == 1);
        self.register_a = self.register_a >> 1;
        if old_carry {
            self.register_a = self.register_a | 0b1000_0000;
        }
        self.update_zero_and_negative_flags(self.register_a);
        proof {
            assert(self@ =~= Self::ror_accumulator_m(old(self)@));
        }
    }

    pub open spec fn ror_m(c: CpuV, mode: AddressingMode) -> CpuV {
        let (addr, c1) = Self::operand_m(c, mode);
        let (v, c2) = Self::read_m(c1, addr);
        let old_carry = c2.status & 1 == 1;
        let shifted = v >> 1;
        let data = if old_carry {
            shifted | 0b1000_0000
        } else {
            shifted
        };
        let c3 = Self::write_m(CpuV { status: set_flag(c2.status, FLAG_CARRY, v & 1 == 1), ..c2 }, addr, data);
        CpuV { status: zn_flags(c3.status, data), ..c3 }
    }

    fn ror(&mut self, mode: &AddressingMode)
        requires
            old(self)@.wf(),
        ensures
            final(self)@ == Self::ror_m(old(self)@, *mode),
            final(self)@.wf(),
    {
        let addr = self.get_operand_address(mode);
        let value = self.mem_read(addr);
        let old_carry = self.status & 1 == 1;
        self.update_carry_flag(value & 1 == 1);
        let mut data = value >> 1;
        if old_carry {
            data = data | 0b1000_0000;
        }
        self.mem_write(addr, data);
        self.update_zero_and_negative_flags(data);
        proof {
            assert(self@ =~= Self::ror_m(old(self)@, *mode));
        }
    }

    /// Zero flag from the masked value, overflow and negative copied from
    /// the operand's bits.
    pub open spec fn bit_m(c: CpuV, mode: AddressingMode) -> CpuV {
        let (addr, c1) = Self::operand_m(c, mode);
        let (v, c2) = Self::read_m(c1, addr);
        let s1 = if c2.register_a & v == 0 {
            c2.status | FLAG_ZERO
        } else {
            c2.status & !FLAG_ZERO
        };
        let s2 = set_flag(set_flag(s1, FLAG_OVERFLOW, v >> 6 == 1), FLAG_NEGATIVE, v >> 7 == 1);
        CpuV { status: s2, ..c2 }
    }

    fn bit(&mut self, mode: &AddressingMode)
        requires
            old(self)@.wf(),
        ensures
            final(self)@ == Self::bit_m(old(self)@, *mode),
            final(self)@.wf(),
    {
        let addr = self.get_operand_address(mode);
        let mem_val = self.mem_read(addr);
        if self.register_a & mem_val == 0 {
            self.status = self.status | FLAG_ZERO;
        } else {
            self.status = self.status & !FLAG_ZERO;
        }
        self.update_overflow_flag(mem_val >> 6 == 1);
        self.update_negative_flag(mem_val >> 7 == 1);
        proof {
            assert(self@ =~= Self::bit_m(old(self)@, *mode));
        }
    }

    /// Compare a register with the operand: carry when the register is at
    /// least the operand, zero and negative from the wrapped difference.
    pub open spec fn compare_m(c: CpuV, mode: AddressingMode, reg: u8) -> CpuV {
        let (addr, c1) = Self::operand_m(c, mode);
        let (v, c2) = Self::read_m(c1, addr);
        CpuV {
            status: zn_flags(set_flag(c2.status, FLAG_CARRY, reg >= v), u8_specs::wrapping_sub(reg, v)),
            ..c2
        }
    }

    fn cmp(&mut self, mode: &AddressingMode)
        requires
            old(self)@.wf(),
        ensures
            final(self)@ == Self::compare_m(old(self)@, *mode, old(self).register_a),
            final(self)@.wf(),
    {
        let addr = self.get_operand_address(mode);
        let value = self.mem_read(addr);
        if self.register_a >= value {
            self.update_carry_flag(true);
        } else {
            self.update_carry_flag(false);
        }
        self.update_zero_and_negative_flags(self.register_a.wrapping_sub(value));
        proof {
            reveal(CPU::operand_m);
            assert(self@ =~= Self::compare_m(old(self)@, *mode, old(self).register_a));
        }
    }

    fn cpx(&mut self, mode: &AddressingMode)
        requires
            old(self)@.wf(),
        ensures
            final(self)@ == Self::compare_m(old(self)@, *mode, old(self).register_x),
            final(self)@.wf(),
    {
        let addr = self.get_operand_address(mode);
        let value = self.mem_read(addr);
        if value <= self.register_x {
            self.update_carry_flag(true);
        } else {
            self.update_carry_flag(false);
        }
        self.update_zero_and_negative_flags(self.register_x.wrapping_sub(value));
        proof {
            reveal(CPU::operand_m);
            assert(self@ =~= Self::compare_m(old(self)@, *mode, old(self).register_x));
        }
    }

    fn cpy(&mut self, mode: &AddressingMode)
        requires
            old(self)@.wf(),
        ensures
            final(self)@ == Self::compare_m(old(self)@, *mode, old(self).register_y),
            final(self)@.wf(),
    {
        let addr = self.get_operand_address(mode);
        let value = self.mem_read(addr);
        if self.register_y >= value {
            self.update_carry_flag(true);
        } else {
            self.update_carry_flag(false);
        }
        self.update_zero_and_negative_flags(self.register_y.wrapping_sub(value));
        proof {
            reveal(CPU::operand_m);
            assert(self@ =~= Self::compare_m(old(self)@, *mode, old(self).register_y));
        }
    }

    pub open spec fn dec_m(c: CpuV, mode: AddressingMode) -> CpuV {
        let (addr, c1) = Self::operand_m(c, mode);
        let (v, c2) = Self::read_m(c1, addr);
        let data = u8_specs::wrapping_sub(v, 1);
        let c3 = Self::write_m(c2, addr, data);
        CpuV { status: zn_flags(c3.status, data), ..c3 }
    }

    fn dec(&mut self, mode: &AddressingMode)
        requires
            old(self)@.wf(),
        ensures
            final(self)@ == Self::dec_m(old(self)@, *mode),
            final(self)@.wf(),
    {
        let addr = self.get_operand_address(mode);
        let value = self.mem_read(addr);
        let data = value.wrapping_sub(1);
        self.mem_write(addr, data);
        self.update_zero_and_negative_flags(data);
        proof {
            assert(self@ =~= Self::dec_m(old(self)@, *mode));
        }
    }

    pub open spec fn inc_m(c: CpuV, mode: AddressingMode) -> CpuV {
        let (addr, c1) = Self::operand_m(c, mode);
        let (v, c2) = Self::read_m(c1, addr);
        let data = u8_specs::wrapping_add(v, 1);
        let c3 = Self::write_m(c2, addr, data);
        CpuV { status: zn_flags(c3.status, data), ..c3 }
    }

    fn inc(&mut self, mode: &AddressingMode)
        requires
            old(self)@.wf(),
        ensures
            final(self)@ == Self::inc_m(old(self)@, *mode),
            final(self)@.wf(),
    {
        let addr = self.get_operand_address(mode);
        let value = self.mem_read(addr);
        let data = value.wrapping_add(1);
        self.mem_write(addr, data);
        self.update_zero_and_negative_flags(data);
        proof {
            assert(self@ =~= Self::inc_m(old(self)@, *mode));
        }
    }

    fn dex(&mut self)
        ensures
            final(self)@ == (CpuV {
                register_x: u8_specs::wrapping_sub(old(self).register_x, 1),
                status: zn_flags(old(self).status, u8_specs::wrapping_sub(old(self).register_x, 1)),
                ..old(self)@
            }),
    {
        self.register_x = self.register_x.wrapping_sub(1);
        self.update_zero_and_negative_flags(self.register_x);
    }

    fn dey(&mut self)
        ensures
            final(self)@ == (CpuV {
                register_y: u8_specs::wrapping_sub(old(self).register_y, 1),
                status: zn_flags(old(self).status, u8_specs::wrapping_sub(old(self).register_y, 1)),
                ..old(self)@
            }),
    {
        self.register_y = self.register_y.wrapping_sub(1);
        self.update_zero_and_negative_flags(self.register_y);
    }

    /// Increment wraps modulo 256.
    fn inx(&mut self)
        ensures
            final(self)@ == (CpuV {
                register_x: u8_specs::wrapping_add(old(self).register_x, 1),
                status: zn_flags(old(self).status, u8_specs::wrapping_add(old(self).register_x, 1)),
                ..old(self)@
            }),
    {
        self.register_x = self.register_x.wrapping_add(1);
        self.update_zero_and_negative_flags(self.register_x);
    }

    fn iny(&mut self)
        ensures
            final(self)@ == (CpuV {
                register_y: u8_specs::wrapping_add(old(self).register_y, 1),
                status: zn_flags(old(self).status, u8_specs::wrapping_add(old(self).register_y, 1)),
                ..old(self)@
            }),
    {
        self.register_y = self.register_y.wrapping_add(1);
        self.update_zero_and_negative_flags(self.register_y);
    }

    pub open spec fn jmp_abs_m(c: CpuV) -> CpuV {
        let (addr, c1) = Self::read16_m(c, c.program_counter);
        CpuV { program_counter: addr, ..c1 }
    }

    fn jmp_abs(&mut self)
        requires
            old(self)@.wf(),
        ensures
            final(self)@ == Self::jmp_abs_m(old(self)@),
            final(self)@.wf(),
    {
        let mem_address = self.mem_read_u16(self.program_counter);
        self.program_counter = mem_address;
        proof {
            assert(self@ =~= Self::jmp_abs_m(old(self)@));
        }
    }

    /// Indirect jump with the hardware's page-boundary quirk: a pointer
    /// whose low byte is 0xFF fetches its high byte from the start of the
    /// same page.
    pub open spec fn jmp_indirect_m(c: CpuV) -> CpuV {
        let (mem_address, c1) = Self::read16_m(c, c.program_counter);
        if mem_address & 0x00FF == 0x00FF {
            let (lo, c2) = Self::read_m(c1, mem_address);
            let (hi, c3) = Self::read_m(c2, mem_address & 0xFF00);
            CpuV { program_counter: ((((hi as u16) << 8) | (lo as u16)) as u16), ..c3 }
        } else {
            let (t, c2) = Self::read16_m(c1, mem_address);
            CpuV { program_counter: t, ..c2 }
        }
    }

    fn jmp_indirect(&mut self)
        requires
            old(self)@.wf(),
        ensures
            final(self)@ == Self::jmp_indirect_m(old(self)@),
            final(self)@.wf(),
    {
        let mem_address = self.mem_read_u16(self.program_counter);
        let indirect_ref = if mem_address & 0x00FF == 0x00FF {
            let lo = self.mem_read(mem_address);
            let hi = self.mem_read(mem_address & 0xFF00);
            ((hi as u16) << 8) | (lo as u16)
        } else {
            self.mem_read_u16(mem_address)
        };
        self.program_counter = indirect_ref;
        proof {
            assert(self@ =~= Self::jmp_indirect_m(old(self)@));
        }
    }

    pub open spec fn jsr_m(c: CpuV) -> CpuV {
        let c1 = Self::stack_push16_m(c, u16_specs::wrapping_add(c.program_counter, 1));
        let (addr, c2) = Self::read16_m(c1, c1.program_counter);
        CpuV { program_counter: addr, ..c2 }
    }

    fn jsr(&mut self)
        requires
            old(self)@.wf(),
        ensures
            final(self)@ == Self::jsr_m(old(self)@),
            final(self)@.wf(),
    {
        let ret = self.program_counter.wrapping_add(1);
        self.stack_push_u16(ret);
        let mem_address = self.mem_read_u16(self.program_counter);
        self.program_counter = mem_address;
        proof {
            assert(self@ =~= Self::jsr_m(old(self)@));
        }
    }

    pub open spec fn rts_m(c: CpuV) -> CpuV {
        let (addr, c1) = Self::stack_pop16_m(c);
        CpuV { program_counter: u16_specs::wrapping_add(addr, 1), ..c1 }
    }

    fn rts(&mut self)
        requires
            old(self)@.wf(),
        ensures
            final(self)@ == Self::rts_m(old(self)@),
            final(self)@.wf(),
    {
        let addr = self.stack_pop_u16();
        self.program_counter = addr.wrapping_add(1);
        proof {
            assert(self@ =~= Self::rts_m(old(self)@));
        }
    }

    pub open spec fn lda_m(c: CpuV, mode: AddressingMode) -> CpuV {
        let (addr, c1) = Self::operand_m(c, mode);
        let (v, c2) = Self::read_m(c1, addr);
        CpuV { register_a: v, status: zn_flags(c2.status, v), ..c2 }
    }

    fn lda(&mut self, mode: &AddressingMode)
        requires
            old(self)@.wf(),
        ensures
            final(self)@ == Self::lda_m(old(self)@, *mode),
            final(self)@.wf(),
    {
        let addr = self.get_operand_address(mode);
        let value = self.mem_read(addr);
        self.register_a = value;
        self.update_zero_and_negative_flags(self.register_a);
        proof {
            assert(self@ =~= Self::lda_m(old(self)@, *mode));
        }
    }

    pub open spec fn ldx_m(c: CpuV, mode: AddressingMode) -> CpuV {
        let (addr, c1) = Self::operand_m(c, mode);
        let (v, c2) = Self::read_m(c1, addr);
        CpuV { register_x: v, status: zn_flags(c2.status, v), ..c2 }
    }

    fn ldx(&mut self, mode: &AddressingMode)
        requires
            old(self)@.wf(),
        ensures
            final(self)@ == Self::ldx_m(old(self)@, *mode),
            final(self)@.wf(),
    {
        let addr = self.get_operand_address(mode);
        let value = self.mem_read(addr);
        self.register_x = value;
        self.update_zero_and_negative_flags(self.register_x);
        proof {
            assert(self@ =~= Self::ldx_m(old(self)@, *mode));
        }
    }

    pub open spec fn ldy_m(c: CpuV, mode: AddressingMode) -> CpuV {
        let (addr, c1) = Self::operand_m(c, mode);
        let (v, c2) = Self::read_m(c1, addr);
        CpuV { register_y: v, status: zn_flags(c2.status, v), ..c2 }
    }

    fn ldy(&mut self, mode: &AddressingMode)
        requires
            old(self)@.wf(),
        ensures
            final(self)@ == Self::ldy_m(old(self)@, *mode),
            final(self)@.wf(),
    {
        let addr = self.get_operand_address(mode);
        let value = self.mem_read(addr);
        self.register_y = value;
        self.update_zero_and_negative_flags(self.register_y);
        proof {
            assert(self@ =~= Self::ldy_m(old(self)@, *mode));
        }
    }

    fn pha(&mut self)
        requires
            old(self)@.wf(),
        ensures
            final(self)@ == Self::stack_push_m(old(self)@, old(self).register_a),
            final(self)@.wf(),
    {
        self.stack_push(self.register_a);
    }

    /// The pushed status always carries bits 4 and 5 set (the hardware's
    /// break-flag quirk for a software push).
    fn php(&mut self)
        requires
            old(self)@.wf(),
        ensures
            final(self)@ == Self::stack_push_m(old(self)@, old(self).status | 0b0011_0000),
            final(self)@.wf(),
    {
        self.stack_push(self.status | 0b0011_0000);
    }

    pub open spec fn pla_m(c: CpuV) -> CpuV {
        let (v, c1) = Self::stack_pop_m(c);
        CpuV { register_a: v, status: zn_flags(c1.status, v), ..c1 }
    }

    fn pla(&mut self)
        requires
            old(self)@.wf(),
        ensures
            final(self)@ == Self::pla_m(old(self)@),
            final(self)@.wf(),
    {
        let value = self.stack_pop();
        self.register_a = value;
        self.update_zero_and_negative_flags(self.register_a);
        proof {
            assert(self@ =~= Self::pla_m(old(self)@));
        }
    }

    /// A pulled status drops the break flag and keeps bit 5 set.
    pub open spec fn plp_m(c: CpuV) -> CpuV {
        let (v, c1) = Self::stack_pop_m(c);
        CpuV { status: (v & 0b1110_1111) | 0b0010_0000, ..c1 }
    }

    fn plp(&mut self)
        requires
            old(self)@.wf(),
        ensures
            final(self)@ == Self::plp_m(old(self)@),
            final(self)@.wf(),
    {
        let flags = self.stack_pop();
        self.status = (flags & 0b1110_1111) | 0b0010_0000;
        proof {
            assert(self@ =~= Self::plp_m(old(self)@));
        }
    }

    pub open spec fn rti_m(c: CpuV) -> CpuV {
        let (v, c1) = Self::stack_pop_m(c);
        let c2 = CpuV { status: (v & 0b1110_1111) | 0b0010_0000, ..c1 };
        let (addr, c3) = Self::stack_pop16_m(c2);
        CpuV { program_counter: addr, ..c3 }
    }

    fn rti(&mut self)
        requires
            old(self)@.wf(),
        ensures
            final(self)@ == Self::rti_m(old(self)@),
            final(self)@.wf(),
    {
        let flags = self.stack_pop();
        self.status = (flags & 0b1110_1111) | 0b0010_0000;
        self.program_counter = self.stack_pop_u16();
        proof {
            assert(self@ =~= Self::rti_m(old(self)@));
        }
    }

    /// Stores leave the status flags untouched.
    pub open spec fn sta_m(c: CpuV, mode: AddressingMode) -> CpuV {
        let (addr, c1) = Self::operand_m(c, mode);
        Self::write_m(c1, addr, c1.register_a)
    }

    fn sta(&mut self, mode: &AddressingMode)
        requires
            old(self)@.wf(),
        ensures
            final(self)@ == Self::sta_m(old(self)@, *mode),
            final(self)@.wf(),
    {
        let addr = self.get_operand_address(mode);
        self.mem_write(addr, self.register_a);
        proof {
            assert(self@ =~= Self::sta_m(old(self)@, *mode));
        }
    }

    /// Stores leave the status flags untouched.
    pub open spec fn stx_m(c: CpuV, mode: AddressingMode) -> CpuV {
        let (addr, c1) = Self::operand_m(c, mode);
        Self::write_m(c1, addr, c1.register_x)
    }

    fn stx(&mut self, mode: &AddressingMode)
        requires
            old(self)@.wf(),
        ensures
            final(self)@ == Self::stx_m(old(self)@, *mode),
            final(self)@.wf(),
    {
        let addr = self.get_operand_address(mode);
        self.mem_write(addr, self.register_x);
        proof {
            assert(self@ =~= Self::stx_m(old(self)@, *mode));
        }
    }

    /// Stores leave the status flags untouched.
    pub open spec fn sty_m(c: CpuV, mode: AddressingMode) -> CpuV {
        let (addr, c1) = Self::operand_m(c, mode);
        Self::write_m(c1, addr, c1.register_y)
    }

    fn sty(&mut self, mode: &AddressingMode)
        requires
            old(self)@.wf(),
        ensures
            final(self)@ == Self::sty_m(old(self)@, *mode),
            final(self)@.wf(),
    {
        let addr = self.get_operand_address(mode);
        self.mem_write(addr, self.register_y);
        proof {
            assert(self@ =~= Self::sty_m(old(self)@, *mode));
        }
    }

    fn tax(&mut self)
        ensures
            final(self)@ == (CpuV {
                register_x: old(self).register_a,
                status: zn_flags(old(self).status, old(self).register_a),
                ..old(self)@
            }),
    {
        self.register_x = self.register_a;
        self.update_zero_and_negative_flags(self.register_x);
    }

    fn tay(&mut self)
        ensures
            final(self)@ == (CpuV {
                register_y: old(self).register_a,
                status: zn_flags(old(self).status, old(self).register_a),
                ..old(self)@
            }),
    {
        self.register_y = self.register_a;
        self.update_zero_and_negative_flags(self.register_y);
    }

    fn tsx(&mut self)
        ensures
            final(self)@ == (CpuV {
                register_x: old(self).stack_pointer,
                status: zn_flags(old(self).status, old(self).stack_pointer),
                ..old(self)@
            }),
    {
        self.register_x = self.stack_pointer;
        self.update_zero_and_negative_flags(self.register_x);
    }

    fn txa(&mut self)
        ensures
            final(self)@ == (CpuV {
                register_a: old(self).register_x,
                status: zn_flags(old(self).status, old(self).register_x),
                ..old(self)@
            }),
    {
        self.register_a = self.register_x;
        self.update_zero_and_negative_flags(self.register_a);
    }

    fn txs(&mut self)
        ensures
            final(self)@ == (CpuV { stack_pointer: old(self).register_x, ..old(self)@ }),
    {
        self.stack_pointer = self.register_x;
    }

    fn tya(&mut self)
        ensures
            final(self)@ == (CpuV {
                register_a: old(self).register_y,
                status: zn_flags(old(self).status, old(self).register_y),
                ..old(self)@
            }),
    {
        self.register_a = self.register_y;
        self.update_zero_and_negative_flags(self.register_a);
    }

    fn clc(&mut self)
        ensures
            final(self)@ == (CpuV { status: set_flag(old(self).status, FLAG_CARRY, false), ..old(self)@ }),
    {
        self.update_carry_flag(false);
    }

    fn cld(&mut self)
        ensures
            final(self)@ == (CpuV { status: old(self).status & !FLAG_DECIMAL, ..old(self)@ }),
    {
        self.status = self.status & !FLAG_DECIMAL;
    }

    fn cli(&mut self)
        ensures
            final(self)@ == (CpuV { status: old(self).status & !FLAG_INTERRUPT_DISABLE, ..old(self)@ }),
    {
        self.status = self.status & !FLAG_INTERRUPT_DISABLE;
    }

    fn clv(&mut self)
        ensures
            final(self)@ == (CpuV { status: set_flag(old(self).status, FLAG_OVERFLOW, false), ..old(self)@ }),
    {
        self.update_overflow_flag(false);
    }

    fn sec(&mut self)
        ensures
            final(self)@ == (CpuV { status: set_flag(old(self).status, FLAG_CARRY, true), ..old(self)@ }),
    {
        self.update_carry_flag(true);
    }

    fn sed(&mut self)
        ensures
            final(self)@ == (CpuV { status: old(self).status | FLAG_DECIMAL, ..old(self)@ }),
    {
        self.status = self.status | FLAG_DECIMAL;
    }

    fn sei(&mut self)
        ensures
            final(self)@ == (CpuV { status: old(self).status | FLAG_INTERRUPT_DISABLE, ..old(self)@ }),
    {
        self.status = self.status | FLAG_INTERRUPT_DISABLE;
    }

    /// Uniform interrupt dispatch: push the return address and the status
    /// (break bits taken from the descriptor's mask, bit 5 always set),
    /// disable further interrupts, consume the descriptor's cycle cost and
    /// load the program counter from its vector.
    pub open spec fn interrupt_m(c: CpuV, intr: Interrupt) -> CpuV {
        let c1 = Self::stack_push16_m(c, c.program_counter);
        let flag = (c1.status & 0b1100_1111) | (intr.b_flag_mask & 0b0011_0000);
        let c2 = Self::stack_push_m(c1, flag);
        let c3 = CpuV { status: c2.status | FLAG_INTERRUPT_DISABLE, ..c2 };
        let (b4, _edge) = Bus::tick_m(c3.bus, intr.cpu_cycles);
        let c4 = CpuV { bus: b4, ..c3 };
        let (v, c5) = Self::read16_m(c4, intr.vector_addr);
        CpuV { program_counter: v, ..c5 }
    }

    pub fn interrupt(&mut self, intr: &Interrupt)
        requires
            old(self)@.wf(),
            intr.cpu_cycles <= 85,
        ensures
            final(self)@ == Self::interrupt_m(old(self)@, *intr),
            final(self)@.wf(),
    {
        self.stack_push_u16(self.program_counter);
        let flag = (self.status & 0b1100_1111) | (intr.b_flag_mask & 0b0011_0000);
        self.stack_push(flag);
        self.status = self.status | FLAG_INTERRUPT_DISABLE;
        let _ = self.bus.tick(intr.cpu_cycles);
        self.program_counter = self.mem_read_u16(intr.vector_addr);
        proof {
            assert(self@ =~= Self::interrupt_m(old(self)@, *intr));
        }
    }

    /// The semantic effect of one decoded instruction, before the
    /// program-counter adjustment and bus ticking of the surrounding step.
    /// The software interrupt is handled by the step itself and is the
    /// identity here.
    #[verifier::opaque]
    pub open spec fn exec_instr_m(c: CpuV, instr: OpCode) -> CpuV {
        match instr.mnemonic {
            Mnemonic::ADC => Self::adc_m(c, instr.mode),
            Mnemonic::AND => Self::and_m(c, instr.mode),
            Mnemonic::ASL => if instr.code == 0x0A {
                Self::asl_accumulator_m(c)
            } else {
                Self::asl_m(c, instr.mode)
            },
            Mnemonic::BCC => Self::branch_m(c, c.status & 0b0000_0001 == 0),
            Mnemonic::BCS => Self::branch_m(c, c.status & 0b0000_0001 == 1),
            Mnemonic::BEQ => Self::branch_m(c, (c.status & 0b0000_0010) >> 1 == 1),
            Mnemonic::BIT => Self::bit_m(c, instr.mode),
            Mnemonic::BMI => Self::branch_m(c, (c.status & 0b1000_0000) >> 7 == 1),
            Mnemonic::BNE => Self::branch_m(c, (c.status & 0b0000_0010) >> 1 == 0),
            Mnemonic::BPL => Self::branch_m(c, (c.status & 0b1000_0000) >> 7 == 0),
            Mnemonic::BRK => c,
            Mnemonic::BVC => Self::branch_m(c, (c.status & 0b0100_0000) >> 6 == 0),
            Mnemonic::BVS => Self::branch_m(c, (c.status & 0b0100_0000) >> 6 == 1),
            Mnemonic::CLC => CpuV { status: set_flag(c.status, FLAG_CARRY, false), ..c },
            Mnemonic::CLD => CpuV { status: c.status & !FLAG_DECIMAL, ..c },
            Mnemonic::CLI => CpuV { status: c.status & !FLAG_INTERRUPT_DISABLE, ..c },
            Mnemonic::CLV => CpuV { status: set_flag(c.status, FLAG_OVERFLOW, false), ..c },
            Mnemonic::CMP => Self::compare_m(c, instr.mode, c.register_a),
            Mnemonic::CPX => Self::compare_m(c, instr.mode, c.register_x),
            Mnemonic::CPY => Self::compare_m(c, instr.mode, c.register_y),
            Mnemonic::DEC => Self::dec_m(c, instr.mode),
            Mnemonic::DEX => CpuV {
                register_x: u8_specs::wrapping_sub(c.register_x, 1),
                status: zn_flags(c.status, u8_specs::wrapping_sub(c.register_x, 1)),
                ..c
            },
            Mnemonic::DEY => CpuV {
                register_y: u8_specs::wrapping_sub(c.register_y, 1),
                status: zn_flags(c.status, u8_specs::wrapping_sub(c.register_y, 1)),
                ..c
            },
            Mnemonic::EOR => Self::eor_m(c, instr.mode),
            Mnemonic::INC => Self::inc_m(c, instr.mode),
            Mnemonic::INX => CpuV {
                register_x: u8_specs::wrapping_add(c.register_x, 1),
                status: zn_flags(c.status, u8_specs::wrapping_add(c.register_x, 1)),
                ..c
            },
            Mnemonic::INY => CpuV {
                register_y: u8_specs::wrapping_add(c.register_y, 1),
                status: zn_flags(c.status, u8_specs::wrapping_add(c.register_y, 1)),
                ..c
            },
            Mnemonic::JMP => if instr.code == 0x4C {
                Self::jmp_abs_m(c)
            } else {
                Self::jmp_indirect_m(c)
            },
            Mnemonic::JSR => Self::jsr_m(c),
            Mnemonic::LDA => Self::lda_m(c, instr.mode),
            Mnemonic::LDX => Self::ldx_m(c, instr.mode),
            Mnemonic::LDY => Self::ldy_m(c, instr.mode),
            Mnemonic::LSR => if instr.code == 0x4A {
                Self::lsr_accumulator_m(c)
            } else {
                Self::lsr_m(c, instr.mode)
            },
            Mnemonic::NOP => c,
            Mnemonic::ORA => Self::ora_m(c, instr.mode),
            Mnemonic::PHA => Self::stack_push_m(c, c.register_a),
            Mnemonic::PHP => Self::stack_push_m(c, c.status | 0b0011_0000),
            Mnemonic::PLA => Self::pla_m(c),
            Mnemonic::PLP => Self::plp_m(c),
            Mnemonic::ROL => if instr.code == 0x2A {
                Self::rol_accumulator_m(c)
            } else {
                Self::rol_m(c, instr.mode)
            },
            Mnemonic::ROR => if instr.code == 0x6A {
                Self::ror_accumulator_m(c)
            } else {
                Self::ror_m(c, instr.mode)
            },
            Mnemonic::RTI => Self::rti_m(c),
            Mnemonic::RTS => Self::rts_m(c),
            Mnemonic::SBC => Self::sbc_m(c, instr.mode),
            Mnemonic::SEC => CpuV { status: set_flag(c.status, FLAG_CARRY, true), ..c },
            Mnemonic::SED => CpuV { status: c.status | FLAG_DECIMAL, ..c },
            Mnemonic::SEI => CpuV { status: c.status | FLAG_INTERRUPT_DISABLE, ..c },
            Mnemonic::STA => Self::sta_m(c, instr.mode),
            Mnemonic::STX => Self::stx_m(c, instr.mode),
            Mnemonic::STY => Self::sty_m(c, instr.mode),
            Mnemonic::TAX => CpuV {
                register_x: c.register_a,
                status: zn_flags(c.status, c.register_a),
                ..c
            },
            Mnemonic::TAY => CpuV {
                register_y: c.register_a,
                status: zn_flags(c.status, c.register_a),
                ..c
            },
            Mnemonic::TSX => CpuV {
                register_x: c.stack_pointer,
                status: zn_flags(c.status, c.stack_pointer),
                ..c
            },
            Mnemonic::TXA => CpuV {
                register_a: c.register_x,
                status: zn_flags(c.status, c.register_x),
                ..c
            },
            Mnemonic::TXS => CpuV { stack_pointer: c.register_x, ..c },
            Mnemonic::TYA => CpuV {
                register_a: c.register_y,
                status: zn_flags(c.status, c.register_y),
                ..c
            },
        }
    }

    fn run_instruction(&mut self, instr: OpCode)
        requires
            old(self)@.wf(),
        ensures
            final(self)@ == Self::exec_instr_m(old(self)@, instr),
            final(self)@.wf(),
    {
        if matches!(instr.mnemonic, Mnemonic::ADC | Mnemonic::AND | Mnemonic::ASL | Mnemonic::BCC | Mnemonic::BCS | Mnemonic::BEQ | Mnemonic::BIT | Mnemonic::BMI | Mnemonic::BNE | Mnemonic::BPL) {
            self.run_instruction_a(instr);
        } else if matches!(instr.mnemonic, Mnemonic::BRK | Mnemonic::BVC | Mnemonic::BVS | Mnemonic::CLC | Mnemonic::CLD | Mnemonic::CLI | Mnemonic::CLV | Mnemonic::CMP | Mnemonic::CPX | Mnemonic::CPY) {
            self.run_instruction_b(instr);
        } else if matches!(instr.mnemonic, Mnemonic::DEC | Mnemonic::DEX | Mnemonic::DEY | Mnemonic::EOR | Mnemonic::INC | Mnemonic::INX | Mnemonic::INY | Mnemonic::JMP | Mnemonic::JSR | Mnemonic::LDA) {
            self.run_instruction_c(instr);
        } else if matches!(instr.mnemonic, Mnemonic::LDX | Mnemonic::LDY | Mnemonic::LSR | Mnemonic::NOP | Mnemonic::ORA | Mnemonic::PHA | Mnemonic::PHP | Mnemonic::PLA | Mnemonic::PLP | Mnemonic::ROL) {
            self.run_instruction_d(instr);
        } else if matches!(instr.mnemonic, Mnemonic::ROR | Mnemonic::RTI | Mnemonic::RTS | Mnemonic::SBC | Mnemonic::SEC) {
            self.run_instruction_e(instr);
        } else if matches!(instr.mnemonic, Mnemonic::SED | Mnemonic::SEI | Mnemonic::STA | Mnemonic::STX | Mnemonic::STY) {
            self.run_instruction_g(instr);
        } else {
            self.run_instruction_f(instr);
        }
    }

    #[verifier::rlimit(100)]
    #[verifier::spinoff_prover]
    fn run_instruction_a(&mut self, instr: OpCode)
        requires
            old(self)@.wf(),
            instr.mnemonic is ADC || instr.mnemonic is AND || instr.mnemonic is ASL || instr.mnemonic is BCC || instr.mnemonic is BCS || instr.mnemonic is BEQ || instr.mnemonic is BIT || instr.mnemonic is BMI || instr.mnemonic is BNE || instr.mnemonic is BPL,
        ensures
            final(self)@ == Self::exec_instr_m(old(self)@, instr),
            final(self)@.wf(),
    {
        match instr.mnemonic {
            Mnemonic::ADC => {
                self.adc(&instr.mode);
                proof {
                    assert(self@ == Self::exec_instr_m(old(self)@, instr)) by {
                        reveal(CPU::exec_instr_m);
                        assert(self@ =~= Self::exec_instr_m(old(self)@, instr));
                    };
                }
            },
            Mnemonic::AND => {
                self.and(&instr.mode);
                proof {
                    assert(self@ == Self::exec_instr_m(old(self)@, instr)) by {
                        reveal(CPU::exec_instr_m);
                        assert(self@ =~= Self::exec_instr_m(old(self)@, instr));
                    };
                }
            },
            Mnemonic::ASL => {
                if instr.code == 0x0A {
                    self.asl_accumulator();
                } else {
                    self.asl(&instr.mode);
                }
                proof {
                    assert(self@ == Self::exec_instr_m(old(self)@, instr)) by {
                        reveal(CPU::exec_instr_m);
                        assert(self@ =~= Self::exec_instr_m(old(self)@, instr));
                    };
                }
            },
            Mnemonic::BCC => {
                self.jump_to_branch(self.status & 0b0000_0001 == 0);
                proof {
                    assert(self@ == Self::exec_instr_m(old(self)@, instr)) by {
                        reveal(CPU::exec_instr_m);
                        assert(self@ =~= Self::exec_instr_m(old(self)@, instr));
                    };
                }
            },
            Mnemonic::BCS => {
                self.jump_to_branch(self.status & 0b0000_0001 == 1);
                proof {
                    assert(self@ == Self::exec_instr_m(old(self)@, instr)) by {
                        reveal(CPU::exec_instr_m);
                        assert(self@ =~= Self::exec_instr_m(old(self)@, instr));
                    };
                }
            },
            Mnemonic::BEQ => {
                self.jump_to_branch((self.status & 0b0000_0010) >> 1 == 1);
                proof {
                    assert(self@ == Self::exec_instr_m(old(self)@, instr)) by {
                        reveal(CPU::exec_instr_m);
                        assert(self@ =~= Self::exec_instr_m(old(self)@, instr));
                    };
                }
            },
            Mnemonic::BIT => {
                self.bit(&instr.mode);
                proof {
                    assert(self@ == Self::exec_instr_m(old(self)@, instr)) by {
                        reveal(CPU::exec_instr_m);
                        assert(self@ =~= Self::exec_instr_m(old(self)@, instr));
                    };
                }
            },
            Mnemonic::BMI => {
                self.jump_to_branch((self.status & 0b1000_0000) >> 7 == 1);
                proof {
                    assert(self@ == Self::exec_instr_m(old(self)@, instr)) by {
                        reveal(CPU::exec_instr_m);
                        assert(self@ =~= Self::exec_instr_m(old(self)@, instr));
                    };
                }
            },
            Mnemonic::BNE => {
                self.jump_to_branch((self.status & 0b0000_0010) >> 1 == 0);
                proof {
                    assert(self@ == Self::exec_instr_m(old(self)@, instr)) by {
                        reveal(CPU::exec_instr_m);
                        assert(self@ =~= Self::exec_instr_m(old(self)@, instr));
                    };
                }
            },
            Mnemonic::BPL => {
                self.jump_to_branch((self.status & 0b1000_0000) >> 7 == 0);
                proof {
                    assert(self@ == Self::exec_instr_m(old(self)@, instr)) by {
                        reveal(CPU::exec_instr_m);
                        assert(self@ =~= Self::exec_instr_m(old(self)@, instr));
                    };
                }
            },
            _ => {
            },
        }
    }

    #[verifier::rlimit(100)]
    #[verifier::spinoff_prover]
    fn run_instruction_b(&mut self, instr: OpCode)
        requires
            old(self)@.wf(),
            instr.mnemonic is BRK || instr.mnemonic is BVC || instr.mnemonic is BVS || instr.mnemonic is CLC || instr.mnemonic is CLD || instr.mnemonic is CLI || instr.mnemonic is CLV || instr.mnemonic is CMP || instr.mnemonic is CPX || instr.mnemonic is CPY,
        ensures
            final(self)@ == Self::exec_instr_m(old(self)@, instr),
            final(self)@.wf(),
    {
        match instr.mnemonic {
            Mnemonic::BRK => {
                proof {
                    assert(self@ == Self::exec_instr_m(old(self)@, instr)) by {
                        reveal(CPU::exec_instr_m);
                        assert(self@ =~= Self::exec_instr_m(old(self)@, instr));
                    };
                }
            },
            Mnemonic::BVC => {
                self.jump_to_branch((self.status & 0b0100_0000) >> 6 == 0);
                proof {
                    assert(self@ == Self::exec_instr_m(old(self)@, instr)) by {
                        reveal(CPU::exec_instr_m);
                        assert(self@ =~= Self::exec_instr_m(old(self)@, instr));
                    };
                }
            },
            Mnemonic::BVS => {
                self.jump_to_branch((self.status & 0b0100_0000) >> 6 == 1);
                proof {
                    assert(self@ == Self::exec_instr_m(old(self)@, instr)) by {
                        reveal(CPU::exec_instr_m);
                        assert(self@ =~= Self::exec_instr_m(old(self)@, instr));
                    };
                }
            },
            Mnemonic::CLC => {
                self.clc();
                proof {
                    assert(self@ == Self::exec_instr_m(old(self)@, instr)) by {
                        reveal(CPU::exec_instr_m);
                        assert(self@ =~= Self::exec_instr_m(old(self)@, instr));
                    };
                }
            },
            Mnemonic::CLD => {
                self.cld();
                proof {
                    assert(self@ == Self::exec_instr_m(old(self)@, instr)) by {
                        reveal(CPU::exec_instr_m);
                        assert(self@ =~= Self::exec_instr_m(old(self)@, instr));
                    };
                }
            },
            Mnemonic::CLI => {
                self.cli();
                proof {
                    assert(self@ == Self::exec_instr_m(old(self)@, instr)) by {
                        reveal(CPU::exec_instr_m);
                        assert(self@ =~= Self::exec_instr_m(old(self)@, instr));
                    };
                }
            },
            Mnemonic::CLV => {
                self.clv();
                proof {
                    assert(self@ == Self::exec_instr_m(old(self)@, instr)) by {
                        reveal(CPU::exec_instr_m);
                        assert(self@ =~= Self::exec_instr_m(old(self)@, instr));
                    };
                }
            },
            Mnemonic::CMP => {
                self.cmp(&instr.mode);
                proof {
                    assert(self@ == Self::exec_instr_m(old(self)@, instr)) by {
                        reveal(CPU::exec_instr_m);
                        assert(self@ =~= Self::exec_instr_m(old(self)@, instr));
                    };
                }
            },
            Mnemonic::CPX => {
                self.cpx(&instr.mode);
                proof {
                    assert(self@ == Self::exec_instr_m(old(self)@, instr)) by {
                        reveal(CPU::exec_instr_m);
                        assert(self@ =~= Self::exec_instr_m(old(self)@, instr));
                    };
                }
            },
            Mnemonic::CPY => {
                self.cpy(&instr.mode);
                proof {
                    assert(self@ == Self::exec_instr_m(old(self)@, instr)) by {
                        reveal(CPU::exec_instr_m);
                        assert(self@ =~= Self::exec_instr_m(old(self)@, instr));
                    };
                }
            },
            _ => {
            },
        }
    }

    #[verifier::rlimit(100)]
    #[verifier::spinoff_prover]
    fn run_instruction_c(&mut self, instr: OpCode)
        requires
            old(self)@.wf(),
            instr.mnemonic is DEC || instr.mnemonic is DEX || instr.mnemonic is DEY || instr.mnemonic is EOR || instr.mnemonic is INC || instr.mnemonic is INX || instr.mnemonic is INY || instr.mnemonic is JMP || instr.mnemonic is JSR || instr.mnemonic is LDA,
        ensures
            final(self)@ == Self::exec_instr_m(old(self)@, instr),
            final(self)@.wf(),
    {
        match instr.mnemonic {
            Mnemonic::DEC => {
                self.dec(&instr.mode);
                proof {
                    assert(self@ == Self::exec_instr_m(old(self)@, instr)) by {
                        reveal(CPU::exec_instr_m);
                        assert(self@ =~= Self::exec_instr_m(old(self)@, instr));
                    };
                }
            },
            Mnemonic::DEX => {
                self.dex();
                proof {
                    assert(self@ == Self::exec_instr_m(old(self)@, instr)) by {
                        reveal(CPU::exec_instr_m);
                        assert(self@ =~= Self::exec_instr_m(old(self)@, instr));
                    };
                }
            },
            Mnemonic::DEY => {
                self.dey();
                proof {
                    assert(self@ == Self::exec_instr_m(old(self)@, instr)) by {
                        reveal(CPU::exec_instr_m);
                        assert(self@ =~= Self::exec_instr_m(old(self)@, instr));
                    };
                }
            },
            Mnemonic::EOR => {
                self.eor(&instr.mode);
                proof {
                    assert(self@ == Self::exec_instr_m(old(self)@, instr)) by {
                        reveal(CPU::exec_instr_m);
                        assert(self@ =~= Self::exec_instr_m(old(self)@, instr));
                    };
                }
            },
            Mnemonic::INC => {
                self.inc(&instr.mode);
                proof {
                    assert(self@ == Self::exec_instr_m(old(self)@, instr)) by {
                        reveal(CPU::exec_instr_m);
                        assert(self@ =~= Self::exec_instr_m(old(self)@, instr));
                    };
                }
            },
            Mnemonic::INX => {
                self.inx();
                proof {
                    assert(self@ == Self::exec_instr_m(old(self)@, instr)) by {
                        reveal(CPU::exec_instr_m);
                        assert(self@ =~= Self::exec_instr_m(old(self)@, instr));
                    };
                }
            },
            Mnemonic::INY => {
                self.iny();
                proof {
                    assert(self@ == Self::exec_instr_m(old(self)@, instr)) by {
                        reveal(CPU::exec_instr_m);
                        assert(self@ =~= Self::exec_instr_m(old(self)@, instr));
                    };
                }
            },
            Mnemonic::JMP => {
                if instr.code == 0x4C {
                    self.jmp_abs();
                } else {
                    self.jmp_indirect();
                }
                proof {
                    assert(self@ == Self::exec_instr_m(old(self)@, instr)) by {
                        reveal(CPU::exec_instr_m);
                        assert(self@ =~= Self::exec_instr_m(old(self)@, instr));
                    };
                }
            },
            Mnemonic::JSR => {
                self.jsr();
                proof {
                    assert(self@ == Self::exec_instr_m(old(self)@, instr)) by {
                        reveal(CPU::exec_instr_m);
                        assert(self@ =~= Self::exec_instr_m(old(self)@, instr));
                    };
                }
            },
            Mnemonic::LDA => {
                self.lda(&instr.mode);
                proof {
                    assert(self@ == Self::exec_instr_m(old(self)@, instr)) by {
                        reveal(CPU::exec_instr_m);
                        assert(self@ =~= Self::exec_instr_m(old(self)@, instr));
                    };
                }
            },
            _ => {
            },
        }
    }

    #[verifier::rlimit(100)]
    #[verifier::spinoff_prover]
    fn run_instruction_d(&mut self, instr: OpCode)
        requires
            old(self)@.wf(),
            instr.mnemonic is LDX || instr.mnemonic is LDY || instr.mnemonic is LSR || instr.mnemonic is NOP || instr.mnemonic is ORA || instr.mnemonic is PHA || instr.mnemonic is PHP || instr.mnemonic is PLA || instr.mnemonic is PLP || instr.mnemonic is ROL,
        ensures
            final(self)@ == Self::exec_instr_m(old(self)@, instr),
            final(self)@.wf(),
    {
        match instr.mnemonic {
            Mnemonic::LDX => {
                self.ldx(&instr.mode);
                proof {
                    assert(self@ == Self::exec_instr_m(old(self)@, instr)) by {
                        reveal(CPU::exec_instr_m);
                        assert(self@ =~= Self::exec_instr_m(old(self)@, instr));
                    };
                }
            },
            Mnemonic::LDY => {
                self.ldy(&instr.mode);
                proof {
                    assert(self@ == Self::exec_instr_m(old(self)@, instr)) by {
                        reveal(CPU::exec_instr_m);
                        assert(self@ =~= Self::exec_instr_m(old(self)@, instr));
                    };
                }
            },
            Mnemonic::LSR => {
                if instr.code == 0x4A {
                    self.lsr_accumulator();
                } else {
                    self.lsr(&instr.mode);
                }
                proof {
                    assert(self@ == Self::exec_instr_m(old(self)@, instr)) by {
                        reveal(CPU::exec_instr_m);
                        assert(self@ =~= Self::exec_instr_m(old(self)@, instr));
                    };
                }
            },
            Mnemonic::NOP => {
                proof {
                    assert(self@ == Self::exec_instr_m(old(self)@, instr)) by {
                        reveal(CPU::exec_instr_m);
                        assert(self@ =~= Self::exec_instr_m(old(self)@, instr));
                    };
                }
            },
            Mnemonic::ORA => {
                self.ora(&instr.mode);
                proof {
                    assert(self@ == Self::exec_instr_m(old(self)@, instr)) by {
                        reveal(CPU::exec_instr_m);
                        assert(self@ =~= Self::exec_instr_m(old(self)@, instr));
                    };
                }
            },
            Mnemonic::PHA => {
                self.pha();
                proof {
                    assert(self@ == Self::exec_instr_m(old(self)@, instr)) by {
                        reveal(CPU::exec_instr_m);
                        assert(self@ =~= Self::exec_instr_m(old(self)@, instr));
                    };
                }
            },
            Mnemonic::PHP => {
                self.php();
                proof {
                    assert(self@ == Self::exec_instr_m(old(self)@, instr)) by {
                        reveal(CPU::exec_instr_m);
                        assert(self@ =~= Self::exec_instr_m(old(self)@, instr));
                    };
                }
            },
            Mnemonic::PLA => {
                self.pla();
                proof {
                    assert(self@ == Self::exec_instr_m(old(self)@, instr)) by {
                        reveal(CPU::exec_instr_m);
                        assert(self@ =~= Self::exec_instr_m(old(self)@, instr));
                    };
                }
            },
            Mnemonic::PLP => {
                self.plp();
                proof {
                    assert(self@ == Self::exec_instr_m(old(self)@, instr)) by {
                        reveal(CPU::exec_instr_m);
                        assert(self@ =~= Self::exec_instr_m(old(self)@, instr));
                    };
                }
            },
            Mnemonic::ROL => {
                if instr.code == 0x2A {
                    self.rol_accumulator();
                } else {
                    self.rol(&instr.mode);
                }
                proof {
                    assert(self@ == Self::exec_instr_m(old(self)@, instr)) by {
                        reveal(CPU::exec_instr_m);
                        assert(self@ =~= Self::exec_instr_m(old(self)@, instr));
                    };
                }
            },
            _ => {
            },
        }
    }

    #[verifier::rlimit(100)]
    #[verifier::spinoff_prover]
    fn run_instruction_e(&mut self, instr: OpCode)
        requires
            old(self)@.wf(),
            instr.mnemonic is ROR || instr.mnemonic is RTI || instr.mnemonic is RTS || instr.mnemonic is SBC || instr.mnemonic is SEC,
        ensures
            final(self)@ == Self::exec_instr_m(old(self)@, instr),
            final(self)@.wf(),
    {
        match instr.mnemonic {
            Mnemonic::ROR => {
                if instr.code == 0x6A {
                    self.ror_accumulator();
                } else {
                    self.ror(&instr.mode);
                }
                proof {
                    assert(self@ == Self::exec_instr_m(old(self)@, instr)) by {
                        reveal(CPU::exec_instr_m);
                        assert(self@ =~= Self::exec_instr_m(old(self)@, instr));
                    };
                }
            },
            Mnemonic::RTI => {
                self.rti();
                proof {
                    assert(self@ == Self::exec_instr_m(old(self)@, instr)) by {
                        reveal(CPU::exec_instr_m);
                        assert(self@ =~= Self::exec_instr_m(old(self)@, instr));
                    };
                }
            },
            Mnemonic::RTS => {
                self.rts();
                proof {
                    assert(self@ == Self::exec_instr_m(old(self)@, instr)) by {
                        reveal(CPU::exec_instr_m);
                        assert(self@ =~= Self::exec_instr_m(old(self)@, instr));
                    };
                }
            },
            Mnemonic::SBC => {
                self.sbc(&instr.mode);
                proof {
                    assert(self@ == Self::exec_instr_m(old(self)@, instr)) by {
                        reveal(CPU::exec_instr_m);
                        assert(self@ =~= Self::exec_instr_m(old(self)@, instr));
                    };
                }
            },
            Mnemonic::SEC => {
                self.sec();
                proof {
                    assert(self@ == Self::exec_instr_m(old(self)@, instr)) by {
                        reveal(CPU::exec_instr_m);
                        assert(self@ =~= Self::exec_instr_m(old(self)@, instr));
                    };
                }
            },
            _ => {
            },
        }
    }

    #[verifier::rlimit(100)]
    #[verifier::spinoff_prover]
    fn run_instruction_g(&mut self, instr: OpCode)
        requires
            old(self)@.wf(),
            instr.mnemonic is SED || instr.mnemonic is SEI || instr.mnemonic is STA || instr.mnemonic is STX || instr.mnemonic is STY,
        ensures
            final(self)@ == Self::exec_instr_m(old(self)@, instr),
            final(self)@.wf(),
    {
        match instr.mnemonic {
            Mnemonic::SED => {
                self.sed();
                proof {
                    assert(self@ == Self::exec_instr_m(old(self)@, instr)) by {
                        reveal(CPU::exec_instr_m);
                        assert(self@ =~= Self::exec_instr_m(old(self)@, instr));
                    };
                }
            },
            Mnemonic::SEI => {
                self.sei();
                proof {
                    assert(self@ == Self::exec_instr_m(old(self)@, instr)) by {
                        reveal(CPU::exec_instr_m);
                        assert(self@ =~= Self::exec_instr_m(old(self)@, instr));
                    };
                }
            },
            Mnemonic::STA => {
                self.sta(&instr.mode);
                proof {
                    assert(self@ == Self::exec_instr_m(old(self)@, instr)) by {
                        reveal(CPU::exec_instr_m);
                        assert(self@ =~= Self::exec_instr_m(old(self)@, instr));
                    };
                }
            },
            Mnemonic::STX => {
                self.stx(&instr.mode);
                proof {
                    assert(self@ == Self::exec_instr_m(old(self)@, instr)) by {
                        reveal(CPU::exec_instr_m);
                        assert(self@ =~= Self::exec_instr_m(old(self)@, instr));
                    };
                }
            },
            Mnemonic::STY => {
                self.sty(&instr.mode);
                proof {
                    assert(self@ == Self::exec_instr_m(old(self)@, instr)) by {
                        reveal(CPU::exec_instr_m);
                        assert(self@ =~= Self::exec_instr_m(old(self)@, instr));
                    };
                }
            },
            _ => {
            },
        }
    }

    #[verifier::rlimit(100)]
    #[verifier::spinoff_prover]
    fn run_instruction_f(&mut self, instr: OpCode)
        requires
            old(self)@.wf(),
            instr.mnemonic is TAX || instr.mnemonic is TAY || instr.mnemonic is TSX || instr.mnemonic is TXA || instr.mnemonic is TXS || instr.mnemonic is TYA,
        ensures
            final(self)@ == Self::exec_instr_m(old(self)@, instr),
            final(self)@.wf(),
    {
        match instr.mnemonic {
            Mnemonic::TAX => {
                self.tax();
                proof {
                    assert(self@ == Self::exec_instr_m(old(self)@, instr)) by {
                        reveal(CPU::exec_instr_m);
                        assert(self@ =~= Self::exec_instr_m(old(self)@, instr));
                    };
                }
            },
            Mnemonic::TAY => {
                self.tay();
                proof {
                    assert(self@ == Self::exec_instr_m(old(self)@, instr)) by {
                        reveal(CPU::exec_instr_m);
                        assert(self@ =~= Self::exec_instr_m(old(self)@, instr));
                    };
                }
            },
            Mnemonic::TSX => {
                self.tsx();
                proof {
                    assert(self@ == Self::exec_instr_m(old(self)@, instr)) by {
                        reveal(CPU::exec_instr_m);
                        assert(self@ =~= Self::exec_instr_m(old(self)@, instr));
                    };
                }
            },
            Mnemonic::TXA => {
                self.txa();
                proof {
                    assert(self@ == Self::exec_instr_m(old(self)@, instr)) by {
                        reveal(CPU::exec_instr_m);
                        assert(self@ =~= Self::exec_instr_m(old(self)@, instr));
                    };
                }
            },
            Mnemonic::TXS => {
                self.txs();
                proof {
                    assert(self@ == Self::exec_instr_m(old(self)@, instr)) by {
                        reveal(CPU::exec_instr_m);
                        assert(self@ =~= Self::exec_instr_m(old(self)@, instr));
                    };
                }
            },
            Mnemonic::TYA => {
                self.tya();
                proof {
                    assert(self@ == Self::exec_instr_m(old(self)@, instr)) by {
                        reveal(CPU::exec_instr_m);
                        assert(self@ =~= Self::exec_instr_m(old(self)@, instr));
                    };
                }
            },
            _ => {
            },
        }
    }

    /// One interpreter step: dispatch a pending non-maskable interrupt,
    /// fetch and decode the opcode at the program counter, execute it,
    /// advance past the operands unless the instruction moved the counter
    /// itself, and drive the bus for the instruction's cycles. The software
    /// interrupt ends a batch run; an undefined opcode is the fatal error.
    #[verifier::opaque]
    pub open spec fn step_m(c: CpuV) -> (Result<StepInfo, EmuError>, CpuV) {
        let pending = c.bus.ppu.nmi_interrupt;
        let cleared = CpuV {
            bus: BusV { ppu: crate::ppu::PpuV { nmi_interrupt: None, ..c.bus.ppu }, ..c.bus },
            ..c
        };
        let c0 = if pending is Some {
            Self::interrupt_m(cleared, Interrupt::nmi_desc())
        } else {
            cleared
        };
        let (op, c1) = Self::read_m(c0, c0.program_counter);
        let c2 = CpuV { program_counter: u16_specs::wrapping_add(c1.program_counter, 1), ..c1 };
        match spec_decode(op) {
            None => (Err(EmuError::InvalidOpcode { opcode: op, address: c0.program_counter }), c2),
            Some(instr) => {
                if instr.mnemonic == Mnemonic::BRK {
                    (Ok(StepInfo { halted: true, frame_ready: false, cycles: instr.cycles }), c2)
                } else {
                    let c3 = Self::exec_instr_m(c2, instr);
                    let c4 = if c3.program_counter == c2.program_counter {
                        CpuV {
                            program_counter: u16_specs::wrapping_add(
                                c3.program_counter,
                                (instr.len - 1) as u16,
                            ),
                            ..c3
                        }
                    } else {
                        c3
                    };
                    let (b5, edge) = Bus::tick_m(c4.bus, instr.cycles);
                    (
                        Ok(StepInfo { halted: false, frame_ready: edge, cycles: instr.cycles }),
                        CpuV { bus: b5, ..c4 },
                    )
                }
            },
        }
    }

    #[verifier::rlimit(100)]
    pub fn step(&mut self) -> (r: Result<StepInfo, EmuError>)
        requires
            old(self)@.wf(),
        ensures
            (r, final(self)@) == Self::step_m(old(self)@),
            final(self)@.wf(),
    {
        proof {
            reveal(CPU::step_m);
        }
        let pending = self.bus.poll_nmi_status();
        if pending.is_some() {
            let nmi = Interrupt::nmi();
            self.interrupt(&nmi);
        }
        let pc0 = self.program_counter;
        let op = self.mem_read(pc0);
        self.program_counter = self.program_counter.wrapping_add(1);
        match decode(op) {
            None => {
                let r = Err(EmuError::InvalidOpcode { opcode: op, address: pc0 });
                proof {
                    assert((r, self@) =~= Self::step_m(old(self)@));
                }
                r
            },
            Some(instr) => {
                if instr.mnemonic == Mnemonic::BRK {
                    let r = Ok(StepInfo { halted: true, frame_ready: false, cycles: instr.cycles });
                    proof {
                        assert((r, self@) =~= Self::step_m(old(self)@));
                    }
                    return r;
                }
                let pc_state = self.program_counter;
                self.run_instruction(instr);
                if pc_state == self.program_counter {
                    self.program_counter = self.program_counter.wrapping_add((instr.len - 1) as u16);
                }
                let edge = self.bus.tick(instr.cycles);
                let r = Ok(StepInfo { halted: false, frame_ready: edge, cycles: instr.cycles });
                proof {
                    assert((r, self@) =~= Self::step_m(old(self)@));
                }
                r
            },
        }
    }

    /// The batch run as a function of the starting state and a step budget:
    /// `step_m` iterated until the software interrupt ends the program
    /// (`Ok(true)`), an undefined opcode aborts it (`Err`), or the budget
    /// runs out (`Ok(false)`).
    pub open spec fn run_m(c: CpuV, fuel: nat) -> (Result<bool, EmuError>, CpuV)
        decreases fuel,
    {
        if fuel == 0 {
            (Ok(false), c)
        } else {
            let (r, c1) = Self::step_m(c);
            match r {
                Err(e) => (Err(e), c1),
                Ok(info) => if info.halted {
                    (Ok(true), c1)
                } else {
                    Self::run_m(c1, (fuel - 1) as nat)
                },
            }
        }
    }

    /// Batch run with an explicit step budget, equal to `run_m`: it steps
    /// until the software interrupt ends the program (`Ok(true)`), an
    /// undefined opcode aborts it (`Err`), or the budget runs out
    /// (`Ok(false)`).
    #[verifier::rlimit(100)]
    pub fn run_with_limit(&mut self, max_steps: u64) -> (r: Result<bool, EmuError>)
        requires
            old(self)@.wf(),
        ensures
            (r, final(self)@) == Self::run_m(old(self)@, max_steps as nat),
            final(self)@.wf(),
    {
        let mut steps: u64 = max_steps;
        while steps > 0
            invariant
                self@.wf(),
                Self::run_m(old(self)@, max_steps as nat) == Self::run_m(self@, steps as nat),
            decreases steps,
        {
            let ghost pre = self@;
            let ghost k = steps as nat;
            match self.step() {
                Ok(info) => {
                    if info.halted {
                        proof {
                            assert(Self::run_m(pre, k) == (Ok::<bool, EmuError>(true), self@));
                        }
                        return Ok(true);
                    }
                },
                Err(e) => {
                    proof {
                        assert(Self::run_m(pre, k) == (Err::<bool, EmuError>(e), self@));
                    }
                    return Err(e);
                },
            }
            steps = steps - 1;
            proof {
                assert(Self::run_m(pre, k) == Self::run_m(self@, steps as nat));
            }
        }
        Ok(false)
    }

    /// Batch run: step until the software interrupt ends the program or an
    /// undefined opcode aborts it, under a step budget no real program
    /// reaches. The final state is the one `run_m` reaches with that budget
    /// and the result mirrors its verdict.
    pub fn run(&mut self) -> (r: Result<(), EmuError>)
        requires
            old(self)@.wf(),
        ensures
            ({
                let (r0, c) = Self::run_m(old(self)@, u64::MAX as nat);
                &&& final(self)@ == c
                &&& (r is Ok <==> r0 is Ok)
                &&& (r0 is Err ==> r == Err::<(), EmuError>(r0->Err_0))
            }),
            final(self)@.wf(),
    {
        match self.run_with_limit(u64::MAX) {
            Ok(_) => Ok(()),
            Err(e) => Err(e),
        }
    }

    /// Registers cleared, stack pointer to its reset value, program counter
    /// loaded from the reset vector.
    pub open spec fn reset_m(c: CpuV) -> CpuV {
        let c0 = CpuV {
            register_a: 0,
            register_x: 0,
            register_y: 0,
            status: 0,
            stack_pointer: STACK_RESET,
            ..c
        };
        let (v, c1) = Self::read16_m(c0, 0xFFFC);
        CpuV { program_counter: v, ..c1 }
    }

    pub fn reset(&mut self)
        requires
            old(self)@.wf(),
        ensures
            final(self)@ == Self::reset_m(old(self)@),
            final(self)@.wf(),
    {
        self.register_a = 0;
        self.register_x = 0;
        self.register_y = 0;
        self.status = 0;
        self.stack_pointer = STACK_RESET;
        self.program_counter = self.mem_read_u16(0xFFFC);
        proof {
            assert(self@ =~= Self::reset_m(old(self)@));
        }
    }

    /// The first `n` program bytes written at 0x0600 onward through the
    /// normal write path.
    pub open spec fn load_m(c: CpuV, program: Seq<u8>, n: nat) -> CpuV
        decreases n,
    {
        if n == 0 {
            c
        } else {
            Self::write_m(Self::load_m(c, program, (n - 1) as nat), (0x0600 + (n - 1)) as u16, program[n - 1])
        }
    }

    /// Place a program at 0x0600 and point the reset vector at it.
    #[verifier::rlimit(100)]
    pub fn load(&mut self, program: Vec<u8>)
        requires
            old(self)@.wf(),
            program@.len() <= 0xFA00,
        ensures
            final(self)@ == Self::write16_m(
                Self::load_m(old(self)@, program@, program@.len()),
                0xFFFC,
                0x0600,
            ),
            final(self)@.wf(),
    {
        let mut i: usize = 0;
        while i < program.len()
            invariant
                i <= program.len(),
                program@.len() <= 0xFA00,
                self@.wf(),
                self@ == Self::load_m(old(self)@, program@, i as nat),
            decreases program.len() - i,
        {
            self.mem_write(0x0600 + i as u16, program[i]);
            i = i + 1;
            proof {
                assert(self@ =~= Self::load_m(old(self)@, program@, i as nat));
            }
        }
        self.mem_write_u16(0xFFFC, 0x0600);
    }

    /// Load, reset, and run to completion: the final state is the one
    /// `run_m` reaches from the reset state of the loaded machine.
    pub fn load_and_run(&mut self, program: Vec<u8>) -> (r: Result<(), EmuError>)
        requires
            old(self)@.wf(),
            program@.len() <= 0xFA00,
        ensures
            ({
                let loaded = Self::write16_m(
                    Self::load_m(old(self)@, program@, program@.len()),
                    0xFFFC,
                    0x0600,
                );
                let (r0, c) = Self::run_m(Self::reset_m(loaded), u64::MAX as nat);
                &&& final(self)@ == c
                &&& (r is Ok <==> r0 is Ok)
                &&& (r0 is Err ==> r == Err::<(), EmuError>(r0->Err_0))
            }),
            final(self)@.wf(),
    {
        self.load(program);
        self.reset();
        self.run()
    }
}

/// The indirect-indexed page-wrap quirk, stated of the interpreter's own
/// operand resolution: a base pointer at zero-page offset 0xFF takes its low
/// byte from 0x00FF and its high byte from 0x0000 of the same page, and Y is
/// then added with 16-bit wraparound.
pub proof fn lemma_indirect_indexed_operand_page_wrap(c: CpuV)
    ensures
        ({
            let (base, c1) = CPU::read_m(c, c.program_counter);
            let (lo, c2) = CPU::read_m(c1, 0x00FF);
            let (hi, c3) = CPU::read_m(c2, 0x0000);
            base == 0xFF ==> CPU::operand_m(c, AddressingMode::Indirect_Y) == (
                vstd::wrapping::u16_specs::wrapping_add(
                    ((((hi as u16) << 8) | (lo as u16)) as u16),
                    c.register_y as u16,
                ),
                c3,
            )
        }),
{
    reveal(CPU::operand_m);
}

} // verus!
