use vstd::prelude::*;
use crate::bus::Bus;
use crate::cpu::AddressingMode;
use crate::cpu::CPU;
use crate::cpu::CpuV;

verus! {

/// The absolute address an operand at `addr` resolves to, computed over
/// side-effect-free peeks so a tracer can inspect an instruction without
/// disturbing the machine.
pub open spec fn absolute_address_m(c: CpuV, mode: AddressingMode, addr: u16) -> u16 {
    match mode {
        AddressingMode::ZeroPage => Bus::peek_m(c.bus, addr) as u16,
        AddressingMode::Absolute => {
            let lo = Bus::peek_m(c.bus, addr);
            let hi = Bus::peek_m(c.bus, vstd::wrapping::u16_specs::wrapping_add(addr, 1));
            ((((hi as u16) << 8) | (lo as u16)) as u16)
        },
        AddressingMode::ZeroPage_X => {
            let pos = Bus::peek_m(c.bus, addr);
            vstd::wrapping::u8_specs::wrapping_add(pos, c.register_x) as u16
        },
        AddressingMode::ZeroPage_Y => {
            let pos = Bus::peek_m(c.bus, addr);
            vstd::wrapping::u8_specs::wrapping_add(pos, c.register_y) as u16
        },
        AddressingMode::Absolute_X => {
            let lo = Bus::peek_m(c.bus, addr);
            let hi = Bus::peek_m(c.bus, vstd::wrapping::u16_specs::wrapping_add(addr, 1));
            let base = ((((hi as u16) << 8) | (lo as u16)) as u16);
            vstd::wrapping::u16_specs::wrapping_add(base, c.register_x as u16)
        },
        AddressingMode::Absolute_Y => {
            let lo = Bus::peek_m(c.bus, addr);
            let hi = Bus::peek_m(c.bus, vstd::wrapping::u16_specs::wrapping_add(addr, 1));
            let base = ((((hi as u16) << 8) | (lo as u16)) as u16);
            vstd::wrapping::u16_specs::wrapping_add(base, c.register_y as u16)
        },
        AddressingMode::Indirect_X => {
            let base = Bus::peek_m(c.bus, addr);
            let ptr = vstd::wrapping::u8_specs::wrapping_add(base, c.register_x);
            let lo = Bus::peek_m(c.bus, ptr as u16);
            let hi = Bus::peek_m(c.bus, vstd::wrapping::u8_specs::wrapping_add(ptr, 1) as u16);
            ((((hi as u16) << 8) | (lo as u16)) as u16)
        },
        AddressingMode::Indirect_Y => {
            let base = Bus::peek_m(c.bus, addr);
            let lo = Bus::peek_m(c.bus, base as u16);
            let hi = Bus::peek_m(c.bus, vstd::wrapping::u8_specs::wrapping_add(base, 1) as u16);
            let deref_base = ((((hi as u16) << 8) | (lo as u16)) as u16);
            vstd::wrapping::u16_specs::wrapping_add(deref_base, c.register_y as u16)
        },
        _ => 0u16,
    }
}

/// Resolve an instruction operand for a trace line without mutating the
/// machine. Immediate and implied forms carry no memory operand and are not
/// resolved here.
pub fn get_absolute_address(cpu: &CPU, mode: &AddressingMode, addr: u16) -> (r: u16)
    requires
        cpu@.wf(),
        !(mode is Immediate),
        !(mode is NoneAddressing),
    ensures
        r == absolute_address_m(cpu@, *mode, addr),
{
    match mode {
        AddressingMode::ZeroPage => cpu.bus.peek(addr) as u16,
        AddressingMode::Absolute => {
            let lo = cpu.bus.peek(addr);
            let hi = cpu.bus.peek(addr.wrapping_add(1));
            ((hi as u16) << 8) | (lo as u16)
        },
        AddressingMode::ZeroPage_X => {
            let pos = cpu.bus.peek(addr);
            pos.wrapping_add(cpu.register_x) as u16
        },
        AddressingMode::ZeroPage_Y => {
            let pos = cpu.bus.peek(addr);
            pos.wrapping_add(cpu.register_y) as u16
        },
        AddressingMode::Absolute_X => {
            let lo = cpu.bus.peek(addr);
            let hi = cpu.bus.peek(addr.wrapping_add(1));
            let base = ((hi as u16) << 8) | (lo as u16);
            base.wrapping_add(cpu.register_x as u16)
        },
        AddressingMode::Absolute_Y => {
            let lo = cpu.bus.peek(addr);
            let hi = cpu.bus.peek(addr.wrapping_add(1));
            let base = ((hi as u16) << 8) | (lo as u16);
            base.wrapping_add(cpu.register_y as u16)
        },
        AddressingMode::Indirect_X => {
            let base = cpu.bus.peek(addr);
            let ptr = base.wrapping_add(cpu.register_x);
            let lo = cpu.bus.peek(ptr as u16);
            let hi = cpu.bus.peek(ptr.wrapping_add(1) as u16);
            ((hi as u16) << 8) | (lo as u16)
        },
        AddressingMode::Indirect_Y => {
            let base = cpu.bus.peek(addr);
            let lo = cpu.bus.peek(base as u16);
            let hi = cpu.bus.peek(base.wrapping_add(1) as u16);
            let deref_base = ((hi as u16) << 8) | (lo as u16);
            deref_base.wrapping_add(cpu.register_y as u16)
        },
        _ => 0,
    }
}

/// A base pointer at the top of the zero page wraps: the low byte comes from
/// offset 0xFF and the high byte from offset 0x00 of the same page, before Y
/// is added with 16-bit wraparound.
pub proof fn lemma_indirect_indexed_page_wrap(c: CpuV, addr: u16)
    requires
        Bus::peek_m(c.bus, addr) == 0xFF,
    ensures
        absolute_address_m(c, AddressingMode::Indirect_Y, addr) == vstd::wrapping::u16_specs::wrapping_add(
            ((((Bus::peek_m(c.bus, 0x0000) as u16) << 8) | (Bus::peek_m(c.bus, 0x00FF) as u16)) as u16),
            c.register_y as u16,
        ),
{
}

} // verus!
