use vstd::prelude::*;

verus! {

/// The kinds of control-flow interruption the CPU dispatches uniformly.
#[derive(Clone, Copy, Debug, PartialEq, Eq, Structural)]
pub enum InterruptType {
    NMI,
    IRQ,
    BRK,
    RST,
}

/// Immutable descriptor of one interrupt source: the vector address the
/// program counter is loaded from, the mask OR-ed into the pushed status
/// byte (bit 5 is always set; bit 4 is set only for a BRK-caused push),
/// and the fixed cycle cost of dispatching it.
#[derive(Clone, Copy, Debug, PartialEq, Eq, Structural)]
pub struct Interrupt {
    pub int_type: InterruptType,
    pub vector_addr: u16,
    pub b_flag_mask: u8,
    pub cpu_cycles: u8,
}

impl Interrupt {
    pub open spec fn nmi_desc() -> Interrupt {
        Interrupt { int_type: InterruptType::NMI, vector_addr: 0xFFFA, b_flag_mask: 0b0010_0000, cpu_cycles: 2 }
    }

    pub open spec fn irq_desc() -> Interrupt {
        Interrupt { int_type: InterruptType::IRQ, vector_addr: 0xFFFE, b_flag_mask: 0b0010_0000, cpu_cycles: 2 }
    }

    pub open spec fn brk_desc() -> Interrupt {
        Interrupt { int_type: InterruptType::BRK, vector_addr: 0xFFFE, b_flag_mask: 0b0011_0000, cpu_cycles: 1 }
    }

    pub open spec fn rst_desc() -> Interrupt {
        Interrupt { int_type: InterruptType::RST, vector_addr: 0xFFFC, b_flag_mask: 0, cpu_cycles: 0 }
    }

    pub fn nmi() -> (r: Interrupt)
        ensures
            r == Self::nmi_desc(),
    {
        Interrupt { int_type: InterruptType::NMI, vector_addr: 0xFFFA, b_flag_mask: 0b0010_0000, cpu_cycles: 2 }
    }

    pub fn irq() -> (r: Interrupt)
        ensures
            r == Self::irq_desc(),
    {
        Interrupt { int_type: InterruptType::IRQ, vector_addr: 0xFFFE, b_flag_mask: 0b0010_0000, cpu_cycles: 2 }
    }

    pub fn brk() -> (r: Interrupt)
        ensures
            r == Self::brk_desc(),
    {
        Interrupt { int_type: InterruptType::BRK, vector_addr: 0xFFFE, b_flag_mask: 0b0011_0000, cpu_cycles: 1 }
    }

    pub fn rst() -> (r: Interrupt)
        ensures
            r == Self::rst_desc(),
    {
        Interrupt { int_type: InterruptType::RST, vector_addr: 0xFFFC, b_flag_mask: 0, cpu_cycles: 0 }
    }
}

} // verus!
