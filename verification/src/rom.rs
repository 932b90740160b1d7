use vstd::prelude::*;

verus! {

/// Nametable mirroring arrangement selected by the cartridge board.
#[derive(Clone, Copy, Debug, PartialEq, Eq, Structural)]
#[allow(non_camel_case_types)]
pub enum Mirroring {
    VERTICAL,
    HORIZONTAL,
}

/// Immutable description of a cartridge: program ROM bytes, character ROM
/// bytes and the nametable mirroring mode. Parsing an on-disk image into
/// this form is a frontend concern; the core only reads these fields.
pub struct Rom {
    pub prg_rom: Vec<u8>,
    pub chr_rom: Vec<u8>,
    pub screen_mirroring: Mirroring,
}

impl Rom {
    /// A cartridge supplies one or two 16 KiB program banks.
    pub open spec fn wf(&self) -> bool {
        self.prg_rom@.len() == 0x4000 || self.prg_rom@.len() == 0x8000
    }

    pub fn new(prg_rom: Vec<u8>, chr_rom: Vec<u8>, screen_mirroring: Mirroring) -> (r: Rom)
        requires
            prg_rom@.len() == 0x4000 || prg_rom@.len() == 0x8000,
        ensures
            r.wf(),
            r.prg_rom@ == prg_rom@,
            r.chr_rom@ == chr_rom@,
            r.screen_mirroring == screen_mirroring,
    {
        Rom { prg_rom, chr_rom, screen_mirroring }
    }
}

} // verus!
