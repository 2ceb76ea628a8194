use vstd::prelude::*;

verus! {

/// Number of bytes in a cartridge image that the bus accepts.
pub const ROM_SIZE: usize = 0x8000;

/// A cartridge image: the bytes of the ROM, in address order.
pub struct Cartridge {
    pub rom: Vec<u8>,
}

impl Cartridge {
    /// Whether the image has the one size the bus supports.
    pub open spec fn supported(&self) -> bool {
        self.rom@.len() == ROM_SIZE
    }

    /// Tells whether the image has the one size the bus supports.
    pub fn is_supported(&self) -> (ok: bool)
        ensures
            ok == self.supported(),
    {
        self.rom.len() == ROM_SIZE
    }
}

} // verus!
