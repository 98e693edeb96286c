use vstd::prelude::*;

verus! {

/// A cartridge without a bank controller: 32 KiB of read-only memory.
pub struct Rom {
    pub memory: [u8; 0x8000],
}

/// The model of a plain cartridge: its 32 KiB.
pub struct RomView {
    pub memory: Seq<u8>,
}

impl View for Rom {
    type V = RomView;

    open spec fn view(&self) -> RomView {
        RomView { memory: self.memory@ }
    }
}

impl RomView {
    pub open spec fn wf(self) -> bool {
        self.memory.len() == 0x8000
    }

    /// The byte at `address`: the image below 0x8000, and 0xFF above it,
    /// where such a cartridge has nothing.
    pub open spec fn read(self, address: u16) -> u8 {
        if address < 0x8000 {
            self.memory[address as int]
        } else {
            0xFF
        }
    }
}

impl Rom {
    /// Takes the first 32 KiB of the image.
    pub fn new(cartridge_memory: Vec<u8>) -> (r: Rom)
        requires
            cartridge_memory@.len() >= 0x8000,
        ensures
            r@.memory == cartridge_memory@.take(0x8000),
            r@.wf(),
    {
        let mut memory = [0u8; 0x8000];
        let mut i: usize = 0;
        while i < 0x8000
            invariant
                i <= 0x8000,
                cartridge_memory@.len() >= 0x8000,
                forall|j: int| 0 <= j < i ==> memory@[j] == cartridge_memory@[j],
            decreases 0x8000 - i,
        {
            memory[i] = cartridge_memory[i];
            i = i + 1;
        }
        assert(memory@ =~= cartridge_memory@.take(0x8000));
        Rom { memory }
    }

    pub fn read_byte(&self, address: u16) -> (r: u8)
        ensures
            r == self@.read(address),
    {
        if address < 0x8000 {
            self.memory[address as usize]
        } else {
            0xFF
        }
    }

    /// Nothing in such a cartridge can be written.
    pub fn write_byte(&mut self, _address: u16, _value: u8)
        ensures
            *final(self) == *old(self),
    {
    }
}

} // verus!
