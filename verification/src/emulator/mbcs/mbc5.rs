use vstd::prelude::*;

verus! {

/// A cartridge with the fifth bank controller: a nine-bit ROM bank and
/// sixteen RAM banks of 8 KiB.
pub struct MBC5 {
    pub rom_bank: u16,
    pub ram_bank: u8,
    pub rom: Vec<u8>,
    pub ram: [u8; 0x20000],
    pub ram_enable: bool,
}

pub struct Mbc5View {
    pub rom_bank: u16,
    pub ram_bank: u8,
    pub rom: Seq<u8>,
    pub ram: Seq<u8>,
    pub ram_enable: bool,
}

impl View for MBC5 {
    type V = Mbc5View;

    open spec fn view(&self) -> Mbc5View {
        Mbc5View {
            rom_bank: self.rom_bank,
            ram_bank: self.ram_bank,
            rom: self.rom@,
            ram: self.ram@,
            ram_enable: self.ram_enable,
        }
    }
}

impl Mbc5View {
    /// The image holds at least the two banks that are always mapped, the
    /// ROM bank fits nine bits and the selected RAM bank exists.
    pub open spec fn wf(self) -> bool {
        &&& self.rom.len() >= 0x8000
        &&& self.ram.len() == 0x20000
        &&& self.rom_bank < 512
        &&& self.ram_bank <= 15
    }

    /// Where in the image the switchable window's byte `address` lies: the
    /// selected bank, wrapped to the size of the image.
    pub open spec fn rom_index(self, address: u16) -> int {
        (0x4000 * self.rom_bank + (address - 0x4000)) % (self.rom.len() as int)
    }

    pub open spec fn ram_index(self, address: u16) -> int {
        0x2000 * self.ram_bank + (address - 0xA000)
    }

    pub open spec fn read(self, address: u16) -> u8 {
        if address < 0x4000 {
            self.rom[address as int]
        } else if address < 0x8000 {
            self.rom[self.rom_index(address)]
        } else if 0xA000 <= address <= 0xBFFF {
            self.ram[self.ram_index(address)]
        } else {
            0
        }
    }

    /// RAM is enabled by a value whose low nibble is 0xA.
    pub open spec fn handle_ram_enable(self, value: u8) -> Mbc5View {
        Mbc5View { ram_enable: value % 16 == 0x0A, ..self }
    }

    /// The eight low bits of the ROM bank are set; bank zero is a bank like
    /// any other.
    pub open spec fn change_rom_bank_low(self, value: u8) -> Mbc5View {
        Mbc5View { rom_bank: (self.rom_bank / 256 % 2 * 256 + value) as u16, ..self }
    }

    /// Bit 8 of the ROM bank is set from the low bit of the value.
    pub open spec fn change_rom_bank_hi(self, value: u8) -> Mbc5View {
        Mbc5View { rom_bank: (self.rom_bank % 256 + value % 2 * 256) as u16, ..self }
    }

    pub open spec fn change_ram_bank(self, value: u8) -> Mbc5View {
        Mbc5View { ram_bank: value % 16, ..self }
    }

    pub open spec fn write(self, address: u16, value: u8) -> Mbc5View {
        if address < 0x2000 {
            self.handle_ram_enable(value)
        } else if address < 0x3000 {
            self.change_rom_bank_low(value)
        } else if address < 0x4000 {
            self.change_rom_bank_hi(value)
        } else if address < 0x6000 {
            self.change_ram_bank(value)
        } else if 0xA000 <= address <= 0xBFFF {
            Mbc5View { ram: self.ram.update(self.ram_index(address), value), ..self }
        } else {
            self
        }
    }
}

impl MBC5 {
    /// A controller over the image `data`, in its power-on state: ROM bank
    /// 1, RAM bank 0, RAM disabled and zeroed.
    pub fn new(data: Vec<u8>) -> (r: MBC5)
        requires
            data@.len() >= 0x8000,
        ensures
            r@ == (Mbc5View {
                rom_bank: 1,
                ram_bank: 0,
                rom: data@,
                ram: Seq::new(0x20000, |i: int| 0u8),
                ram_enable: false,
            }),
            r@.wf(),
    {
        let r = MBC5 { rom_bank: 1, ram_bank: 0, ram_enable: false, rom: data, ram: [0u8; 0x20000] };
        assert(r.ram@ =~= Seq::new(0x20000, |i: int| 0u8));
        r
    }

    /// Tells whether the controller is in a state that it can work from.
    pub fn is_valid(&self) -> (r: bool)
        ensures
            r == self@.wf(),
    {
        self.rom.len() >= 0x8000 && self.rom_bank < 512 && self.ram_bank <= 15
    }

    pub fn handle_ram_enable(&mut self, value: u8)
        ensures
            final(self)@ == old(self)@.handle_ram_enable(value),
            old(self)@.wf() ==> final(self)@.wf(),
    {
        self.ram_enable = value % 16 == 0x0A;
    }

    pub fn change_rom_bank_low(&mut self, value: u8)
        ensures
            final(self)@ == old(self)@.change_rom_bank_low(value),
            old(self)@.wf() ==> final(self)@.wf(),
    {
        self.rom_bank = self.rom_bank / 256 % 2 * 256 + value as u16;
    }

    pub fn change_rom_bank_hi(&mut self, value: u8)
        ensures
            final(self)@ == old(self)@.change_rom_bank_hi(value),
            old(self)@.wf() ==> final(self)@.wf(),
    {
        self.rom_bank = self.rom_bank % 256 + (value % 2) as u16 * 256;
    }

    pub fn change_ram_bank(&mut self, value: u8)
        ensures
            final(self)@ == old(self)@.change_ram_bank(value),
            old(self)@.wf() ==> final(self)@.wf(),
    {
        self.ram_bank = value % 16;
    }

    pub fn read_byte(&self, address: u16) -> (r: u8)
        requires
            self@.wf(),
        ensures
            r == self@.read(address),
    {
        if address < 0x4000 {
            self.rom[address as usize]
        } else if address < 0x8000 {
            let local_address = (0x4000 * self.rom_bank as usize + (address - 0x4000) as usize) % self.rom.len();
            self.rom[local_address]
        } else if 0xA000 <= address && address <= 0xBFFF {
            let local_address = 0x2000 * self.ram_bank as usize + (address - 0xA000) as usize;
            self.ram[local_address]
        } else {
            0
        }
    }

    pub fn write_byte(&mut self, address: u16, value: u8)
        requires
            old(self)@.wf(),
        ensures
            final(self)@ == old(self)@.write(address, value),
            final(self)@.wf(),
    {
        if address < 0x2000 {
            self.handle_ram_enable(value);
        } else if address < 0x3000 {
            self.change_rom_bank_low(value);
        } else if address < 0x4000 {
            self.change_rom_bank_hi(value);
        } else if address < 0x6000 {
            self.change_ram_bank(value);
        } else if 0xA000 <= address && address <= 0xBFFF {
            let local_address = 0x2000 * self.ram_bank as usize + (address - 0xA000) as usize;
            self.ram[local_address] = value;
        }
    }
}

} // verus!
