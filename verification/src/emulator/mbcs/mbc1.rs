use vstd::prelude::*;

verus! {

/// A cartridge with the first bank controller: up to 128 ROM banks of
/// 16 KiB, four RAM banks of 8 KiB and a mode select.
pub struct MBC1 {
    pub rom_bank: u8,
    pub ram_bank: u8,
    pub rom_banking: bool,
    pub rom: Vec<u8>,
    pub ram: [u8; 0x8000],
    pub ram_enable: bool,
}

pub struct Mbc1View {
    pub rom_bank: u8,
    pub ram_bank: u8,
    pub rom_banking: bool,
    pub rom: Seq<u8>,
    pub ram: Seq<u8>,
    pub ram_enable: bool,
}

impl View for MBC1 {
    type V = Mbc1View;

    open spec fn view(&self) -> Mbc1View {
        Mbc1View {
            rom_bank: self.rom_bank,
            ram_bank: self.ram_bank,
            rom_banking: self.rom_banking,
            rom: self.rom@,
            ram: self.ram@,
            ram_enable: self.ram_enable,
        }
    }
}

impl Mbc1View {
    /// The image holds at least the two banks that are always mapped, and
    /// the selected RAM bank exists.
    pub open spec fn wf(self) -> bool {
        &&& self.rom.len() >= 0x8000
        &&& self.ram.len() == 0x8000
        &&& self.ram_bank <= 3
    }

    /// Where in the image the switchable window's byte `address` lies: the
    /// selected bank, wrapped to the size of the image. For the sizes that
    /// cartridges have, powers of two, this masks the bank index to the
    /// number of banks less one.
    pub open spec fn rom_index(self, address: u16) -> int {
        ((address - 0x4000) + self.rom_bank * 0x4000) % (self.rom.len() as int)
    }

    pub open spec fn ram_index(self, address: u16) -> int {
        (address - 0xA000) + self.ram_bank * 0x2000
    }

    pub open spec fn read(self, address: u16) -> u8 {
        if address < 0x4000 {
            self.rom[address as int]
        } else if address < 0x8000 {
            self.rom[self.rom_index(address)]
        } else if 0xA000 <= address <= 0xBFFF {
            if self.ram_enable {
                self.ram[self.ram_index(address)]
            } else {
                0xFF
            }
        } else {
            0xFF
        }
    }

    /// RAM is enabled by a value whose low nibble is 0xA.
    pub open spec fn enable_ram(self, value: u8) -> Mbc1View {
        Mbc1View { ram_enable: value % 16 == 0x0A, ..self }
    }

    /// The five low bits of the ROM bank are set; a bank that comes out as
    /// zero becomes bank one.
    pub open spec fn change_rom_bank_lo(self, value: u8) -> Mbc1View {
        let bank = (self.rom_bank / 32 * 32 + value % 32) as u8;
        Mbc1View { rom_bank: if bank == 0 { 1u8 } else { bank }, ..self }
    }

    /// Bits 5 and 6 of the ROM bank are set from the two low bits of the
    /// value; a bank that comes out as zero becomes bank one.
    pub open spec fn change_rom_bank_hi(self, value: u8) -> Mbc1View {
        let bank = (self.rom_bank % 32 + value % 4 * 32) as u8;
        Mbc1View { rom_bank: if bank == 0 { 1u8 } else { bank }, ..self }
    }

    pub open spec fn change_ram_bank(self, value: u8) -> Mbc1View {
        Mbc1View { ram_bank: value % 4, ..self }
    }

    /// An even value selects ROM banking, which also returns to RAM bank 0;
    /// an odd one selects RAM banking.
    pub open spec fn change_mode(self, value: u8) -> Mbc1View {
        if value % 2 == 0 {
            Mbc1View { rom_banking: true, ram_bank: 0, ..self }
        } else {
            Mbc1View { rom_banking: false, ..self }
        }
    }

    /// A write below 0x8000 is a command to the controller.
    pub open spec fn handle_banking(self, address: u16, value: u8) -> Mbc1View {
        if address < 0x2000 {
            self.enable_ram(value)
        } else if address < 0x4000 {
            self.change_rom_bank_lo(value)
        } else if address < 0x6000 {
            if self.rom_banking {
                self.change_rom_bank_hi(value)
            } else {
                self.change_ram_bank(value)
            }
        } else if address < 0x8000 {
            self.change_mode(value)
        } else {
            self
        }
    }

    pub open spec fn write(self, address: u16, value: u8) -> Mbc1View {
        if 0xA000 <= address <= 0xBFFF {
            Mbc1View { ram: self.ram.update(self.ram_index(address), value), ..self }
        } else {
            self.handle_banking(address, value)
        }
    }
}

impl MBC1 {
    /// A controller over the image `rom`, in its power-on state: ROM bank 1,
    /// RAM bank 0, RAM disabled and zeroed, RAM banking mode.
    pub fn new(rom: Vec<u8>, _ram_size: u32) -> (r: MBC1)
        requires
            rom@.len() >= 0x8000,
        ensures
            r@ == (Mbc1View {
                rom_bank: 1,
                ram_bank: 0,
                rom_banking: false,
                rom: rom@,
                ram: Seq::new(0x8000, |i: int| 0u8),
                ram_enable: false,
            }),
            r@.wf(),
    {
        let r = MBC1 { rom, ram: [0u8; 0x8000], ram_bank: 0, rom_bank: 1, ram_enable: false, rom_banking: false };
        assert(r.ram@ =~= Seq::new(0x8000, |i: int| 0u8));
        r
    }

    /// Tells whether the controller is in a state that it can work from.
    pub fn is_valid(&self) -> (r: bool)
        ensures
            r == self@.wf(),
    {
        self.rom.len() >= 0x8000 && self.ram_bank <= 3
    }

    pub fn change_mode(&mut self, value: u8)
        ensures
            final(self)@ == old(self)@.change_mode(value),
            old(self)@.wf() ==> final(self)@.wf(),
    {
        self.rom_banking = value % 2 == 0;
        if self.rom_banking {
            self.ram_bank = 0;
        }
    }

    pub fn change_ram_bank(&mut self, value: u8)
        ensures
            final(self)@ == old(self)@.change_ram_bank(value),
            old(self)@.wf() ==> final(self)@.wf(),
    {
        self.ram_bank = value % 4;
    }

    pub fn change_rom_bank_hi(&mut self, value: u8)
        ensures
            final(self)@ == old(self)@.change_rom_bank_hi(value),
            old(self)@.wf() ==> final(self)@.wf(),
    {
        self.rom_bank = self.rom_bank % 32 + value % 4 * 32;
        if self.rom_bank == 0 {
            self.rom_bank = 1;
        }
    }

    pub fn change_rom_bank_lo(&mut self, value: u8)
        ensures
            final(self)@ == old(self)@.change_rom_bank_lo(value),
            old(self)@.wf() ==> final(self)@.wf(),
    {
        self.rom_bank = self.rom_bank / 32 * 32 + value % 32;
        if self.rom_bank == 0 {
            self.rom_bank = 1;
        }
    }

    pub fn enable_ram(&mut self, value: u8)
        ensures
            final(self)@ == old(self)@.enable_ram(value),
            old(self)@.wf() ==> final(self)@.wf(),
    {
        self.ram_enable = value % 16 == 0x0A;
    }

    pub fn handle_banking(&mut self, address: u16, value: u8)
        ensures
            final(self)@ == old(self)@.handle_banking(address, value),
            old(self)@.wf() ==> final(self)@.wf(),
    {
        if address < 0x2000 {
            self.enable_ram(value);
        } else if address < 0x4000 {
            self.change_rom_bank_lo(value);
        } else if address < 0x6000 {
            if self.rom_banking {
                self.change_rom_bank_hi(value);
            } else {
                self.change_ram_bank(value);
            }
        } else if address < 0x8000 {
            self.change_mode(value);
        }
    }

    pub fn read_byte(&self, address: u16) -> (r: u8)
        requires
            self@.wf(),
        ensures
            r == self@.read(address),
    {
        if address < 0x4000 {
            self.rom[address as usize]
        } else if address < 0x8000 {
            let local_address = (address - 0x4000) as usize;
            self.rom[(local_address + self.rom_bank as usize * 0x4000) % self.rom.len()]
        } else if 0xA000 <= address && address <= 0xBFFF {
            if !self.ram_enable {
                return 0xFF;
            }
            let local_address = (address - 0xA000) as usize;
            self.ram[local_address + self.ram_bank as usize * 0x2000]
        } else {
            0xFF
        }
    }

    pub fn write_byte(&mut self, address: u16, value: u8)
        requires
            old(self)@.wf(),
        ensures
            final(self)@ == old(self)@.write(address, value),
            final(self)@.wf(),
    {
        if !(0xA000 <= address && address <= 0xBFFF) {
            self.handle_banking(address, value);
            return ;
        }
        let local_address = (address - 0xA000) as usize;
        self.ram[local_address + self.ram_bank as usize * 0x2000] = value;
    }
}

} // verus!
