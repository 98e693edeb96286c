use vstd::prelude::*;
use super::mbcs::mbc::{Mbc, MbcView};
use super::timer::DIV;

verus! {

/// The address space as one flat array with the cartridge behind it and no
/// peripheral attached: what a tool needs that wants to look at memory, or
/// to run the processor's instructions against plain bytes.
///
/// The array holds the boot ROM in its first page and the registers as
/// plain bytes. An OAM transfer copies within the array.
pub struct Memory {
    pub mbc: Mbc,
    pub memory: [u8; 0x10000],
    pub div_reset: bool,
    pub lock_vram: bool,
    pub lock_oam: bool,
    pub dma_transfer_active: bool,
    pub dma_transfer_cycle: i32,
    pub dma_transfer: u8,
}

pub struct MemoryView {
    pub mbc: MbcView,
    pub memory: Seq<u8>,
    pub div_reset: bool,
    pub lock_vram: bool,
    pub lock_oam: bool,
    pub dma_transfer_active: bool,
    pub dma_transfer_cycle: i32,
    pub dma_transfer: u8,
}

impl View for Memory {
    type V = MemoryView;

    open spec fn view(&self) -> MemoryView {
        MemoryView {
            mbc: self.mbc@,
            memory: self.memory@,
            div_reset: self.div_reset,
            lock_vram: self.lock_vram,
            lock_oam: self.lock_oam,
            dma_transfer_active: self.dma_transfer_active,
            dma_transfer_cycle: self.dma_transfer_cycle,
            dma_transfer: self.dma_transfer,
        }
    }
}

impl MemoryView {
    pub open spec fn wf(self) -> bool {
        &&& self.mbc.wf()
        &&& self.memory.len() == 0x10000
        &&& 0 <= self.dma_transfer_cycle < 640
    }

    /// The byte at `address`. The serial data register reads as 0xFF. While
    /// the byte at 0xFF50 is 0, the first page is read from the array, where
    /// the boot ROM lies; the rest of the cartridge's ranges is read from
    /// the cartridge, and everything else from the array.
    pub open spec fn read(self, address: u16) -> u8 {
        if address == 0xFF01 {
            0xFF
        } else if address < 0x100 && self.memory[0xFF50] == 0 {
            self.memory[address as int]
        } else if address < 0x8000 || 0xA000 <= address <= 0xBFFF {
            self.mbc.read(address)
        } else {
            self.memory[address as int]
        }
    }

    /// The memory after `value` is written at `address`. The cartridge
    /// takes what is written to its ranges. A write to DIV stores 0 and
    /// leaves a mark for the timer. A write to 0xFF46 is stored and starts
    /// an OAM transfer from the page written.
    pub open spec fn write(self, address: u16, value: u8) -> MemoryView {
        if address < 0x8000 || 0xA000 <= address <= 0xBFFF {
            MemoryView { mbc: self.mbc.write(address, value), ..self }
        } else if address == 0xFF46 {
            MemoryView {
                memory: self.memory.update(address as int, value),
                dma_transfer_active: true,
                dma_transfer: value,
                ..self
            }
        } else if address == DIV {
            MemoryView { memory: self.memory.update(address as int, 0), div_reset: true, ..self }
        } else {
            MemoryView { memory: self.memory.update(address as int, value), ..self }
        }
    }

    /// The array after an OAM transfer from the page `page`: sprite memory
    /// holds the first 160 bytes of the page.
    pub open spec fn transferred(self, page: u8) -> Seq<u8> {
        Seq::new(
            0x10000,
            |i: int| if 0xFE00 <= i <= 0xFE9F { self.memory[page * 256 + (i - 0xFE00)] } else { self.memory[i] },
        )
    }

    /// The memory after `cycle` T-cycles of an OAM transfer; a count that
    /// is not positive adds no time. An active transfer is carried out
    /// once 640 T-cycles have passed since its start, and is then over.
    pub open spec fn update_transfer(self, cycle: i32) -> MemoryView {
        let spent = self.dma_transfer_cycle + (if cycle > 0 { cycle as int } else { 0 });
        if !self.dma_transfer_active {
            self
        } else if spent >= 640 {
            MemoryView {
                memory: self.transferred(self.dma_transfer),
                dma_transfer_cycle: 0,
                dma_transfer_active: false,
                ..self
            }
        } else {
            MemoryView { dma_transfer_cycle: spent as i32, ..self }
        }
    }

    /// The memory with `data` copied into the array from address 0 on.
    pub open spec fn load_rom(self, data: Seq<u8>) -> MemoryView {
        MemoryView {
            memory: Seq::new(0x10000, |i: int| if i < data.len() { data[i] } else { self.memory[i] }),
            ..self
        }
    }
}

impl Memory {
    /// A zeroed address space over the cartridge `mbc`.
    pub fn new(mbc: Mbc) -> (m: Memory)
        requires
            mbc@.wf(),
        ensures
            m@ == (MemoryView {
                mbc: mbc@,
                memory: Seq::new(0x10000, |i: int| 0u8),
                div_reset: false,
                lock_vram: false,
                lock_oam: false,
                dma_transfer_active: false,
                dma_transfer_cycle: 0,
                dma_transfer: 0,
            }),
            m@.wf(),
    {
        let m = Memory {
            memory: [0_u8; 0x10000],
            lock_vram: false,
            lock_oam: false,
            div_reset: false,
            dma_transfer_active: false,
            dma_transfer_cycle: 0,
            dma_transfer: 0,
            mbc,
        };
        assert(m@.memory =~= Seq::new(0x10000, |i: int| 0u8));
        m
    }

    /// Copies `data`, a boot ROM as a rule, into the array from address 0
    /// on, and returns its length.
    pub fn load_rom(&mut self, data: &Vec<u8>) -> (length: usize)
        requires
            data@.len() <= 0x10000,
        ensures
            final(self)@ == old(self)@.load_rom(data@),
            length == data@.len(),
            old(self)@.wf() ==> final(self)@.wf(),
    {
        let mut addr: usize = 0;
        while addr < data.len()
            invariant
                addr <= data@.len() <= 0x10000,
                self@ == (MemoryView { memory: self@.memory, ..old(self)@ }),
                forall|j: int| 0 <= j < addr ==> #[trigger] self@.memory[j] == data@[j],
                forall|j: int| addr <= j < 0x10000 ==> #[trigger] self@.memory[j] == old(self)@.memory[j],
            decreases data@.len() - addr,
        {
            self.memory[addr] = data[addr];
            addr = addr + 1;
        }
        assert(self@.memory =~= old(self)@.load_rom(data@).memory);
        data.len()
    }

    /// Advances an OAM transfer by `cycle` T-cycles.
    pub fn update_transfer(&mut self, cycle: i32)
        requires
            old(self)@.wf(),
        ensures
            final(self)@ == old(self)@.update_transfer(cycle),
            final(self)@.wf(),
    {
        if !self.dma_transfer_active {
            return ;
        }
        let spent: i64 = self.dma_transfer_cycle as i64 + (if cycle > 0 { cycle as i64 } else { 0 });
        if spent < 640 {
            self.dma_transfer_cycle = spent as i32;
            return ;
        }
        let start: usize = self.dma_transfer as usize * 256;
        let mut bytes = [0u8; 160];
        let mut offset: usize = 0;
        while offset < 160
            invariant
                offset <= 160,
                start == self.dma_transfer * 256,
                *self == *old(self),
                forall|j: int| 0 <= j < offset ==> #[trigger] bytes@[j] == self@.memory[start + j],
            decreases 160 - offset,
        {
            bytes[offset] = self.memory[start + offset];
            offset = offset + 1;
        }
        let mut offset: usize = 0;
        while offset < 160
            invariant
                offset <= 160,
                self@ == (MemoryView { memory: self@.memory, ..old(self)@ }),
                start == old(self).dma_transfer * 256,
                forall|j: int| 0 <= j < 160 ==> #[trigger] bytes@[j] == old(self)@.memory[start + j],
                forall|i: int| 0xFE00 <= i < 0xFE00 + offset ==> #[trigger] self@.memory[i] == bytes@[i - 0xFE00],
                forall|i: int|
                    0 <= i < 0x10000 && !(0xFE00 <= i < 0xFE00 + offset) ==> #[trigger] self@.memory[i] == old(
                        self,
                    )@.memory[i],
            decreases 160 - offset,
        {
            self.memory[0xFE00 + offset] = bytes[offset];
            offset = offset + 1;
        }
        self.dma_transfer_cycle = 0;
        self.dma_transfer_active = false;
        assert(self@.memory =~= old(self)@.transferred(old(self).dma_transfer));
    }

    pub fn read_byte(&self, address: u16) -> (r: u8)
        requires
            self@.wf(),
        ensures
            r == self@.read(address),
    {
        if address == 0xFF01 {
            return 0xFF;
        }
        if address < 0x100 && self.memory[0xFF50] == 0 {
            return self.memory[address as usize];
        }
        if address < 0x8000 || (0xA000 <= address && address <= 0xBFFF) {
            self.mbc.read_byte(address)
        } else {
            self.memory[address as usize]
        }
    }

    pub fn write_byte(&mut self, address: u16, value: u8)
        requires
            old(self)@.wf(),
        ensures
            final(self)@ == old(self)@.write(address, value),
            final(self)@.wf(),
    {
        if address < 0x8000 || (0xA000 <= address && address <= 0xBFFF) {
            self.mbc.write_byte(address, value);
            return ;
        }
        if address == 0xFF46 {
            self.dma_transfer_active = true;
            self.dma_transfer = value;
        }
        if address == DIV {
            self.memory[DIV as usize] = 0u8;
            self.div_reset = true;
            return ;
        }
        self.memory[address as usize] = value;
    }

    /// Stores `value` in the array at `address`, whatever lies there.
    pub fn write_byte_uncheck(&mut self, address: u16, value: u8)
        ensures
            final(self)@ == (MemoryView {
                memory: old(self)@.memory.update(address as int, value),
                ..old(self)@
            }),
    {
        self.memory[address as usize] = value;
    }

    /// The byte of the array at `address`, whatever lies there.
    pub fn get_byte(&self, address: u16) -> (r: u8)
        ensures
            r == self@.memory[address as int],
    {
        self.memory[address as usize]
    }
}

} // verus!
