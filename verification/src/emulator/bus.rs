use vstd::prelude::*;
use super::interrupt::{with_request, InterruptState, ADDRESS_IF};
use super::joypad::{joypad_read, joypad_refresh, joypad_write, Joypad, JOYPAD};
use super::mbcs::mbc::{Mbc, MbcView};
use super::ppu::{
    dma_advanced, ppu_update, Ppu, PpuView, BGP, DMA_TRANSFER, LCDC, LY, LYC, OBP0, OBP1, SCX, SCY, STAT, WX, WY,
};
use super::timer::{timer_run, Timer, DIV, TAC, TIMA, TMA};

verus! {

/// The register whose write switches the boot ROM off.
pub const BOOT_DISABLE: u16 = 0xFF50;

/// The memory bus: it owns work RAM, high RAM and the boot ROM, holds the
/// cartridge and the peripherals, and routes every address to its owner.
pub struct Bus {
    pub mbc: Mbc,
    pub interrupt: InterruptState,
    pub ppu: Ppu,
    pub timer: Timer,
    pub joypad: Joypad,
    pub bootrom_enable: bool,
    pub bootrom: [u8; 0x100],
    pub wram: [u8; 0x2000],
    pub hram: [u8; 127],
}

/// The model of the bus and of all that hangs on it.
pub struct BusView {
    pub mbc: MbcView,
    pub interrupt: InterruptState,
    pub ppu: PpuView,
    pub timer: Timer,
    pub joypad: Joypad,
    pub bootrom_enable: bool,
    pub bootrom: Seq<u8>,
    pub wram: Seq<u8>,
    pub hram: Seq<u8>,
}

impl View for Bus {
    type V = BusView;

    open spec fn view(&self) -> BusView {
        BusView {
            mbc: self.mbc@,
            interrupt: self.interrupt,
            ppu: self.ppu@,
            timer: self.timer,
            joypad: self.joypad,
            bootrom_enable: self.bootrom_enable,
            bootrom: self.bootrom@,
            wram: self.wram@,
            hram: self.hram@,
        }
    }
}

impl BusView {
    pub open spec fn wf(self) -> bool {
        &&& self.mbc.wf()
        &&& self.ppu.wf()
        &&& self.bootrom.len() == 0x100
        &&& self.wram.len() == 0x2000
        &&& self.hram.len() == 127
    }

    /// STAT after the guest has written `value`: bits 3 to 6 are taken, the
    /// phase and the coincidence bit stay.
    pub open spec fn stat_written(self, value: u8) -> u8 {
        (self.ppu.stat % 8 + value / 8 % 16 * 8) as u8
    }

    /// What a register of the page 0xFF00 reads as; an address that names
    /// none reads as 0.
    pub open spec fn read_register(self, address: u16) -> u8 {
        if address == JOYPAD {
            joypad_read(self.joypad)
        } else if address == DIV {
            (self.timer.div / 256) as u8
        } else if address == TIMA {
            self.timer.tima
        } else if address == TMA {
            self.timer.tma
        } else if address == TAC {
            self.timer.tac
        } else if address == ADDRESS_IF {
            self.interrupt.interrupt_flag
        } else if address == LCDC {
            self.ppu.lcdc
        } else if address == STAT {
            self.ppu.stat
        } else if address == SCY {
            self.ppu.scy
        } else if address == SCX {
            self.ppu.scx
        } else if address == LY {
            self.ppu.ly
        } else if address == LYC {
            self.ppu.lyc
        } else if address == BGP {
            self.ppu.bgp
        } else if address == OBP0 {
            self.ppu.obp0
        } else if address == OBP1 {
            self.ppu.obp1
        } else if address == WY {
            self.ppu.wy
        } else if address == WX {
            self.ppu.wx
        } else if address == BOOT_DISABLE {
            if self.bootrom_enable {
                0
            } else {
                1
            }
        } else {
            0
        }
    }

    /// The bus after `value` is written to a register of the page 0xFF00.
    ///
    /// A write to DIV clears the divider whatever the value; LY cannot be
    /// written; a write to 0xFF46 starts an OAM transfer; a value other than
    /// 0 written to 0xFF50 switches the boot ROM off for good. A write to an
    /// address that names no register is dropped.
    pub open spec fn write_register(self, address: u16, value: u8) -> BusView {
        if address == JOYPAD {
            BusView { joypad: joypad_write(self.joypad, value), ..self }
        } else if address == DIV {
            BusView { timer: Timer { div: 0, ..self.timer }, ..self }
        } else if address == TIMA {
            BusView { timer: Timer { tima: value, ..self.timer }, ..self }
        } else if address == TMA {
            BusView { timer: Timer { tma: value, ..self.timer }, ..self }
        } else if address == TAC {
            BusView { timer: Timer { tac: value, ..self.timer }, ..self }
        } else if address == ADDRESS_IF {
            BusView { interrupt: InterruptState { interrupt_flag: value, ..self.interrupt }, ..self }
        } else if address == LCDC {
            BusView { ppu: PpuView { lcdc: value, ..self.ppu }, ..self }
        } else if address == STAT {
            BusView { ppu: PpuView { stat: self.stat_written(value), ..self.ppu }, ..self }
        } else if address == SCY {
            BusView { ppu: PpuView { scy: value, ..self.ppu }, ..self }
        } else if address == SCX {
            BusView { ppu: PpuView { scx: value, ..self.ppu }, ..self }
        } else if address == LYC {
            BusView { ppu: PpuView { lyc: value, ..self.ppu }, ..self }
        } else if address == DMA_TRANSFER {
            BusView {
                ppu: PpuView {
                    dma_transfer: value,
                    dma_transfer_active: true,
                    dma_transfer_cycle: 0,
                    ..self.ppu
                },
                ..self
            }
        } else if address == BGP {
            BusView { ppu: PpuView { bgp: value, ..self.ppu }, ..self }
        } else if address == OBP0 {
            BusView { ppu: PpuView { obp0: value, ..self.ppu }, ..self }
        } else if address == OBP1 {
            BusView { ppu: PpuView { obp1: value, ..self.ppu }, ..self }
        } else if address == WY {
            BusView { ppu: PpuView { wy: value, ..self.ppu }, ..self }
        } else if address == WX {
            BusView { ppu: PpuView { wx: value, ..self.ppu }, ..self }
        } else if address == BOOT_DISABLE {
            BusView { bootrom_enable: self.bootrom_enable && value == 0, ..self }
        } else {
            self
        }
    }

    /// The byte that the bus gives at `address`.
    ///
    /// While the boot ROM is switched on it lies over the first 256 bytes.
    /// The cartridge answers below 0x8000 and from 0xA000 to 0xBFFF, the
    /// pixel unit for video and sprite memory, the bus itself for work RAM
    /// and high RAM. The echo of work RAM and the gap behind sprite memory
    /// read as 0.
    #[verifier::opaque]
    pub open spec fn read(self, address: u16) -> u8 {
        if self.bootrom_enable && address < 0x100 {
            self.bootrom[address as int]
        } else if address <= 0x7FFF {
            self.mbc.read(address)
        } else if address <= 0x9FFF {
            self.ppu.vram_at(address as int)
        } else if address <= 0xBFFF {
            self.mbc.read(address)
        } else if address <= 0xDFFF {
            self.wram[address - 0xC000]
        } else if address <= 0xFDFF {
            0
        } else if address <= 0xFE9F {
            self.ppu.oam[address - 0xFE00]
        } else if address <= 0xFEFF {
            0
        } else if address <= 0xFF7F {
            self.read_register(address)
        } else if address <= 0xFFFE {
            self.hram[address - 0xFF80]
        } else {
            self.interrupt.interrupt_enable
        }
    }

    /// The bus after `value` is written at `address`.
    ///
    /// The cartridge takes what is written below 0x8000 as a command. What
    /// is written to the echo of work RAM or to the gap behind sprite
    /// memory is dropped.
    #[verifier::opaque]
    pub open spec fn write(self, address: u16, value: u8) -> BusView {
        if address <= 0x7FFF {
            BusView { mbc: self.mbc.write(address, value), ..self }
        } else if address <= 0x9FFF {
            BusView { ppu: PpuView { vram: self.ppu.vram.update(address - 0x8000, value), ..self.ppu }, ..self }
        } else if address <= 0xBFFF {
            BusView { mbc: self.mbc.write(address, value), ..self }
        } else if address <= 0xDFFF {
            BusView { wram: self.wram.update(address - 0xC000, value), ..self }
        } else if address <= 0xFDFF {
            self
        } else if address <= 0xFE9F {
            BusView { ppu: PpuView { oam: self.ppu.oam.update(address - 0xFE00, value), ..self.ppu }, ..self }
        } else if address <= 0xFEFF {
            self
        } else if address <= 0xFF7F {
            self.write_register(address, value)
        } else if address <= 0xFFFE {
            BusView { hram: self.hram.update(address - 0xFF80, value), ..self }
        } else {
            BusView { interrupt: InterruptState { interrupt_enable: value, ..self.interrupt }, ..self }
        }
    }

    /// The 160 bytes that an OAM transfer from the page `page` copies.
    pub open spec fn dma_page(self, page: u8) -> Seq<u8> {
        Seq::new(160, |i: int| self.read((page * 256 + i) as u16))
    }

    /// The bus after `cycle` T-cycles of an OAM transfer: once the transfer
    /// falls due, sprite memory holds the 160 bytes of the page it was
    /// started with.
    pub open spec fn update_dma_transfer(self, cycle: i32) -> BusView {
        let advanced = dma_advanced(self.ppu, cycle);
        if advanced.1 {
            BusView { ppu: PpuView { oam: self.dma_page(self.ppu.dma_transfer), ..advanced.0 }, ..self }
        } else {
            BusView { ppu: advanced.0, ..self }
        }
    }

    /// The bus after the peripherals have been given `cycles` T-cycles, in
    /// this order: the timer counts, the pixel unit advances, the joypad is
    /// refreshed, and an OAM transfer moves on. What one of them requests
    /// of the interrupt controller, those after it find requested.
    pub open spec fn advance(self, cycles: i32) -> BusView {
        let timed = timer_run(self.timer, self.interrupt, cycles as int);
        let drawn = ppu_update(self.ppu, timed.1, cycles);
        let polled = joypad_refresh(self.joypad, drawn.1);
        (BusView { timer: timed.0, ppu: drawn.0, joypad: polled.0, interrupt: polled.1, ..self }).update_dma_transfer(
            cycles,
        )
    }

    /// The bus with the image `data` as its boot ROM, switched on: of the
    /// image the first 256 bytes are taken, and where it is shorter the
    /// rest stays.
    pub open spec fn load_bootrom(self, data: Seq<u8>) -> BusView {
        BusView {
            bootrom_enable: true,
            bootrom: Seq::new(0x100, |i: int| if i < data.len() { data[i] } else { self.bootrom[i] }),
            ..self
        }
    }
}

impl Bus {
    /// A bus over the cartridge and the peripherals given, its own memories
    /// zeroed and the boot ROM switched off.
    pub fn new(mbc: Mbc, interrupt: InterruptState, ppu: Ppu, timer: Timer, joypad: Joypad) -> (bus: Bus)
        requires
            mbc@.wf(),
            ppu@.wf(),
        ensures
            bus@ == (BusView {
                mbc: mbc@,
                interrupt,
                ppu: ppu@,
                timer,
                joypad,
                bootrom_enable: false,
                bootrom: Seq::new(0x100, |i: int| 0u8),
                wram: Seq::new(0x2000, |i: int| 0u8),
                hram: Seq::new(127, |i: int| 0u8),
            }),
            bus@.wf(),
    {
        let bus = Bus {
            interrupt,
            ppu,
            timer,
            joypad,
            bootrom_enable: false,
            bootrom: [0u8; 0x100],
            wram: [0u8; 0x2000],
            hram: [0u8; 127],
            mbc,
        };
        assert(bus@.bootrom =~= Seq::new(0x100, |i: int| 0u8));
        assert(bus@.wram =~= Seq::new(0x2000, |i: int| 0u8));
        assert(bus@.hram =~= Seq::new(127, |i: int| 0u8));
        bus
    }

    /// Tells whether the bus and all that hangs on it are in a state that
    /// they can work from.
    pub fn is_valid(&self) -> (r: bool)
        ensures
            r == self@.wf(),
    {
        self.mbc.is_valid() && self.ppu.is_valid()
    }

    pub fn read_byte(&self, address: u16) -> (r: u8)
        requires
            self@.wf(),
        ensures
            r == self@.read(address),
    {
        proof {
            reveal(BusView::read);
        }
        if self.bootrom_enable && address < 0x100 {
            return self.bootrom[address as usize];
        }
        match address {
            0x0000..=0x7FFF => self.mbc.read_byte(address),
            0x8000..=0x9FFF => self.ppu.read_vram(address),
            0xA000..=0xBFFF => self.mbc.read_byte(address),
            0xC000..=0xDFFF => self.wram[(address - 0xC000) as usize],
            0xE000..=0xFDFF => 0,
            0xFE00..=0xFE9F => self.ppu.read_oam(address),
            0xFEA0..=0xFEFF => 0,
            0xFF00..=0xFF7F => self.read_register(address),
            0xFF80..=0xFFFE => self.hram[(address - 0xFF80) as usize],
            0xFFFF => self.interrupt.interrupt_enable,
        }
    }

    pub fn write_byte(&mut self, address: u16, value: u8)
        requires
            old(self)@.wf(),
        ensures
            final(self)@ == old(self)@.write(address, value),
            final(self)@.wf(),
    {
        proof {
            reveal(BusView::write);
        }
        match address {
            0x0000..=0x7FFF => self.mbc.write_byte(address, value),
            0x8000..=0x9FFF => self.ppu.write_vram(address, value),
            0xA000..=0xBFFF => self.mbc.write_byte(address, value),
            0xC000..=0xDFFF => {
                self.wram[(address - 0xC000) as usize] = value;
            },
            0xE000..=0xFDFF => (),
            0xFE00..=0xFE9F => self.ppu.write_oam(address, value),
            0xFEA0..=0xFEFF => (),
            0xFF00..=0xFF7F => self.write_register(address, value),
            0xFF80..=0xFFFE => {
                self.hram[(address - 0xFF80) as usize] = value;
            },
            0xFFFF => {
                self.interrupt.interrupt_enable = value;
            },
        }
    }

    pub fn read_register(&self, address: u16) -> (r: u8)
        ensures
            r == self@.read_register(address),
    {
        match address {
            JOYPAD => self.joypad.read_joypad(),
            DIV => self.timer.div(),
            TIMA => self.timer.tima,
            TMA => self.timer.tma,
            TAC => self.timer.tac,
            ADDRESS_IF => self.interrupt.interrupt_flag,
            LCDC => self.ppu.lcdc,
            STAT => self.ppu.stat,
            SCY => self.ppu.scy,
            SCX => self.ppu.scx,
            LY => self.ppu.ly(),
            LYC => self.ppu.lyc,
            BGP => self.ppu.bgp,
            OBP0 => self.ppu.obp0,
            OBP1 => self.ppu.obp1,
            WY => self.ppu.wy,
            WX => self.ppu.wx,
            BOOT_DISABLE => if self.bootrom_enable {
                0
            } else {
                1
            },
            _ => 0,
        }
    }

    pub fn write_register(&mut self, address: u16, value: u8)
        ensures
            final(self)@ == old(self)@.write_register(address, value),
            old(self)@.wf() ==> final(self)@.wf(),
    {
        match address {
            JOYPAD => self.joypad.write_joypad(value),
            DIV => self.timer.div_reset(),
            TIMA => {
                self.timer.tima = value;
            },
            TMA => {
                self.timer.tma = value;
            },
            TAC => {
                self.timer.tac = value;
            },
            ADDRESS_IF => {
                self.interrupt.interrupt_flag = value;
            },
            LCDC => {
                self.ppu.lcdc = value;
            },
            STAT => {
                self.ppu.stat = self.ppu.stat % 8 + value / 8 % 16 * 8;
            },
            SCY => {
                self.ppu.scy = value;
            },
            SCX => {
                self.ppu.scx = value;
            },
            LY => (),
            LYC => {
                self.ppu.lyc = value;
            },
            DMA_TRANSFER => self.ppu.start_dma_transfer(value),
            BGP => {
                self.ppu.bgp = value;
            },
            OBP0 => {
                self.ppu.obp0 = value;
            },
            OBP1 => {
                self.ppu.obp1 = value;
            },
            WY => {
                self.ppu.wy = value;
            },
            WX => {
                self.ppu.wx = value;
            },
            BOOT_DISABLE => {
                if value != 0 {
                    self.bootrom_enable = false;
                }
            },
            _ => (),
        }
    }

    /// Takes `data` as the boot ROM and switches it on.
    pub fn load_bootrom(&mut self, data: &Vec<u8>)
        ensures
            final(self)@ == old(self)@.load_bootrom(data@),
            old(self)@.wf() ==> final(self)@.wf(),
    {
        self.bootrom_enable = true;
        let mut i: usize = 0;
        while i < 0x100 && i < data.len()
            invariant
                i <= 0x100,
                i <= data@.len(),
                self@ == (BusView { bootrom_enable: true, bootrom: self@.bootrom, ..old(self)@ }),
                forall|j: int| 0 <= j < i ==> #[trigger] self@.bootrom[j] == data@[j],
                forall|j: int| i <= j < 0x100 ==> #[trigger] self@.bootrom[j] == old(self)@.bootrom[j],
            decreases 0x100 - i,
        {
            self.bootrom[i] = data[i];
            i = i + 1;
        }
        assert(self@.bootrom =~= old(self)@.load_bootrom(data@).bootrom);
    }

    pub fn request_interrupt(&mut self, interrupt: u8)
        requires
            interrupt < 8,
        ensures
            final(self)@ == (BusView { interrupt: with_request(old(self).interrupt, interrupt), ..old(self)@ }),
    {
        self.interrupt.request(interrupt);
    }

    /// Gives the peripherals `cycles` T-cycles.
    pub fn advance(&mut self, cycles: i32)
        requires
            old(self)@.wf(),
        ensures
            final(self)@ == old(self)@.advance(cycles),
            final(self)@.wf(),
    {
        self.timer.update(cycles, &mut self.interrupt);
        self.ppu.update(cycles, &mut self.interrupt);
        self.joypad.update(&mut self.interrupt);
        self.update_dma_transfer(cycles);
    }

    /// Advances an OAM transfer by `cycle` T-cycles.
    pub fn update_dma_transfer(&mut self, cycle: i32)
        requires
            old(self)@.wf(),
        ensures
            final(self)@ == old(self)@.update_dma_transfer(cycle),
            final(self)@.wf(),
    {
        proof {
            reveal(BusView::read);
        }
        let ghost before = self@;
        let page = self.ppu.dma_transfer;
        if self.ppu.update_dma_transfer(cycle) {
            let start: u16 = page as u16 * 256;
            let mut bytes = [0u8; 160];
            let mut offset: u16 = 0;
            while offset < 160
                invariant
                    offset <= 160,
                    start == page * 256,
                    self@.wf(),
                    self@ == (BusView { ppu: dma_advanced(before.ppu, cycle).0, ..before }),
                    forall|j: int| 0 <= j < offset ==> #[trigger] bytes@[j] == before.read((page * 256 + j) as u16),
                decreases 160 - offset,
            {
                proof {
                    reveal(BusView::read);
                }
                bytes[offset as usize] = self.read_byte(start + offset);
                offset = offset + 1;
            }
            self.ppu.oam = bytes;
            assert(self@.ppu.oam =~= before.dma_page(page));
        }
    }
}

} // verus!
