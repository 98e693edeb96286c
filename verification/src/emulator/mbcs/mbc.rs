use vstd::prelude::*;
use super::mbc1::{Mbc1View, MBC1};
use super::mbc5::{Mbc5View, MBC5};
use super::rom::{Rom, RomView};

verus! {

/// A cartridge of one of the supported kinds. Each kind answers reads and
/// takes writes; what a write below 0x8000 means is the kind's own affair.
pub enum Mbc {
    Rom(Rom),
    Mbc1(MBC1),
    Mbc5(MBC5),
}

pub enum MbcView {
    Rom(RomView),
    Mbc1(Mbc1View),
    Mbc5(Mbc5View),
}

impl View for Mbc {
    type V = MbcView;

    open spec fn view(&self) -> MbcView {
        match *self {
            Mbc::Rom(r) => MbcView::Rom(r@),
            Mbc::Mbc1(m) => MbcView::Mbc1(m@),
            Mbc::Mbc5(m) => MbcView::Mbc5(m@),
        }
    }
}

impl MbcView {
    pub open spec fn wf(self) -> bool {
        match self {
            MbcView::Rom(r) => r.wf(),
            MbcView::Mbc1(m) => m.wf(),
            MbcView::Mbc5(m) => m.wf(),
        }
    }

    pub open spec fn read(self, address: u16) -> u8 {
        match self {
            MbcView::Rom(r) => r.read(address),
            MbcView::Mbc1(m) => m.read(address),
            MbcView::Mbc5(m) => m.read(address),
        }
    }

    pub open spec fn write(self, address: u16, value: u8) -> MbcView {
        match self {
            MbcView::Rom(r) => MbcView::Rom(r),
            MbcView::Mbc1(m) => MbcView::Mbc1(m.write(address, value)),
            MbcView::Mbc5(m) => MbcView::Mbc5(m.write(address, value)),
        }
    }
}

impl Mbc {
    /// Tells whether the cartridge is in a state that it can work from.
    pub fn is_valid(&self) -> (r: bool)
        ensures
            r == self@.wf(),
    {
        match self {
            Mbc::Rom(_) => true,
            Mbc::Mbc1(m) => m.is_valid(),
            Mbc::Mbc5(m) => m.is_valid(),
        }
    }

    pub fn read_byte(&self, address: u16) -> (r: u8)
        requires
            self@.wf(),
        ensures
            r == self@.read(address),
    {
        match self {
            Mbc::Rom(r) => r.read_byte(address),
            Mbc::Mbc1(m) => m.read_byte(address),
            Mbc::Mbc5(m) => m.read_byte(address),
        }
    }

    pub fn write_byte(&mut self, address: u16, value: u8)
        requires
            old(self)@.wf(),
        ensures
            final(self)@ == old(self)@.write(address, value),
            final(self)@.wf(),
    {
        match self {
            Mbc::Rom(r) => r.write_byte(address, value),
            Mbc::Mbc1(m) => m.write_byte(address, value),
            Mbc::Mbc5(m) => m.write_byte(address, value),
        }
    }
}

} // verus!
