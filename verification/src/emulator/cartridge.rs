use vstd::prelude::*;
use super::mbcs::mbc::{Mbc, MbcView};
use super::mbcs::mbc1::{Mbc1View, MBC1};
use super::mbcs::mbc5::{Mbc5View, MBC5};
use super::mbcs::rom::Rom;

verus! {

pub const CART_HEADER_TYPE: u16 = 0x147;

pub const CART_HEADER_ROM_SIZE: u16 = 0x148;

/// Why an image cannot be taken for a cartridge.
#[derive(Debug, Clone, Copy, PartialEq, Eq, Structural)]
pub enum CartridgeError {
    /// The image is shorter than the 32 KiB that every cartridge maps.
    TooSmall,
    /// The type byte of the header names no supported controller.
    UnsupportedType(u8),
}

/// The kinds of cartridge.
#[derive(Debug, Clone, Copy, PartialEq, Eq, Structural)]
pub enum CartridgeKind {
    RomOnly,
    Mbc1,
    Mbc5,
}

/// The kind that a type byte names: 0 is a plain ROM, 1 to 3 the first
/// controller, 0x19 to 0x1E the fifth; every other value names none.
pub open spec fn kind_of_type(type_byte: u8) -> Option<CartridgeKind> {
    if type_byte == 0 {
        Some(CartridgeKind::RomOnly)
    } else if 1 <= type_byte <= 3 {
        Some(CartridgeKind::Mbc1)
    } else if 0x19 <= type_byte <= 0x1E {
        Some(CartridgeKind::Mbc5)
    } else {
        None
    }
}

/// The size in bytes that a size code declares: 32 KiB doubled `code` times.
pub open spec fn declared_rom_size(code: nat) -> nat
    decreases code,
{
    if code == 0 {
        0x8000
    } else {
        2 * declared_rom_size((code - 1) as nat)
    }
}

/// The error with which `data` is refused, if it is: an image that holds
/// the 32 KiB that every cartridge maps is refused for its type byte
/// alone.
pub open spec fn cartridge_error(data: Seq<u8>) -> Option<CartridgeError> {
    if data.len() < 0x8000 {
        Some(CartridgeError::TooSmall)
    } else if kind_of_type(data[0x147]) is None {
        Some(CartridgeError::UnsupportedType(data[0x147]))
    } else {
        None
    }
}

/// The cartridge that `data` makes, in its power-on state.
pub open spec fn cartridge_of(data: Seq<u8>) -> MbcView {
    match kind_of_type(data[0x147]) {
        Some(CartridgeKind::Mbc1) => MbcView::Mbc1(
            Mbc1View {
                rom_bank: 1,
                ram_bank: 0,
                rom_banking: false,
                rom: data,
                ram: Seq::new(0x8000, |i: int| 0u8),
                ram_enable: false,
            },
        ),
        Some(CartridgeKind::Mbc5) => MbcView::Mbc5(
            Mbc5View { rom_bank: 1, ram_bank: 0, rom: data, ram: Seq::new(0x20000, |i: int| 0u8), ram_enable: false },
        ),
        _ => MbcView::Rom(super::mbcs::rom::RomView { memory: data.take(0x8000) }),
    }
}

pub fn cartridge_kind(type_byte: u8) -> (r: Option<CartridgeKind>)
    ensures
        r == kind_of_type(type_byte),
{
    if type_byte == 0 {
        Some(CartridgeKind::RomOnly)
    } else if type_byte <= 3 {
        Some(CartridgeKind::Mbc1)
    } else if 0x19 <= type_byte && type_byte <= 0x1E {
        Some(CartridgeKind::Mbc5)
    } else {
        None
    }
}

proof fn lemma_declared_rom_size_grows(a: nat, b: nat)
    requires
        a <= b,
    ensures
        declared_rom_size(a) <= declared_rom_size(b),
        declared_rom_size(a) >= 0x8000,
    decreases b,
{
    if a < b {
        lemma_declared_rom_size_grows(a, (b - 1) as nat);
    } else if a > 0 {
        lemma_declared_rom_size_grows((a - 1) as nat, (a - 1) as nat);
    }
}

/// The declared size of the image, where a `u32` can hold it.
pub fn rom_size(code: u8) -> (r: Option<u32>)
    ensures
        match r {
            Some(size) => size == declared_rom_size(code as nat),
            None => declared_rom_size(code as nat) > u32::MAX,
        },
{
    let mut size: u32 = 0x8000;
    let mut done: u8 = 0;
    while done < code
        invariant
            done <= code,
            size == declared_rom_size(done as nat),
        decreases code - done,
    {
        if size > u32::MAX / 2 {
            proof {
                lemma_declared_rom_size_grows((done + 1) as nat, code as nat);
            }
            return None;
        }
        size = size * 2;
        done = done + 1;
    }
    Some(size)
}

/// Makes the cartridge that the image `data` describes. The size that the
/// header declares decides nothing: the controllers take their bounds from
/// the image itself.
pub fn load_cartridge(data: Vec<u8>) -> (r: Result<Mbc, CartridgeError>)
    ensures
        match r {
            Ok(mbc) => cartridge_error(data@) is None && mbc@ == cartridge_of(data@) && mbc@.wf(),
            Err(e) => cartridge_error(data@) == Some(e),
        },
{
    if data.len() < 0x8000 {
        return Err(CartridgeError::TooSmall);
    }
    let size_code = data[CART_HEADER_ROM_SIZE as usize];
    let mbc_type = data[CART_HEADER_TYPE as usize];
    let size = match rom_size(size_code) {
        Some(size) => size,
        None => u32::MAX,
    };
    match cartridge_kind(mbc_type) {
        Some(CartridgeKind::RomOnly) => Ok(Mbc::Rom(Rom::new(data))),
        Some(CartridgeKind::Mbc1) => Ok(Mbc::Mbc1(MBC1::new(data, size))),
        Some(CartridgeKind::Mbc5) => Ok(Mbc::Mbc5(MBC5::new(data))),
        None => Err(CartridgeError::UnsupportedType(mbc_type)),
    }
}

} // verus!
