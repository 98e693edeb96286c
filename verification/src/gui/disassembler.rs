use vstd::prelude::*;
use crate::emulator::bus::{Bus, BusView};
use crate::emulator::cpu::{disassembly, wrap16, Cpu};
use crate::emulator::instructions::opcode_table::{
    base_entry, get_opcode, get_prefixed_opcode, lemma_tables_are_sound, opcode_of, prefixed_entry,
};

verus! {

/// Where the listing of the first ROM bank ends.
pub const LISTING_END: u16 = 0x4000;

/// The lines of a listing as pairs of an address and a text.
pub open spec fn lines_of(lines: Seq<(u16, String)>) -> Seq<(u16, Seq<char>)> {
    Seq::new(lines.len(), |i: int| (lines[i].0, lines[i].1@))
}

/// The line for the instruction at `address`, if the byte there names one,
/// and the address behind it; a byte that names none is passed over. The
/// opcode behind the prefix 0xCB counts as the one byte behind the opcode.
pub open spec fn listing_step(bus: BusView, address: u16) -> (Option<(u16, Seq<char>)>, int) {
    let byte = bus.read(address);
    if byte == 0xCB {
        let second = bus.read(wrap16(address + 1));
        (Some((address, disassembly(opcode_of(second, prefixed_entry(second), true), seq![second]))), address + 2)
    } else {
        match base_entry(byte) {
            Some(entry) => {
                let opcode = opcode_of(byte, entry, false);
                (
                    Some(
                        (
                            address,
                            disassembly(
                                opcode,
                                Seq::new((opcode.length - 1) as nat, |i: int| bus.read(wrap16(address + 1 + i))),
                            ),
                        ),
                    ),
                    address + opcode.length,
                )
            },
            None => (None, address + 1),
        }
    }
}

/// The lines `so_far` followed by the listing from `address` up to the
/// end of the first ROM bank.
pub open spec fn listing(bus: BusView, address: int, so_far: Seq<(u16, Seq<char>)>) -> Seq<(u16, Seq<char>)>
    decreases 0x4003 - address,
{
    if 0 <= address < 0x4000 {
        let step = listing_step(bus, address as u16);
        if address < step.1 <= address + 3 {
            listing(
                bus,
                step.1,
                match step.0 {
                    Some(line) => so_far.push(line),
                    None => so_far,
                },
            )
        } else {
            so_far
        }
    } else {
        so_far
    }
}

/// Reads the `count` bytes behind the opcode at `address`.
fn operand_bytes(bus: &Bus, address: u16, count: usize) -> (data: Vec<u8>)
    requires
        bus@.wf(),
        count <= 2,
    ensures
        data@ == Seq::new(count as nat, |i: int| bus@.read(wrap16(address + 1 + i))),
{
    let mut data: Vec<u8> = Vec::new();
    let mut i: u16 = 0;
    while (i as usize) < count
        invariant
            i <= count <= 2,
            bus@.wf(),
            data@.len() == i,
            forall|j: int| 0 <= j < i ==> #[trigger] data@[j] == bus@.read(wrap16(address + 1 + j)),
        decreases count - i,
    {
        data.push(bus.read_byte(address.wrapping_add(1).wrapping_add(i)));
        i = i + 1;
    }
    assert(data@ =~= Seq::new(count as nat, |i: int| bus@.read(wrap16(address + 1 + i))));
    data
}

/// Lists the instructions of the first ROM bank with their addresses.
pub fn disassemble_rom(bus: &Bus) -> (disassembled_rom: Vec<(u16, String)>)
    requires
        bus@.wf(),
    ensures
        lines_of(disassembled_rom@) == listing(bus@, 0, Seq::empty()),
{
    let mut disassembled_rom: Vec<(u16, String)> = Vec::new();
    let mut current_address: u16 = 0;
    assert(lines_of(disassembled_rom@) =~= Seq::empty());
    while current_address < LISTING_END
        invariant
            current_address <= LISTING_END + 2,
            bus@.wf(),
            listing(bus@, current_address as int, lines_of(disassembled_rom@)) == listing(bus@, 0, Seq::empty()),
        decreases LISTING_END + 2 - current_address,
    {
        let ghost so_far = lines_of(disassembled_rom@);
        let initial_address = current_address;
        let opcode_byte = bus.read_byte(current_address);
        proof {
            lemma_tables_are_sound(opcode_byte);
        }
        if opcode_byte == 0xCB {
            let cb_opcode_byte = bus.read_byte(current_address + 1);
            proof {
                lemma_tables_are_sound(cb_opcode_byte);
            }
            let opcode = get_prefixed_opcode(cb_opcode_byte);
            let mut data: Vec<u8> = Vec::new();
            data.push(cb_opcode_byte);
            assert(data@ =~= seq![cb_opcode_byte]);
            let inst = Cpu::disassemble_opcode(&opcode, data);
            disassembled_rom.push((initial_address, inst));
            assert(lines_of(disassembled_rom@) =~= so_far.push((initial_address, inst@)));
            current_address = current_address + 2;
        } else {
            match get_opcode(opcode_byte) {
                Ok(opcode) => {
                    let data = operand_bytes(bus, current_address, opcode.length - 1);
                    let inst = Cpu::disassemble_opcode(&opcode, data);
                    disassembled_rom.push((initial_address, inst));
                    assert(lines_of(disassembled_rom@) =~= so_far.push((initial_address, inst@)));
                    current_address = current_address + opcode.length as u16;
                },
                Err(_) => {
                    current_address = current_address + 1;
                },
            }
        }
    }
    disassembled_rom
}

} // verus!
