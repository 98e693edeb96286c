use vstd::prelude::*;

verus! {

/// Whether `index` is the line of `lines` to select for the program counter
/// `pc`: the first whose address is not below it.
pub open spec fn is_selected(lines: Seq<(u16, String)>, pc: u16, index: int) -> bool {
    &&& 0 <= index < lines.len()
    &&& lines[index].0 >= pc
    &&& forall|j: int| 0 <= j < index ==> (#[trigger] lines[j]).0 < pc
}

/// Finds the line of a listing to select for the program counter `pc`.
/// There is none where the program counter is not below the number of
/// lines, nor where every line lies below it.
pub fn selected_instruction(instruction_list: &Vec<(u16, String)>, pc: u16) -> (r: Option<usize>)
    ensures
        match r {
            Some(index) => pc < instruction_list@.len() && is_selected(instruction_list@, pc, index as int),
            None => pc >= instruction_list@.len() || forall|j: int|
                0 <= j < instruction_list@.len() ==> (#[trigger] instruction_list@[j]).0 < pc,
        },
{
    if pc as usize >= instruction_list.len() {
        return None;
    }
    let mut current_index: usize = 0;
    while current_index < instruction_list.len()
        invariant
            current_index <= instruction_list@.len(),
            pc < instruction_list@.len(),
            forall|j: int| 0 <= j < current_index ==> (#[trigger] instruction_list@[j]).0 < pc,
        decreases instruction_list@.len() - current_index,
    {
        if instruction_list[current_index].0 >= pc {
            return Some(current_index);
        }
        current_index = current_index + 1;
    }
    None
}

} // verus!
