use vstd::prelude::*;
use crate::instructions::{
    destination, destination_of, offset9, offset9_of, update_flags, with_result, wrapped_sum,
    wrapping_sum,
};
use crate::registers::register::{PC_SLOT, REGISTER_COUNT};

verus! {

/// The address of a PC-relative access: the program counter plus the
/// nine-bit offset, in the sixteen-bit ring.
pub open spec fn pc_relative(registers: Seq<u16>, instruction: u16) -> u16 {
    wrapped_sum(registers[PC_SLOT as int], offset9(instruction))
}

/// The register file after `LEA`.
pub open spec fn lea_result(registers: Seq<u16>, instruction: u16) -> Seq<u16> {
    with_result(registers, destination(instruction), pc_relative(registers, instruction))
}

/// `LEA`: writes the PC-relative address itself to the destination register
/// and sets the flags from it.
pub fn lea(registers: &mut [u16; REGISTER_COUNT], instruction: u16)
    ensures
        final(registers)@ == lea_result(old(registers)@, instruction),
{
    let destination_register: u16 = destination_of(instruction);
    let pc_offset_9: u16 = offset9_of(instruction);

    registers[destination_register as usize] = wrapping_sum(registers[PC_SLOT], pc_offset_9);

    update_flags(registers, destination_register);
}

} // verus!
