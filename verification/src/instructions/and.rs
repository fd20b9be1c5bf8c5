use vstd::prelude::*;
use crate::instructions::add::second_operand;
use crate::instructions::{
    base, base_of, destination, destination_of, imm5_of, is_immediate, second_source_of,
    update_flags, with_result,
};
use crate::registers::register::REGISTER_COUNT;

verus! {

/// The register file after `AND`.
pub open spec fn and_result(registers: Seq<u16>, instruction: u16) -> Seq<u16> {
    with_result(
        registers,
        destination(instruction),
        registers[base(instruction)] & second_operand(registers, instruction),
    )
}

/// `AND`: writes the bitwise conjunction of the first source register and
/// the second operand to the destination register and sets the flags from
/// it.
pub fn and(registers: &mut [u16; REGISTER_COUNT], instruction: u16)
    ensures
        final(registers)@ == and_result(old(registers)@, instruction),
{
    let destination_register: u16 = destination_of(instruction);
    let source_register: u16 = base_of(instruction);

    if is_immediate(instruction) {
        let imm5: u16 = imm5_of(instruction);
        registers[destination_register as usize] = registers[source_register as usize] & imm5;
    } else {
        let second_register: u16 = second_source_of(instruction);
        registers[destination_register as usize] = registers[source_register as usize]
            & registers[second_register as usize];
    }

    update_flags(registers, destination_register)
}

} // verus!
