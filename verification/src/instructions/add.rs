use vstd::prelude::*;
use crate::instructions::{
    base, base_of, destination, destination_of, imm5, imm5_of, immediate_mode, is_immediate,
    second_source, second_source_of, update_flags, with_result, wrapped_sum, wrapping_sum,
};
use crate::registers::register::REGISTER_COUNT;

verus! {

/// The second operand of `ADD` and `AND`: the sign-extended immediate where
/// bit 5 is set, else the value of the register in bits `[2:0]`.
pub open spec fn second_operand(registers: Seq<u16>, instruction: u16) -> u16 {
    if immediate_mode(instruction) {
        imm5(instruction)
    } else {
        registers[second_source(instruction)]
    }
}

/// The register file after `ADD`.
pub open spec fn add_result(registers: Seq<u16>, instruction: u16) -> Seq<u16> {
    with_result(
        registers,
        destination(instruction),
        wrapped_sum(registers[base(instruction)], second_operand(registers, instruction)),
    )
}

/// `ADD`: writes the wrapping sum of the first source register and the
/// second operand to the destination register and sets the flags from it.
pub fn add(registers: &mut [u16; REGISTER_COUNT], instruction: u16)
    ensures
        final(registers)@ == add_result(old(registers)@, instruction),
{
    let destination_register: u16 = destination_of(instruction);
    let source_register: u16 = base_of(instruction);

    if is_immediate(instruction) {
        let imm5: u16 = imm5_of(instruction);
        registers[destination_register as usize] = wrapping_sum(
            registers[source_register as usize],
            imm5,
        );
    } else {
        let second_register: u16 = second_source_of(instruction);
        registers[destination_register as usize] = wrapping_sum(
            registers[source_register as usize],
            registers[second_register as usize],
        );
    }

    update_flags(registers, destination_register)
}

} // verus!
