use vstd::prelude::*;
use crate::instructions::{base, base_of, destination, destination_of, update_flags, with_result};
use crate::registers::register::REGISTER_COUNT;

verus! {

/// The bitwise complement of a word.
pub open spec fn complement(value: u16) -> u16 {
    (0xFFFF - value) as u16
}

/// The register file after `NOT`.
pub open spec fn not_result(registers: Seq<u16>, instruction: u16) -> Seq<u16> {
    with_result(registers, destination(instruction), complement(registers[base(instruction)]))
}

/// `NOT`: writes the bitwise complement of the source register to the
/// destination register and sets the flags from it.
pub fn not(registers: &mut [u16; REGISTER_COUNT], instruction: u16)
    ensures
        final(registers)@ == not_result(old(registers)@, instruction),
{
    let destination_register: u16 = destination_of(instruction);
    let source_register: u16 = base_of(instruction);

    let value: u16 = registers[source_register as usize];
    assert(!value == 0xFFFFu16 - value) by (bit_vector);
    registers[destination_register as usize] = !value;

    update_flags(registers, destination_register)
}

} // verus!
