use vstd::prelude::*;
use crate::instructions::load_register::base_relative;
use crate::instructions::{base_of, destination, destination_of, offset6_of, wrapping_sum};
use crate::registers::register::REGISTER_COUNT;
use crate::MEMORY_MAX;

verus! {

/// The memory after `STR`.
pub open spec fn str_memory(registers: Seq<u16>, memory: Seq<u16>, instruction: u16) -> Seq<u16> {
    memory.update(
        base_relative(registers, instruction) as int,
        registers[destination(instruction)],
    )
}

/// `STR`: writes the source register to the cell at the base-relative
/// address. The register file stays as it is.
pub fn str(
    registers: &mut [u16; REGISTER_COUNT],
    memory: &mut [u16; MEMORY_MAX],
    instruction: u16,
)
    ensures
        final(registers)@ == old(registers)@,
        final(memory)@ == str_memory(old(registers)@, old(memory)@, instruction),
{
    let source_register: u16 = destination_of(instruction);
    let base_register: u16 = base_of(instruction);
    let offset_6: u16 = offset6_of(instruction);

    memory[wrapping_sum(registers[base_register as usize], offset_6) as usize] =
        registers[source_register as usize];
}

} // verus!
