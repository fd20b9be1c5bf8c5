use vstd::prelude::*;
use crate::instructions::load_effective::pc_relative;
use crate::instructions::{destination, destination_of, offset9_of, wrapping_sum};
use crate::registers::register::{PC_SLOT, REGISTER_COUNT};
use crate::MEMORY_MAX;

verus! {

/// The memory after `ST`.
pub open spec fn st_memory(registers: Seq<u16>, memory: Seq<u16>, instruction: u16) -> Seq<u16> {
    memory.update(
        pc_relative(registers, instruction) as int,
        registers[destination(instruction)],
    )
}

/// `ST`: writes the source register to the cell at the PC-relative address.
/// The register file stays as it is.
pub fn st(
    registers: &mut [u16; REGISTER_COUNT],
    memory: &mut [u16; MEMORY_MAX],
    instruction: u16,
)
    ensures
        final(registers)@ == old(registers)@,
        final(memory)@ == st_memory(old(registers)@, old(memory)@, instruction),
{
    let source_register: u16 = destination_of(instruction);
    let pc_offset: u16 = offset9_of(instruction);

    memory[wrapping_sum(registers[PC_SLOT], pc_offset) as usize] =
        registers[source_register as usize];
}

} // verus!
