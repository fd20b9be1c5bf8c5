use vstd::prelude::*;
use crate::instructions::load_effective::pc_relative;
use crate::instructions::{
    destination, destination_of, offset9_of, update_flags, with_result, wrapping_sum,
};
use crate::memory::{after_read, mem_read, read_value};
use crate::registers::register::{PC_SLOT, REGISTER_COUNT};
use crate::MEMORY_MAX;

verus! {

/// The register file after `LD`.
pub open spec fn ld_result(
    registers: Seq<u16>,
    memory: Seq<u16>,
    instruction: u16,
    key: Option<u8>,
) -> Seq<u16> {
    with_result(
        registers,
        destination(instruction),
        read_value(memory, pc_relative(registers, instruction), key),
    )
}

/// `LD`: reads the word at the PC-relative address into the destination
/// register and sets the flags from it. `key` is what a probe of the
/// keyboard found, for the case that the address is the keyboard status
/// register.
pub fn ld(
    registers: &mut [u16; REGISTER_COUNT],
    memory: &mut [u16; MEMORY_MAX],
    instruction: u16,
    key: Option<u8>,
)
    ensures
        final(registers)@ == ld_result(old(registers)@, old(memory)@, instruction, key),
        final(memory)@ == after_read(
            old(memory)@,
            pc_relative(old(registers)@, instruction),
            key,
        ),
{
    let destination_register: u16 = destination_of(instruction);
    let pc_offset: u16 = offset9_of(instruction);

    registers[destination_register as usize] = mem_read(
        memory,
        wrapping_sum(registers[PC_SLOT], pc_offset),
        key,
    );

    update_flags(registers, destination_register)
}

} // verus!
