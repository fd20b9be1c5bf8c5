use vstd::prelude::*;
use crate::instructions::{
    base, base_of, destination, destination_of, offset6, offset6_of, update_flags, with_result,
    wrapped_sum, wrapping_sum,
};
use crate::memory::{after_read, mem_read, read_value};
use crate::registers::register::REGISTER_COUNT;
use crate::MEMORY_MAX;

verus! {

/// The address of a base-relative access: the base register plus the
/// six-bit offset, in the sixteen-bit ring.
pub open spec fn base_relative(registers: Seq<u16>, instruction: u16) -> u16 {
    wrapped_sum(registers[base(instruction)], offset6(instruction))
}

/// The register file after `LDR`.
pub open spec fn ldr_result(
    registers: Seq<u16>,
    memory: Seq<u16>,
    instruction: u16,
    key: Option<u8>,
) -> Seq<u16> {
    with_result(
        registers,
        destination(instruction),
        read_value(memory, base_relative(registers, instruction), key),
    )
}

/// `LDR`: reads the word at the base-relative address into the destination
/// register and sets the flags from it. `key` is what a probe of the
/// keyboard found, for the case that the address is the keyboard status
/// register.
pub fn ldr(
    registers: &mut [u16; REGISTER_COUNT],
    memory: &mut [u16; MEMORY_MAX],
    instruction: u16,
    key: Option<u8>,
)
    ensures
        final(registers)@ == ldr_result(old(registers)@, old(memory)@, instruction, key),
        final(memory)@ == after_read(
            old(memory)@,
            base_relative(old(registers)@, instruction),
            key,
        ),
{
    let destination_register: u16 = destination_of(instruction);
    let base_register: u16 = base_of(instruction);
    let offset_6: u16 = offset6_of(instruction);

    registers[destination_register as usize] = mem_read(
        memory,
        wrapping_sum(registers[base_register as usize], offset_6),
        key,
    );

    update_flags(registers, destination_register);
}

} // verus!
