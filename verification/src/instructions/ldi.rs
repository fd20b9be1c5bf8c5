use vstd::prelude::*;
use crate::instructions::load_effective::pc_relative;
use crate::instructions::{
    destination, destination_of, offset9_of, update_flags, with_result, wrapping_sum,
};
use crate::memory::{after_read, mem_read, read_value};
use crate::registers::register::{PC_SLOT, REGISTER_COUNT};
use crate::MEMORY_MAX;

verus! {

/// The address that an indirect access works on: the word read at the
/// PC-relative address.
pub open spec fn indirect_target(
    registers: Seq<u16>,
    memory: Seq<u16>,
    instruction: u16,
    key: Option<u8>,
) -> u16 {
    read_value(memory, pc_relative(registers, instruction), key)
}

/// The memory after `LDI`: after the read of the pointer, then the read of
/// its target.
pub open spec fn ldi_memory(
    registers: Seq<u16>,
    memory: Seq<u16>,
    instruction: u16,
    key: Option<u8>,
) -> Seq<u16> {
    after_read(
        after_read(memory, pc_relative(registers, instruction), key),
        indirect_target(registers, memory, instruction, key),
        key,
    )
}

/// The register file after `LDI`.
pub open spec fn ldi_result(
    registers: Seq<u16>,
    memory: Seq<u16>,
    instruction: u16,
    key: Option<u8>,
) -> Seq<u16> {
    with_result(
        registers,
        destination(instruction),
        read_value(
            after_read(memory, pc_relative(registers, instruction), key),
            indirect_target(registers, memory, instruction, key),
            key,
        ),
    )
}

/// `LDI`: reads a pointer at the PC-relative address, then the word that
/// it points to into the destination register, and sets the flags from it.
/// `key` is what a probe of the keyboard found, for the case that one of
/// the two addresses is the keyboard status register.
pub fn ldi(
    registers: &mut [u16; REGISTER_COUNT],
    memory: &mut [u16; MEMORY_MAX],
    instruction: u16,
    key: Option<u8>,
)
    ensures
        final(registers)@ == ldi_result(old(registers)@, old(memory)@, instruction, key),
        final(memory)@ == ldi_memory(old(registers)@, old(memory)@, instruction, key),
{
    let destination_register: u16 = destination_of(instruction);
    let pc_offset_9: u16 = offset9_of(instruction);

    let address_of_value_to_load: u16 = mem_read(
        memory,
        wrapping_sum(registers[PC_SLOT], pc_offset_9),
        key,
    );
    registers[destination_register as usize] = mem_read(memory, address_of_value_to_load, key);
    update_flags(registers, destination_register)
}

} // verus!
