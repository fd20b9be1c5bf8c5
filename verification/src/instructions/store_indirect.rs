use vstd::prelude::*;
use crate::instructions::ldi::indirect_target;
use crate::instructions::load_effective::pc_relative;
use crate::instructions::{destination, destination_of, offset9_of, wrapping_sum};
use crate::machine::Vm;
use crate::memory::after_read;
use crate::registers::register::PC_SLOT;

verus! {

/// The memory after `STI`: after the read of the pointer, with the source
/// register written to the cell that the pointer names.
pub open spec fn sti_memory(
    registers: Seq<u16>,
    memory: Seq<u16>,
    instruction: u16,
    key: Option<u8>,
) -> Seq<u16> {
    after_read(memory, pc_relative(registers, instruction), key).update(
        indirect_target(registers, memory, instruction, key) as int,
        registers[destination(instruction)],
    )
}

/// `STI`: reads a pointer at the PC-relative address and writes the source
/// register to the cell that it points to. The register file stays as it
/// is. `key` is what a probe of the keyboard found, for the case that the
/// pointer sits in the keyboard status register.
pub fn sti(vm: &mut Vm, instruction: u16, key: Option<u8>)
    ensures
        final(vm)@.registers == old(vm)@.registers,
        final(vm)@.memory == sti_memory(
            old(vm)@.registers,
            old(vm)@.memory,
            instruction,
            key,
        ),
{
    let source_register: u16 = destination_of(instruction);
    let pc_offset_9: u16 = offset9_of(instruction);
    let destination_address: u16 = vm.mem_read(
        wrapping_sum(vm.registers[PC_SLOT], pc_offset_9),
        key,
    );

    vm.mem_write(destination_address, vm.registers[source_register as usize])
}

} // verus!
