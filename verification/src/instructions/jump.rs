use vstd::prelude::*;
use crate::instructions::{base, base_of};
use crate::registers::register::{PC_SLOT, REGISTER_COUNT};

verus! {

/// The register file after `JMP`.
pub open spec fn jmp_result(registers: Seq<u16>, instruction: u16) -> Seq<u16> {
    registers.update(PC_SLOT as int, registers[base(instruction)])
}

/// `JMP`: sets the program counter to the value of the base register.
pub fn jmp(registers: &mut [u16; REGISTER_COUNT], instruction: u16)
    ensures
        final(registers)@ == jmp_result(old(registers)@, instruction),
{
    let base_register: u16 = base_of(instruction);

    registers[PC_SLOT] = registers[base_register as usize];
}

} // verus!
