use vstd::prelude::*;
use crate::instructions::{
    base, base_of, is_long, long_mode, offset11, offset11_of, wrapped_sum, wrapping_sum,
};
use crate::registers::register::{PC_SLOT, R7_SLOT, REGISTER_COUNT};

verus! {

/// The register file after `JSR`. `R7` takes the program counter first; the
/// jump target is read from the register file after that write.
pub open spec fn jsr_result(registers: Seq<u16>, instruction: u16) -> Seq<u16> {
    let linked = registers.update(R7_SLOT as int, registers[PC_SLOT as int]);
    if long_mode(instruction) {
        linked.update(
            PC_SLOT as int,
            wrapped_sum(linked[PC_SLOT as int], offset11(instruction)),
        )
    } else {
        linked.update(PC_SLOT as int, linked[base(instruction)])
    }
}

/// `JSR` and `JSRR`: saves the program counter in `R7`, then jumps by the
/// offset or to the value of the base register.
pub fn jsr(registers: &mut [u16; REGISTER_COUNT], instruction: u16)
    ensures
        final(registers)@ == jsr_result(old(registers)@, instruction),
{
    let long_flag: bool = is_long(instruction);

    registers[R7_SLOT] = registers[PC_SLOT];

    if !long_flag {
        let base_register: u16 = base_of(instruction);
        registers[PC_SLOT] = registers[base_register as usize];
    } else {
        let long_pc_offset: u16 = offset11_of(instruction);
        registers[PC_SLOT] = wrapping_sum(registers[PC_SLOT], long_pc_offset);
    }
}

} // verus!
