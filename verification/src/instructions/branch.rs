use vstd::prelude::*;
use crate::instructions::{destination, destination_of, offset9, offset9_of, wrapped_sum, wrapping_sum};
use crate::registers::register::{COND_SLOT, PC_SLOT, REGISTER_COUNT};

verus! {

/// Whether `BR` branches: the `nzp` mask in bits `[11:9]` and the condition
/// register have a bit in common.
pub open spec fn branch_taken(registers: Seq<u16>, instruction: u16) -> bool {
    (destination(instruction) as u16 & registers[COND_SLOT as int]) != 0
}

/// The register file after `BR`.
pub open spec fn br_result(registers: Seq<u16>, instruction: u16) -> Seq<u16> {
    if branch_taken(registers, instruction) {
        registers.update(
            PC_SLOT as int,
            wrapped_sum(registers[PC_SLOT as int], offset9(instruction)),
        )
    } else {
        registers
    }
}

/// `BR`: adds the offset to the program counter where the mask meets the
/// condition register, and does nothing otherwise.
pub fn br(registers: &mut [u16; REGISTER_COUNT], instruction: u16)
    ensures
        final(registers)@ == br_result(old(registers)@, instruction),
{
    let pc_offset: u16 = offset9_of(instruction);
    let cond_flag: u16 = destination_of(instruction);

    if cond_flag & registers[COND_SLOT] != 0 {
        registers[PC_SLOT] = wrapping_sum(registers[PC_SLOT], pc_offset);
    }
}

} // verus!
