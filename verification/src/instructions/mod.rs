//! Instruction fields, sign extension and condition flags, and one module
//! per opcode.
//!
//! The contracts read an instruction word arithmetically: the field in bits
//! `[h:l]` of a word `w` is `(w / 2^l) % 2^(h - l + 1)`. The handlers carve the
//! same fields out with shifts and masks.

use vstd::prelude::*;
use crate::registers::register::{COND_SLOT, REGISTER_COUNT};
use crate::registers::ConditionFlag;

pub mod add;
pub mod and;
pub mod branch;
pub mod jump;
pub mod jump_register;
pub mod ldi;
pub mod load;
pub mod load_effective;
pub mod load_register;
pub mod not;
pub mod opcodes;
pub mod store;
pub mod store_indirect;
pub mod store_register;
pub mod trap;

verus! {

/// Two to the power `n`, for `n` from 0 to 16.
pub open spec fn two_to(n: int) -> int {
    if n <= 0 {
        1
    } else if n == 1 {
        2
    } else if n == 2 {
        4
    } else if n == 3 {
        8
    } else if n == 4 {
        16
    } else if n == 5 {
        32
    } else if n == 6 {
        64
    } else if n == 7 {
        128
    } else if n == 8 {
        256
    } else if n == 9 {
        512
    } else if n == 10 {
        1024
    } else if n == 11 {
        2048
    } else if n == 12 {
        4096
    } else if n == 13 {
        8192
    } else if n == 14 {
        16384
    } else if n == 15 {
        32768
    } else {
        65536
    }
}

/// The word that `sign_extend` yields. Where bit `bit_count - 1` of `input`
/// is set, every bit from `bit_count` upwards is set and the bits below are
/// kept; where it is clear, `input` is returned as it is.
pub open spec fn sign_extended(input: u16, bit_count: u16) -> int {
    if (input as int / two_to(bit_count - 1)) % 2 == 1 {
        input as int % two_to(bit_count as int) + 65536 - two_to(bit_count as int)
    } else {
        input as int
    }
}

/// The integer that a field of `bit_count` bits stands for in two's
/// complement.
pub open spec fn signed_value(field: int, bit_count: int) -> int {
    if field >= two_to(bit_count - 1) {
        field - two_to(bit_count)
    } else {
        field
    }
}

/// Sum of two words in the sixteen-bit ring.
pub open spec fn wrapped_sum(a: u16, b: u16) -> u16 {
    ((a + b) % 65536) as u16
}

/// Bits `[11:9]` of an instruction: the destination or source register, or
/// the `nzp` mask of a branch.
pub open spec fn destination(instruction: u16) -> int {
    (instruction as int / 512) % 8
}

/// Bits `[8:6]` of an instruction: the first source or the base register.
pub open spec fn base(instruction: u16) -> int {
    (instruction as int / 64) % 8
}

/// Bits `[2:0]` of an instruction: the second source register.
pub open spec fn second_source(instruction: u16) -> int {
    instruction as int % 8
}

/// Bit 5 of an instruction: set where the second operand is an immediate.
pub open spec fn immediate_mode(instruction: u16) -> bool {
    (instruction as int / 32) % 2 == 1
}

/// Bit 11 of an instruction: set where a subroutine jump is PC-relative.
pub open spec fn long_mode(instruction: u16) -> bool {
    (instruction as int / 2048) % 2 == 1
}

/// The low `bit_count` bits of an instruction.
pub open spec fn low_bits(instruction: u16, bit_count: int) -> u16 {
    (instruction as int % two_to(bit_count)) as u16
}

/// The five-bit immediate operand, sign-extended.
pub open spec fn imm5(instruction: u16) -> u16 {
    sign_extended(low_bits(instruction, 5), 5) as u16
}

/// The six-bit offset of a base-relative access, sign-extended.
pub open spec fn offset6(instruction: u16) -> u16 {
    sign_extended(low_bits(instruction, 6), 6) as u16
}

/// The nine-bit offset of a PC-relative access, sign-extended.
pub open spec fn offset9(instruction: u16) -> u16 {
    sign_extended(low_bits(instruction, 9), 9) as u16
}

/// The eleven-bit offset of a subroutine jump, sign-extended.
pub open spec fn offset11(instruction: u16) -> u16 {
    sign_extended(low_bits(instruction, 11), 11) as u16
}

/// The condition register's value after a result `value`: exactly one of
/// the three flag bits.
pub open spec fn flag_of(value: u16) -> u16 {
    ConditionFlag::describing(value).mask()
}

/// The register file after `value` was written to the general register
/// `dr` and the condition register was set from it.
pub open spec fn with_result(registers: Seq<u16>, dr: int, value: u16) -> Seq<u16> {
    registers.update(dr, value).update(COND_SLOT as int, flag_of(value))
}

proof fn lemma_shift_is_power(n: u16)
    by (bit_vector)
    requires
        n <= 15,
    ensures
        (1u16 << n) == two_to(n as int),
{
}

proof fn lemma_sign_bit(input: u16, k: u16)
    by (bit_vector)
    requires
        k <= 15,
    ensures
        ((input >> k) & 1 == 1) == ((input / (1u16 << k)) % 2 == 1),
{
}

proof fn lemma_fill_high(input: u16, n: u16)
    by (bit_vector)
    requires
        1 <= n <= 15,
    ensures
        (input | (0xFFFFu16 << n)) == (input % (1u16 << n)) + 65536 - (1u16 << n),
{
}

/// Widens a field of `bit_count` bits to sixteen bits by replicating its
/// top bit.
pub fn sign_extend(input: u16, bit_count: u16) -> (r: u16)
    requires
        1 <= bit_count <= 16,
    ensures
        r == sign_extended(input, bit_count),
        input < two_to(bit_count as int) ==> r == (signed_value(input as int, bit_count as int)
            + 65536) % 65536,
{
    let sign_bit: u16 = input >> (bit_count - 1);
    proof {
        lemma_sign_bit(input, (bit_count - 1) as u16);
        lemma_shift_is_power((bit_count - 1) as u16);
        if bit_count < 16 {
            lemma_shift_is_power(bit_count);
            lemma_fill_high(input, bit_count);
        }
    }
    if sign_bit & 1 == 1 {
        if bit_count == 16 {
            input
        } else {
            input | (0xFFFF << bit_count)
        }
    } else {
        input
    }
}

/// Sets the condition register from the value in slot `r`.
pub fn update_flags(registers: &mut [u16; REGISTER_COUNT], r: u16)
    requires
        r < REGISTER_COUNT,
    ensures
        final(registers)@ == old(registers)@.update(
            COND_SLOT as int,
            flag_of(old(registers)@[r as int]),
        ),
{
    let flag: ConditionFlag = ConditionFlag::of(registers[r as usize]);
    registers[COND_SLOT] = flag.bits();
}

/// Sum of two words in the sixteen-bit ring.
pub(crate) fn wrapping_sum(a: u16, b: u16) -> (r: u16)
    ensures
        r == wrapped_sum(a, b),
{
    a.wrapping_add(b)
}

/// Bits `[11:9]` of an instruction.
pub(crate) fn destination_of(instruction: u16) -> (r: u16)
    ensures
        r == destination(instruction),
        r < 8,
{
    let r: u16 = (instruction >> 9) & 0x7;
    assert(r == (instruction / 512) % 8 && r < 8) by (bit_vector)
        requires
            r == (instruction >> 9) & 0x7,
    ;
    r
}

/// Bits `[8:6]` of an instruction.
pub(crate) fn base_of(instruction: u16) -> (r: u16)
    ensures
        r == base(instruction),
        r < 8,
{
    let r: u16 = (instruction >> 6) & 0x7;
    assert(r == (instruction / 64) % 8 && r < 8) by (bit_vector)
        requires
            r == (instruction >> 6) & 0x7,
    ;
    r
}

/// Bits `[2:0]` of an instruction.
pub(crate) fn second_source_of(instruction: u16) -> (r: u16)
    ensures
        r == second_source(instruction),
        r < 8,
{
    let r: u16 = instruction & 0x7;
    assert(r == instruction % 8 && r < 8) by (bit_vector)
        requires
            r == instruction & 0x7,
    ;
    r
}

/// Whether bit 5 of an instruction is set.
pub(crate) fn is_immediate(instruction: u16) -> (r: bool)
    ensures
        r == immediate_mode(instruction),
{
    let flag: u16 = (instruction >> 5) & 0x1;
    assert(flag == (instruction / 32) % 2) by (bit_vector)
        requires
            flag == (instruction >> 5) & 0x1,
    ;
    flag == 1
}

/// Whether bit 11 of an instruction is set.
pub(crate) fn is_long(instruction: u16) -> (r: bool)
    ensures
        r == long_mode(instruction),
{
    let flag: u16 = (instruction >> 11) & 0x1;
    assert(flag == (instruction / 2048) % 2) by (bit_vector)
        requires
            flag == (instruction >> 11) & 0x1,
    ;
    flag == 1
}

/// The five-bit immediate operand of an instruction, sign-extended.
pub(crate) fn imm5_of(instruction: u16) -> (r: u16)
    ensures
        r == imm5(instruction),
{
    let field: u16 = instruction & 0x1F;
    assert(field == instruction % 32) by (bit_vector)
        requires
            field == instruction & 0x1F,
    ;
    sign_extend(field, 5)
}

/// The six-bit offset of an instruction, sign-extended.
pub(crate) fn offset6_of(instruction: u16) -> (r: u16)
    ensures
        r == offset6(instruction),
{
    let field: u16 = instruction & 0x3F;
    assert(field == instruction % 64) by (bit_vector)
        requires
            field == instruction & 0x3F,
    ;
    sign_extend(field, 6)
}

/// The nine-bit offset of an instruction, sign-extended.
pub(crate) fn offset9_of(instruction: u16) -> (r: u16)
    ensures
        r == offset9(instruction),
{
    let field: u16 = instruction & 0x1FF;
    assert(field == instruction % 512) by (bit_vector)
        requires
            field == instruction & 0x1FF,
    ;
    sign_extend(field, 9)
}

/// The eleven-bit offset of an instruction, sign-extended.
pub(crate) fn offset11_of(instruction: u16) -> (r: u16)
    ensures
        r == offset11(instruction),
{
    let field: u16 = instruction & 0x7FF;
    assert(field == instruction % 2048) by (bit_vector)
        requires
            field == instruction & 0x7FF,
    ;
    sign_extend(field, 11)
}

} // verus!
