//! Laws of the instruction set, proved of the functions that the handlers'
//! contracts are stated in.

use vstd::prelude::*;
use crate::console::{InputRequest, Signal};
use crate::instructions::add::add_result;
use crate::instructions::branch::{branch_taken, br_result};
use crate::instructions::jump_register::jsr_result;
use crate::instructions::ldi::{indirect_target, ldi_result};
use crate::instructions::load::ld_result;
use crate::instructions::load_effective::pc_relative;
use crate::instructions::load_register::{base_relative, ldr_result};
use crate::instructions::not::{complement, not_result};
use crate::instructions::opcodes::Opcode;
use crate::instructions::store::st_memory;
use crate::instructions::store_indirect::sti_memory;
use crate::instructions::store_register::str_memory;
use crate::instructions::trap::reads_char;
use crate::instructions::{
    base, destination, flag_of, immediate_mode, imm5, long_mode, low_bits, second_source,
    sign_extended, signed_value, two_to, wrapped_sum,
};
use crate::machine::{executed, requested, stepped, Machine};
use crate::memory::{polled, KEY_READY};
use crate::registers::register::{COND_SLOT, KBDR, KBSR, PC_SLOT, R7_SLOT, REGISTER_COUNT};
use crate::registers::{FL_NEG, FL_POS, FL_ZRO};
use crate::MEMORY_MAX;

verus! {

/// Every address that an instruction reads or writes is a cell of memory:
/// the PC-relative address, the base-relative address and the target of an
/// indirect access all lie between 0 and 65,535.
pub proof fn lemma_addresses_in_range(
    registers: Seq<u16>,
    memory: Seq<u16>,
    instruction: u16,
    key: Option<u8>,
)
    ensures
        0 <= pc_relative(registers, instruction) < MEMORY_MAX,
        0 <= base_relative(registers, instruction) < MEMORY_MAX,
        0 <= indirect_target(registers, memory, instruction, key) < MEMORY_MAX,
{
}

/// The address of a PC-relative access is the program counter plus an
/// offset between -256 and 255, and that of a base-relative access is the
/// base register plus an offset between -32 and 31, both taken modulo
/// 65,536.
pub proof fn lemma_addresses_add_signed_offsets(registers: Seq<u16>, instruction: u16)
    ensures
        -256 <= signed_value(low_bits(instruction, 9) as int, 9) <= 255,
        pc_relative(registers, instruction) == (registers[PC_SLOT as int] + signed_value(
            low_bits(instruction, 9) as int,
            9,
        )) % 65536,
        -32 <= signed_value(low_bits(instruction, 6) as int, 6) <= 31,
        base_relative(registers, instruction) == (registers[base(instruction)] + signed_value(
            low_bits(instruction, 6) as int,
            6,
        )) % 65536,
{
}

/// No instruction changes the size of the register file or of memory.
pub proof fn lemma_execution_keeps_shape(
    machine: Machine,
    instruction: u16,
    opcode: Opcode,
    input: Option<u8>,
)
    requires
        machine.well_formed(),
    ensures
        executed(machine, instruction, opcode, input).machine.well_formed(),
{
}

/// A step leaves a machine state of the same size.
pub proof fn lemma_step_keeps_shape(machine: Machine, input: Option<u8>)
    requires
        machine.well_formed(),
    ensures
        stepped(machine, input).machine.well_formed(),
{
}

/// Only `BR`, `JMP` and `JSR` move the program counter: after the fetch has
/// stepped it, every other instruction leaves it where it is.
pub proof fn lemma_only_jumps_move_pc(
    machine: Machine,
    instruction: u16,
    opcode: Opcode,
    input: Option<u8>,
)
    requires
        machine.well_formed(),
        opcode != Opcode::Br,
        opcode != Opcode::Jmp,
        opcode != Opcode::Jsr,
    ensures
        executed(machine, instruction, opcode, input).machine.registers[PC_SLOT as int]
            == machine.registers[PC_SLOT as int],
{
}

/// Only the stores and the loads change memory, and a load does so only by
/// the probe of the keyboard that a read of the status register makes.
pub proof fn lemma_only_stores_and_probes_change_memory(
    machine: Machine,
    instruction: u16,
    opcode: Opcode,
    input: Option<u8>,
)
    requires
        machine.well_formed(),
        opcode != Opcode::St,
        opcode != Opcode::Sti,
        opcode != Opcode::Str,
    ensures
        ({
            let after = executed(machine, instruction, opcode, input).machine.memory;
            after == machine.memory || after == polled(machine.memory, input)
        }),
        opcode != Opcode::Ld && opcode != Opcode::Ldi && opcode != Opcode::Ldr ==> executed(
            machine,
            instruction,
            opcode,
            input,
        ).machine.memory == machine.memory,
{
}

/// After `ADD`, `AND`, `NOT`, `LD`, `LDI`, `LDR` or `LEA` the condition
/// register holds exactly one of the three flags, and it is the one that
/// describes the value now in the destination register: `Z` for zero, `N`
/// where bit 15 is set, `P` otherwise.
pub proof fn lemma_flags_describe_result(
    machine: Machine,
    instruction: u16,
    opcode: Opcode,
    input: Option<u8>,
)
    requires
        machine.well_formed(),
        opcode.sets_flags(),
    ensures
        ({
            let after = executed(machine, instruction, opcode, input).machine.registers;
            let value = after[destination(instruction)];
            let cond = after[COND_SLOT as int];
            &&& cond == flag_of(value)
            &&& cond == FL_POS || cond == FL_ZRO || cond == FL_NEG
            &&& cond == FL_ZRO <==> value == 0
            &&& cond == FL_NEG <==> value >= 0x8000
            &&& cond == FL_POS <==> 0 < value < 0x8000
        }),
{
}

/// Whether a trap is given a byte to read that the condition register does
/// not describe yet.
pub open spec fn byte_changes_flags(
    registers: Seq<u16>,
    instruction: u16,
    input: Option<u8>,
) -> bool {
    match input {
        Some(byte) => reads_char(instruction) && flag_of(byte as u16) != registers[COND_SLOT as int],
        None => false,
    }
}

/// An instruction outside the flag-setting seven leaves the condition
/// register as it was. The traps that read a byte are the exception: given
/// a byte, they set the flags from it, so they keep the condition register
/// only where it already described that byte.
pub proof fn lemma_other_instructions_keep_flags(
    machine: Machine,
    instruction: u16,
    opcode: Opcode,
    input: Option<u8>,
)
    requires
        machine.well_formed(),
        !opcode.sets_flags(),
    ensures
        executed(machine, instruction, opcode, input).machine.registers[COND_SLOT as int]
            == machine.registers[COND_SLOT as int] <==> !(opcode == Opcode::Trap
            && byte_changes_flags(machine.registers, instruction, input)),
{
}

/// The two's complement of a word: its complement plus one.
pub open spec fn negation(value: u16) -> u16 {
    wrapped_sum(complement(value), 1)
}

/// Adding a word and then its negation gives the first value back.
pub proof fn lemma_sum_round_trip(a: u16, b: u16)
    ensures
        wrapped_sum(wrapped_sum(a, b), negation(b)) == a,
{
}

/// `(a + b) - b == a` with `ADD`. Four instructions: `sum` adds two
/// registers; `invert` complements the second of them into a scratch
/// register; `increment` adds one to the scratch register; `subtract` adds
/// the scratch register to the sum. The destination of `subtract` then
/// holds what the first source of `sum` held at the start.
pub proof fn lemma_add_round_trip(
    registers: Seq<u16>,
    sum: u16,
    invert: u16,
    increment: u16,
    subtract: u16,
)
    requires
        registers.len() == REGISTER_COUNT,
        !immediate_mode(sum),
        second_source(sum) != destination(sum),
        base(invert) == second_source(sum),
        destination(invert) != destination(sum),
        immediate_mode(increment),
        imm5(increment) == 1,
        base(increment) == destination(invert),
        destination(increment) == destination(invert),
        !immediate_mode(subtract),
        base(subtract) == destination(sum),
        second_source(subtract) == destination(invert),
    ensures
        add_result(
            add_result(not_result(add_result(registers, sum), invert), increment),
            subtract,
        )[destination(subtract)] == registers[base(sum)],
{
    let a = registers[base(sum)];
    let b = registers[second_source(sum)];
    let summed = add_result(registers, sum);
    assert(summed[destination(sum)] == wrapped_sum(a, b));
    assert(summed[second_source(sum)] == b);
    let inverted = not_result(summed, invert);
    assert(inverted[destination(invert)] == complement(b));
    assert(inverted[destination(sum)] == wrapped_sum(a, b));
    let incremented = add_result(inverted, increment);
    assert(incremented[destination(invert)] == negation(b));
    assert(incremented[destination(sum)] == wrapped_sum(a, b));
    let subtracted = add_result(incremented, subtract);
    assert(subtracted[destination(subtract)] == wrapped_sum(wrapped_sum(a, b), negation(b)));
    lemma_sum_round_trip(a, b);
}

/// `NOT(NOT(x)) == x`: a second `NOT` that reads what the first one wrote
/// writes the value that the first one read.
pub proof fn lemma_not_round_trip(registers: Seq<u16>, first: u16, second: u16)
    requires
        registers.len() == REGISTER_COUNT,
        base(second) == destination(first),
    ensures
        not_result(not_result(registers, first), second)[destination(second)]
            == registers[base(first)],
{
}

/// What a read of the keyboard status register returns after a probe that
/// found `key`.
pub open spec fn status_after(key: Option<u8>) -> u16 {
    if key is Some {
        KEY_READY
    } else {
        0
    }
}

/// After `ST`, an `LD` with the same offset loads the value that was
/// stored, for every nine-bit offset. The one exception is the keyboard
/// status register: a load from it returns the state of the keyboard, which
/// is the stored value only by coincidence.
pub proof fn lemma_st_ld_round_trip(
    registers: Seq<u16>,
    memory: Seq<u16>,
    store: u16,
    load: u16,
    key: Option<u8>,
)
    requires
        registers.len() == REGISTER_COUNT,
        memory.len() == MEMORY_MAX,
        pc_relative(registers, store) == pc_relative(registers, load),
    ensures
        ld_result(registers, st_memory(registers, memory, store), load, key)[destination(load)]
            == registers[destination(store)] <==> (pc_relative(registers, store) != KBSR
            || registers[destination(store)] == status_after(key)),
{
}

/// Whether an `LDI` through the pointer cell `pointer` gets back the
/// `value` that an `STI` through the same cell stored. It does where the
/// pointer cell and its target are two plain cells. At the keyboard status
/// register and for a pointer that points to its own cell it does so only
/// by coincidence:
/// - the pointer cell is the status register: both probes must find the
///   same, or the cell that the second one names must hold the value
///   already;
/// - the target is the status register: the value must be what the probe
///   of the load leaves there;
/// - the pointer points to its own cell: the store replaces the pointer by
///   the value, which must then name a plain cell that holds its own
///   address.
pub open spec fn pointer_round_trips(
    memory: Seq<u16>,
    pointer: u16,
    value: u16,
    store_key: Option<u8>,
    load_key: Option<u8>,
) -> bool {
    let target = memory[pointer as int];
    if pointer == KBSR {
        status_after(load_key) == status_after(store_key) || memory[status_after(load_key) as int]
            == value
    } else if target != pointer {
        target != KBSR || value == status_after(load_key)
    } else {
        value != KBSR && (value == pointer || memory[value as int] == value)
    }
}

/// After `STI`, an `LDI` through the same pointer cell loads the value
/// that was stored, for every nine-bit offset, exactly where
/// `pointer_round_trips` holds.
pub proof fn lemma_sti_ldi_round_trip(
    registers: Seq<u16>,
    memory: Seq<u16>,
    store: u16,
    load: u16,
    store_key: Option<u8>,
    load_key: Option<u8>,
)
    requires
        registers.len() == REGISTER_COUNT,
        memory.len() == MEMORY_MAX,
        pc_relative(registers, store) == pc_relative(registers, load),
    ensures
        ldi_result(
            registers,
            sti_memory(registers, memory, store, store_key),
            load,
            load_key,
        )[destination(load)] == registers[destination(store)] <==> pointer_round_trips(
            memory,
            pc_relative(registers, store),
            registers[destination(store)],
            store_key,
            load_key,
        ),
{
}

/// After `STR`, an `LDR` with the same base register and offset loads the
/// value that was stored, for every six-bit offset. The one exception is
/// the keyboard status register, as for `ST` and `LD`.
pub proof fn lemma_str_ldr_round_trip(
    registers: Seq<u16>,
    memory: Seq<u16>,
    store: u16,
    load: u16,
    key: Option<u8>,
)
    requires
        registers.len() == REGISTER_COUNT,
        memory.len() == MEMORY_MAX,
        base_relative(registers, store) == base_relative(registers, load),
    ensures
        ldr_result(registers, str_memory(registers, memory, store), load, key)[destination(
            load,
        )] == registers[destination(store)] <==> (base_relative(registers, store) != KBSR
            || registers[destination(store)] == status_after(key)),
{
}

/// Sign extension reads the top bit of a field as its sign: the sixteen-bit
/// word stands for the same integer as the field did.
pub proof fn lemma_sign_extension_keeps_value(field: u16, bit_count: u16)
    requires
        1 <= bit_count <= 16,
        field < two_to(bit_count as int),
    ensures
        0 <= sign_extended(field, bit_count) < 65536,
        signed_value(sign_extended(field, bit_count), 16) == signed_value(
            field as int,
            bit_count as int,
        ),
        -two_to(bit_count - 1) <= signed_value(field as int, bit_count as int) < two_to(
            bit_count - 1,
        ),
{
}

/// `BR` with an empty mask never branches.
pub proof fn lemma_br_never(registers: Seq<u16>, instruction: u16)
    requires
        destination(instruction) == 0,
    ensures
        !branch_taken(registers, instruction),
        br_result(registers, instruction) == registers,
{
    let cond = registers[COND_SLOT as int];
    assert(0u16 & cond == 0) by (bit_vector);
}

/// `BR` with the full mask branches exactly where the condition register
/// holds a flag at all, and so after every instruction that sets flags.
pub proof fn lemma_br_always(registers: Seq<u16>, instruction: u16)
    requires
        registers.len() == REGISTER_COUNT,
        destination(instruction) == 7,
    ensures
        branch_taken(registers, instruction) <==> registers[COND_SLOT as int] % 8 != 0,
        registers[COND_SLOT as int] % 8 != 0 ==> br_result(registers, instruction)[PC_SLOT as int]
            == pc_relative(registers, instruction),
        registers[COND_SLOT as int] == FL_POS || registers[COND_SLOT as int] == FL_ZRO
            || registers[COND_SLOT as int] == FL_NEG ==> branch_taken(registers, instruction),
{
    let cond = registers[COND_SLOT as int];
    assert((cond % 8 != 0) == (7u16 & cond != 0)) by (bit_vector);
}

/// `JSRR R7` jumps to the old program counter: `R7` is written before the
/// target is read from it.
pub proof fn lemma_jsrr_r7(registers: Seq<u16>, instruction: u16)
    requires
        registers.len() == REGISTER_COUNT,
        !long_mode(instruction),
        base(instruction) == R7_SLOT,
    ensures
        jsr_result(registers, instruction)[PC_SLOT as int] == registers[PC_SLOT as int],
        jsr_result(registers, instruction)[R7_SLOT as int] == registers[PC_SLOT as int],
{
}

/// `LDI` reads the keyboard status register at most once: where the
/// pointer sits in the status register, what is read there is zero or
/// 0x8000 and names a plain cell. One probe serves a whole step.
pub proof fn lemma_ldi_probes_once(
    registers: Seq<u16>,
    memory: Seq<u16>,
    instruction: u16,
    key: Option<u8>,
)
    requires
        memory.len() == MEMORY_MAX,
    ensures
        pc_relative(registers, instruction) == KBSR ==> indirect_target(
            registers,
            memory,
            instruction,
            key,
        ) == status_after(key),
        !(pc_relative(registers, instruction) == KBSR && indirect_target(
            registers,
            memory,
            instruction,
            key,
        ) == KBSR),
{
}

/// A step that asks for a probe of the keyboard records what the probe
/// found: the status register is zero after no key, and after a key it has
/// its high bit set and the data register holds the byte.
pub proof fn lemma_requested_probe_is_recorded(machine: Machine, byte: u8)
    requires
        machine.well_formed(),
        requested(machine) == InputRequest::KeyboardPoll,
    ensures
        stepped(machine, None).machine.memory[KBSR as int] == 0,
        stepped(machine, Some(byte)).machine.memory[KBSR as int] == KEY_READY,
        stepped(machine, Some(byte)).machine.memory[KBDR as int] == byte,
{
}

/// A step that asks for a byte puts the byte it is given in `R0` and goes
/// on; given none, it fails.
pub proof fn lemma_requested_char_is_stored(machine: Machine, byte: u8)
    requires
        machine.well_formed(),
        requested(machine) == InputRequest::Char || requested(machine)
            == InputRequest::PromptedChar,
    ensures
        stepped(machine, Some(byte)).machine.registers[0] == byte,
        stepped(machine, Some(byte)).signal == Signal::Continue,
        stepped(machine, None).signal == Signal::Fault,
        stepped(machine, Some(byte)).output == (if requested(machine)
            == InputRequest::PromptedChar {
            seq![byte]
        } else {
            Seq::<u8>::empty()
        }),
{
}

/// A step that asks for nothing from the keyboard does not depend on its
/// input.
pub proof fn lemma_unrequested_input_is_ignored(
    machine: Machine,
    first: Option<u8>,
    second: Option<u8>,
)
    requires
        machine.well_formed(),
        requested(machine) == InputRequest::Nothing,
    ensures
        stepped(machine, first) == stepped(machine, second),
{
}

} // verus!
