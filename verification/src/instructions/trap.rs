use vstd::prelude::*;
use crate::console::{Effect, Signal};
use crate::instructions::with_result;
use crate::registers::register::{COND_SLOT, PC_SLOT, R7_SLOT, REGISTER_COUNT};
use crate::registers::ConditionFlag;
use crate::MEMORY_MAX;

verus! {

/// Reads one byte from the keyboard into `R0`, without echo.
pub const TRAP_GETC: u16 = 0x20;

/// Prints the low byte of `R0`.
pub const TRAP_OUT: u16 = 0x21;

/// Prints a string of one character per word.
pub const TRAP_PUTS: u16 = 0x22;

/// Prompts, reads one byte from the keyboard into `R0` and echoes it.
pub const TRAP_IN: u16 = 0x23;

/// Prints a string of two characters per word.
pub const TRAP_PUTSP: u16 = 0x24;

/// Stops the machine.
pub const TRAP_HALT: u16 = 0x25;

/// Bits `[7:0]` of an instruction: the trap vector.
pub open spec fn trap_vector(instruction: u16) -> u16 {
    (instruction as int % 256) as u16
}

/// Whether the trap reads a byte from the keyboard.
pub open spec fn reads_char(instruction: u16) -> bool {
    trap_vector(instruction) == TRAP_GETC || trap_vector(instruction) == TRAP_IN
}

/// The low byte of a word.
pub open spec fn low_byte(word: u16) -> u8 {
    (word as int % 256) as u8
}

/// The high byte of a word.
pub open spec fn high_byte(word: u16) -> u8 {
    (word as int / 256) as u8
}

/// The number of non-zero words in memory from `start` on, before the first
/// zero word, looking at no more than `limit` cells and wrapping from the
/// last address to the first.
pub open spec fn string_length(memory: Seq<u16>, start: int, limit: nat) -> nat
    decreases limit,
{
    if limit == 0 || memory[start % (MEMORY_MAX as int)] == 0 {
        0
    } else {
        1 + string_length(memory, start + 1, (limit - 1) as nat)
    }
}

/// The word in the cell `i` places behind `start`, wrapping from the last
/// address to the first.
pub open spec fn cell_at(memory: Seq<u16>, start: int, i: int) -> u16 {
    memory[(start + i) % (MEMORY_MAX as int)]
}

/// The `count` words in memory from `start` on, wrapping from the last
/// address to the first.
pub open spec fn words_from(memory: Seq<u16>, start: int, count: nat) -> Seq<u16> {
    Seq::new(count, |i: int| cell_at(memory, start, i))
}

/// The string in memory at `start`: the words up to the first zero word,
/// or all of memory where no cell is zero.
pub open spec fn string_words(memory: Seq<u16>, start: u16) -> Seq<u16> {
    words_from(memory, start as int, string_length(memory, start as int, MEMORY_MAX as nat))
}

/// What `PUTS` prints for a string: the low byte of each word.
pub open spec fn plain_bytes(words: Seq<u16>) -> Seq<u8> {
    Seq::new(words.len(), |i: int| low_byte(words[i]))
}

/// What `PUTSP` prints for one word: its low byte, then its high byte unless
/// that is zero.
pub open spec fn word_bytes(word: u16) -> Seq<u8> {
    if high_byte(word) == 0 {
        seq![low_byte(word)]
    } else {
        seq![low_byte(word), high_byte(word)]
    }
}

/// What `PUTSP` prints for a string: the bytes of each word in turn.
pub open spec fn packed_bytes(words: Seq<u16>) -> Seq<u8>
    decreases words.len(),
{
    if words.len() == 0 {
        Seq::<u8>::empty()
    } else {
        packed_bytes(words.drop_last()) + word_bytes(words.last())
    }
}

/// The notice that `HALT` prints: the word `HALT` and a line feed.
pub open spec fn halt_notice() -> Seq<u8> {
    seq![72u8, 65u8, 76u8, 84u8, 10u8]
}

/// The register file after `TRAP`. `R7` takes the program counter. A trap
/// that reads a byte and is given one puts it in `R0` and sets the flags
/// from it.
pub open spec fn trap_registers(
    registers: Seq<u16>,
    instruction: u16,
    input: Option<u8>,
) -> Seq<u16> {
    let linked = registers.update(R7_SLOT as int, registers[PC_SLOT as int]);
    match input {
        Some(byte) if reads_char(instruction) => with_result(linked, 0, byte as u16),
        _ => linked,
    }
}

/// The bytes that `TRAP` prints.
pub open spec fn trap_output(
    registers: Seq<u16>,
    memory: Seq<u16>,
    instruction: u16,
    input: Option<u8>,
) -> Seq<u8> {
    let vector = trap_vector(instruction);
    if vector == TRAP_OUT {
        seq![low_byte(registers[0])]
    } else if vector == TRAP_PUTS {
        plain_bytes(string_words(memory, registers[0]))
    } else if vector == TRAP_IN {
        match input {
            Some(byte) => seq![byte],
            None => Seq::<u8>::empty(),
        }
    } else if vector == TRAP_PUTSP {
        packed_bytes(string_words(memory, registers[0]))
    } else if vector == TRAP_HALT {
        halt_notice()
    } else {
        Seq::<u8>::empty()
    }
}

/// Whether the machine goes on after `TRAP`: `HALT` stops it, a trap that
/// reads a byte and is given none fails, every other trap goes on.
pub open spec fn trap_signal(instruction: u16, input: Option<u8>) -> Signal {
    if trap_vector(instruction) == TRAP_HALT {
        Signal::Halt
    } else if reads_char(instruction) && input is None {
        Signal::Fault
    } else {
        Signal::Continue
    }
}

/// Bits `[7:0]` of an instruction.
pub(crate) fn vector_of(instruction: u16) -> (r: u16)
    ensures
        r == trap_vector(instruction),
{
    let r: u16 = instruction & 0xFF;
    assert(r == instruction % 256) by (bit_vector)
        requires
            r == instruction & 0xFF,
    ;
    r
}

/// The low byte of a word.
fn low_byte_of(word: u16) -> (r: u8)
    ensures
        r == low_byte(word),
{
    let low: u16 = word & 0xFF;
    assert(low == word % 256 && low < 256) by (bit_vector)
        requires
            low == word & 0xFF,
    ;
    low as u8
}

/// The high byte of a word.
fn high_byte_of(word: u16) -> (r: u8)
    ensures
        r == high_byte(word),
{
    let high: u16 = word >> 8;
    assert(high == word / 256 && high < 256) by (bit_vector)
        requires
            high == word >> 8,
    ;
    high as u8
}

/// The length of a string is the number of cells skipped plus the length
/// of the string that starts behind them, as long as the cells skipped are
/// not zero.
proof fn lemma_string_length_split(memory: Seq<u16>, start: int, limit: nat, count: nat)
    requires
        count <= limit,
        forall|i: int| 0 <= i < count ==> #[trigger] cell_at(memory, start, i) != 0,
    ensures
        string_length(memory, start, limit) == count + string_length(
            memory,
            start + count,
            (limit - count) as nat,
        ),
    decreases count,
{
    if count > 0 {
        assert(cell_at(memory, start, 0) != 0);
        assert forall|i: int| 0 <= i < count - 1 implies #[trigger] cell_at(
            memory,
            start + 1,
            i,
        ) != 0 by {
            assert(cell_at(memory, start, i + 1) != 0);
        }
        lemma_string_length_split(memory, start + 1, (limit - 1) as nat, (count - 1) as nat);
    }
}

/// A string is known by its end: where the first `count` cells from `start`
/// on are not zero and the next one is, or `count` cells are all of memory,
/// the string at `start` is these `count` words.
pub proof fn lemma_string_ends(memory: Seq<u16>, start: u16, count: nat)
    requires
        count <= MEMORY_MAX,
        forall|i: int| 0 <= i < count ==> #[trigger] cell_at(memory, start as int, i) != 0,
        count == MEMORY_MAX || cell_at(memory, start as int, count as int) == 0,
    ensures
        string_words(memory, start) == words_from(memory, start as int, count),
{
    lemma_string_length_split(memory, start as int, MEMORY_MAX as nat, count);
}

/// The words of the string in memory at `start`, in order.
fn read_string(memory: &[u16; MEMORY_MAX], start: u16) -> (words: Vec<u16>)
    ensures
        words@ == string_words(memory@, start),
{
    let mut words: Vec<u16> = Vec::new();
    let mut address: u16 = start;
    while words.len() < MEMORY_MAX && memory[address as usize] != 0
        invariant
            words@.len() <= MEMORY_MAX,
            address == (start + words@.len()) % (MEMORY_MAX as int),
            words@ == words_from(memory@, start as int, words@.len()),
            forall|i: int|
                0 <= i < words@.len() ==> #[trigger] cell_at(memory@, start as int, i) != 0,
        decreases MEMORY_MAX - words@.len(),
    {
        words.push(memory[address as usize]);
        address = address.wrapping_add(1);
    }
    proof {
        lemma_string_length_split(memory@, start as int, MEMORY_MAX as nat, words@.len());
    }
    words
}

/// The bytes that `PUTS` prints for a string.
fn plain_string(words: &Vec<u16>) -> (bytes: Vec<u8>)
    ensures
        bytes@ == plain_bytes(words@),
{
    let mut bytes: Vec<u8> = Vec::new();
    let mut i: usize = 0;
    while i < words.len()
        invariant
            i <= words@.len(),
            bytes@ == plain_bytes(words@.take(i as int)),
        decreases words@.len() - i,
    {
        bytes.push(low_byte_of(words[i]));
        i += 1;
    }
    bytes
}

/// The bytes that `PUTSP` prints for a string.
fn packed_string(words: &Vec<u16>) -> (bytes: Vec<u8>)
    ensures
        bytes@ == packed_bytes(words@),
{
    let mut bytes: Vec<u8> = Vec::new();
    let mut i: usize = 0;
    while i < words.len()
        invariant
            i <= words@.len(),
            bytes@ == packed_bytes(words@.take(i as int)),
        decreases words@.len() - i,
    {
        let word: u16 = words[i];
        bytes.push(low_byte_of(word));
        let high: u8 = high_byte_of(word);
        if high != 0 {
            bytes.push(high);
        }
        i += 1;
        assert(words@.take(i as int).drop_last() =~= words@.take(i - 1));
    }
    assert(words@.take(i as int) =~= words@);
    bytes
}

/// The bytes of the notice that `HALT` prints.
fn halt_bytes() -> (bytes: Vec<u8>)
    ensures
        bytes@ == halt_notice(),
{
    let mut bytes: Vec<u8> = Vec::new();
    bytes.push(72);
    bytes.push(65);
    bytes.push(76);
    bytes.push(84);
    bytes.push(10);
    bytes
}

/// `TRAP`: saves the program counter in `R7`, then serves the vector in
/// bits `[7:0]`. `input` is the byte that the keyboard gave for a trap that
/// reads one, or `None` where it gave none; the other traps do not look at
/// it. The bytes to print come back in the effect. A vector that names no
/// service only saves the program counter.
pub fn trap(
    registers: &mut [u16; REGISTER_COUNT],
    memory: &[u16; MEMORY_MAX],
    instruction: u16,
    input: Option<u8>,
) -> (effect: Effect)
    ensures
        final(registers)@ == trap_registers(old(registers)@, instruction, input),
        effect.output@ == trap_output(old(registers)@, memory@, instruction, input),
        effect.signal == trap_signal(instruction, input),
{
    registers[R7_SLOT] = registers[PC_SLOT];

    let vector: u16 = vector_of(instruction);
    if vector == TRAP_GETC || vector == TRAP_IN {
        match input {
            Some(byte) => {
                registers[0] = byte as u16;
                registers[COND_SLOT] = ConditionFlag::of(byte as u16).bits();
                let mut output: Vec<u8> = Vec::new();
                if vector == TRAP_IN {
                    output.push(byte);
                }
                Effect { signal: Signal::Continue, output }
            },
            None => Effect { signal: Signal::Fault, output: Vec::new() },
        }
    } else if vector == TRAP_OUT {
        let mut output: Vec<u8> = Vec::new();
        output.push(low_byte_of(registers[0]));
        Effect { signal: Signal::Continue, output }
    } else if vector == TRAP_PUTS {
        let words: Vec<u16> = read_string(memory, registers[0]);
        Effect { signal: Signal::Continue, output: plain_string(&words) }
    } else if vector == TRAP_PUTSP {
        let words: Vec<u16> = read_string(memory, registers[0]);
        Effect { signal: Signal::Continue, output: packed_string(&words) }
    } else if vector == TRAP_HALT {
        Effect { signal: Signal::Halt, output: halt_bytes() }
    } else {
        Effect { signal: Signal::Continue, output: Vec::new() }
    }
}

} // verus!
