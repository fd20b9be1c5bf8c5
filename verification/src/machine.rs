//! The machine state: memory and register file under one owner.

use vstd::prelude::*;
use crate::console::{Effect, InputRequest, Signal};
use crate::instructions::add::add_result;
use crate::instructions::and::{and, and_result};
use crate::instructions::branch::{br, br_result};
use crate::instructions::jump::{jmp, jmp_result};
use crate::instructions::jump_register::{jsr, jsr_result};
use crate::instructions::ldi::{ldi, ldi_memory, ldi_result};
use crate::instructions::load::{ld, ld_result};
use crate::instructions::load_effective::{lea, lea_result, pc_relative};
use crate::instructions::load_register::{base_relative, ldr, ldr_result};
use crate::instructions::not::{not, not_result};
use crate::instructions::opcodes::Opcode;
use crate::instructions::store::{st, st_memory};
use crate::instructions::store_indirect::{sti, sti_memory};
use crate::instructions::store_register::{str, str_memory};
use crate::instructions::trap::{
    trap, trap_output, trap_registers, trap_signal, trap_vector, vector_of, TRAP_GETC, TRAP_IN,
};
use crate::instructions::{base_of, offset6_of, offset9_of, wrapped_sum, wrapping_sum};
use crate::image::{
    image_origin, image_words, load_error, placed, read_be_u16, word_count, LoadError,
};
use crate::memory::{after_read, mem_read, read_value};
use crate::registers::register::{Register, COND_SLOT, KBSR, PC_SLOT, REGISTER_COUNT};
use crate::registers::FL_ZRO;
use crate::{MEMORY_MAX, PC_START};

verus! {

/// The state of the machine as contracts see it.
pub struct Machine {
    /// The ten words of the register file.
    pub registers: Seq<u16>,
    /// The 65,536 words of memory.
    pub memory: Seq<u16>,
}

impl Machine {
    /// A machine state has ten registers and 65,536 memory cells.
    pub open spec fn well_formed(self) -> bool {
        self.registers.len() == REGISTER_COUNT && self.memory.len() == MEMORY_MAX
    }
}

/// What one step of the machine comes to: the new state, the bytes to
/// print and whether the machine goes on.
pub struct Outcome {
    /// The state after the step.
    pub machine: Machine,
    /// The bytes that the step prints.
    pub output: Seq<u8>,
    /// Whether the machine goes on.
    pub signal: Signal,
}

/// The outcome of an instruction that prints nothing and lets the machine
/// go on.
pub open spec fn quiet(registers: Seq<u16>, memory: Seq<u16>) -> Outcome {
    Outcome {
        machine: Machine { registers, memory },
        output: Seq::<u8>::empty(),
        signal: Signal::Continue,
    }
}

/// The outcome of executing `instruction` as the operation `opcode`, on a
/// machine whose program counter already points behind the instruction.
pub open spec fn executed(
    machine: Machine,
    instruction: u16,
    opcode: Opcode,
    input: Option<u8>,
) -> Outcome {
    let registers = machine.registers;
    let memory = machine.memory;
    match opcode {
        Opcode::Br => quiet(br_result(registers, instruction), memory),
        Opcode::Add => quiet(add_result(registers, instruction), memory),
        Opcode::Ld => quiet(
            ld_result(registers, memory, instruction, input),
            after_read(memory, pc_relative(registers, instruction), input),
        ),
        Opcode::St => quiet(registers, st_memory(registers, memory, instruction)),
        Opcode::Jsr => quiet(jsr_result(registers, instruction), memory),
        Opcode::And => quiet(and_result(registers, instruction), memory),
        Opcode::Ldr => quiet(
            ldr_result(registers, memory, instruction, input),
            after_read(memory, base_relative(registers, instruction), input),
        ),
        Opcode::Str => quiet(registers, str_memory(registers, memory, instruction)),
        Opcode::Not => quiet(not_result(registers, instruction), memory),
        Opcode::Ldi => quiet(
            ldi_result(registers, memory, instruction, input),
            ldi_memory(registers, memory, instruction, input),
        ),
        Opcode::Sti => quiet(registers, sti_memory(registers, memory, instruction, input)),
        Opcode::Jmp => quiet(jmp_result(registers, instruction), memory),
        Opcode::Lea => quiet(lea_result(registers, instruction), memory),
        Opcode::Trap => Outcome {
            machine: Machine { registers: trap_registers(registers, instruction, input), memory },
            output: trap_output(registers, memory, instruction, input),
            signal: trap_signal(instruction, input),
        },
        Opcode::Rti | Opcode::Res => Outcome {
            machine,
            output: Seq::<u8>::empty(),
            signal: Signal::Halt,
        },
    }
}

/// The instruction that the machine fetches next: the word in the cell that
/// the program counter names.
pub open spec fn next_instruction(machine: Machine) -> u16 {
    machine.memory[machine.registers[PC_SLOT as int] as int]
}

/// The machine after a fetch: the program counter is one further, in the
/// sixteen-bit ring.
pub open spec fn fetched(machine: Machine) -> Machine {
    Machine {
        registers: machine.registers.update(
            PC_SLOT as int,
            wrapped_sum(machine.registers[PC_SLOT as int], 1),
        ),
        memory: machine.memory,
    }
}

/// The outcome of one step: fetch, decode, execute.
pub open spec fn stepped(machine: Machine, input: Option<u8>) -> Outcome {
    executed(
        fetched(machine),
        next_instruction(machine),
        Opcode::of_instruction(next_instruction(machine)),
        input,
    )
}

/// The request for a keyboard probe where `wanted` holds, for nothing
/// otherwise.
pub open spec fn poll_where(wanted: bool) -> InputRequest {
    if wanted {
        InputRequest::KeyboardPoll
    } else {
        InputRequest::Nothing
    }
}

/// What the next step needs from the keyboard. A load or an indirect store
/// that reads the keyboard status register needs a probe; the two traps
/// that read a byte need that byte; every other step needs nothing.
pub open spec fn requested(machine: Machine) -> InputRequest {
    let instruction = next_instruction(machine);
    let registers = fetched(machine).registers;
    let memory = machine.memory;
    match Opcode::of_instruction(instruction) {
        Opcode::Ld => poll_where(pc_relative(registers, instruction) == KBSR),
        Opcode::Ldr => poll_where(base_relative(registers, instruction) == KBSR),
        Opcode::Ldi => poll_where(
            pc_relative(registers, instruction) == KBSR || memory[pc_relative(
                registers,
                instruction,
            ) as int] == KBSR,
        ),
        Opcode::Sti => poll_where(pc_relative(registers, instruction) == KBSR),
        Opcode::Trap => if trap_vector(instruction) == TRAP_GETC {
            InputRequest::Char
        } else if trap_vector(instruction) == TRAP_IN {
            InputRequest::PromptedChar
        } else {
            InputRequest::Nothing
        },
        _ => InputRequest::Nothing,
    }
}

/// The machine: memory and register file.
pub struct Vm {
    /// One word for each of the 65,536 addresses.
    pub memory: [u16; MEMORY_MAX],
    /// One word for each register tag; see `Register`.
    pub registers: [u16; REGISTER_COUNT],
}

impl View for Vm {
    type V = Machine;

    open spec fn view(&self) -> Machine {
        Machine { registers: self.registers@, memory: self.memory@ }
    }
}

/// The register file of a machine that has not run yet: the general
/// registers are zero, the program counter is at the start address and the
/// condition register holds `Z`.
pub open spec fn initial_registers() -> Seq<u16> {
    seq![0u16, 0u16, 0u16, 0u16, 0u16, 0u16, 0u16, 0u16, PC_START, FL_ZRO]
}

/// The state of every machine is well formed: the arrays have their sizes
/// by type.
pub proof fn lemma_vm_is_well_formed(vm: &Vm)
    ensures
        vm@.well_formed(),
{
}

impl Vm {
    /// A machine with zeroed memory and the initial register file.
    pub fn new() -> (vm: Vm)
        ensures
            vm@.well_formed(),
            vm@.registers == initial_registers(),
            forall|address: int| 0 <= address < MEMORY_MAX ==> vm@.memory[address] == 0,
    {
        let mut vm = Vm { registers: [0u16; REGISTER_COUNT], memory: [0u16; MEMORY_MAX] };
        vm.registers[PC_SLOT] = PC_START;
        vm.registers[COND_SLOT] = FL_ZRO;
        vm
    }

    /// Sets one register.
    pub fn write_to_register(&mut self, register: Register, value: u16)
        ensures
            final(self)@.registers == old(self)@.registers.update(register.slot(), value),
            final(self)@.memory == old(self)@.memory,
    {
        self.registers[register.index()] = value;
    }

    /// Sets one memory cell.
    pub fn write_to_memory(&mut self, offset: u16, value: u16)
        ensures
            final(self)@.memory == old(self)@.memory.update(offset as int, value),
            final(self)@.registers == old(self)@.registers,
    {
        self.memory[offset as usize] = value;
    }

    /// Sets one memory cell. A write to a device register is stored like any
    /// other and reaches no device.
    pub fn mem_write(&mut self, address: u16, value: u16)
        ensures
            final(self)@.memory == old(self)@.memory.update(address as int, value),
            final(self)@.registers == old(self)@.registers,
    {
        self.memory[address as usize] = value;
    }

    /// Reads one word. `key` is what a probe of the keyboard found: `None`
    /// for no key, else the byte that was read. It is looked at only where
    /// `address` is the keyboard status register.
    pub fn mem_read(&mut self, address: u16, key: Option<u8>) -> (value: u16)
        ensures
            final(self)@.memory == after_read(old(self)@.memory, address, key),
            final(self)@.registers == old(self)@.registers,
            value == read_value(old(self)@.memory, address, key),
    {
        mem_read(&mut self.memory, address, key)
    }

    /// Reads the instruction at the program counter and moves the program
    /// counter one further.
    pub fn fetch(&mut self) -> (instruction: u16)
        ensures
            instruction == next_instruction(old(self)@),
            final(self)@ == fetched(old(self)@),
    {
        let address_of_instruction: u16 = self.registers[PC_SLOT];
        let instruction: u16 = self.memory[address_of_instruction as usize];
        self.registers[PC_SLOT] = wrapping_sum(address_of_instruction, 1);
        instruction
    }

    /// The operation of an instruction.
    pub fn decode(instruction: u16) -> (opcode: Opcode)
        ensures
            opcode == Opcode::of_instruction(instruction),
    {
        let number: u16 = instruction >> 12;
        assert(number == instruction / 4096 && number < 16) by (bit_vector)
            requires
                number == instruction >> 12,
        ;
        match Opcode::get(number) {
            Some(opcode) => opcode,
            None => vstd::pervasive::unreached(),
        }
    }

    /// Executes one instruction whose operation is `opcode`. `input` is what
    /// the keyboard gave for this step; see `input_request`. An instruction
    /// that needs no input does not look at it.
    pub fn execute(&mut self, instruction: u16, opcode: Opcode, input: Option<u8>) -> (effect:
        Effect)
        ensures
            final(self)@ == executed(old(self)@, instruction, opcode, input).machine,
            effect.output@ == executed(old(self)@, instruction, opcode, input).output,
            effect.signal == executed(old(self)@, instruction, opcode, input).signal,
    {
        match opcode {
            Opcode::Br => br(&mut self.registers, instruction),
            Opcode::Add => crate::instructions::add::add(&mut self.registers, instruction),
            Opcode::Ld => ld(&mut self.registers, &mut self.memory, instruction, input),
            Opcode::St => st(&mut self.registers, &mut self.memory, instruction),
            Opcode::Jsr => jsr(&mut self.registers, instruction),
            Opcode::And => and(&mut self.registers, instruction),
            Opcode::Ldr => ldr(&mut self.registers, &mut self.memory, instruction, input),
            Opcode::Str => str(&mut self.registers, &mut self.memory, instruction),
            Opcode::Not => not(&mut self.registers, instruction),
            Opcode::Ldi => ldi(&mut self.registers, &mut self.memory, instruction, input),
            Opcode::Sti => sti(self, instruction, input),
            Opcode::Jmp => jmp(&mut self.registers, instruction),
            Opcode::Lea => lea(&mut self.registers, instruction),
            Opcode::Trap => {
                return trap(&mut self.registers, &self.memory, instruction, input);
            },
            Opcode::Res | Opcode::Rti => {
                return Effect { signal: Signal::Halt, output: Vec::new() };
            },
        }

        Effect { signal: Signal::Continue, output: Vec::new() }
    }

    /// One step of the machine: fetches the instruction at the program
    /// counter, decodes it and executes it.
    pub fn fetch_decode_execute(&mut self, input: Option<u8>) -> (effect: Effect)
        ensures
            final(self)@ == stepped(old(self)@, input).machine,
            effect.output@ == stepped(old(self)@, input).output,
            effect.signal == stepped(old(self)@, input).signal,
    {
        let instruction: u16 = self.fetch();
        let opcode: Opcode = Self::decode(instruction);
        self.execute(instruction, opcode, input)
    }

    /// What the next step needs from the keyboard. The caller gets it and
    /// hands it to `fetch_decode_execute`.
    pub fn input_request(&self) -> (request: InputRequest)
        ensures
            request == requested(self@),
    {
        let pc: u16 = self.registers[PC_SLOT];
        let instruction: u16 = self.memory[pc as usize];
        let next_pc: u16 = wrapping_sum(pc, 1);
        match Self::decode(instruction) {
            Opcode::Ld | Opcode::Sti => {
                let pointer: u16 = wrapping_sum(next_pc, offset9_of(instruction));
                if pointer == KBSR {
                    InputRequest::KeyboardPoll
                } else {
                    InputRequest::Nothing
                }
            },
            Opcode::Ldi => {
                let pointer: u16 = wrapping_sum(next_pc, offset9_of(instruction));
                if pointer == KBSR || self.memory[pointer as usize] == KBSR {
                    InputRequest::KeyboardPoll
                } else {
                    InputRequest::Nothing
                }
            },
            Opcode::Ldr => {
                let base_register: u16 = base_of(instruction);
                let address: u16 = wrapping_sum(
                    self.registers[base_register as usize],
                    offset6_of(instruction),
                );
                if address == KBSR {
                    InputRequest::KeyboardPoll
                } else {
                    InputRequest::Nothing
                }
            },
            Opcode::Trap => {
                let vector: u16 = vector_of(instruction);
                if vector == TRAP_GETC {
                    InputRequest::Char
                } else if vector == TRAP_IN {
                    InputRequest::PromptedChar
                } else {
                    InputRequest::Nothing
                }
            },
            _ => InputRequest::Nothing,
        }
    }

    /// Loads an object image. A well-framed image is placed at its origin;
    /// any other leaves the machine as it was and is reported.
    pub fn read_image(&mut self, image: &[u8]) -> (r: Result<(), LoadError>)
        ensures
            final(self)@.registers == old(self)@.registers,
            match load_error(image@) {
                Some(e) => r == Err::<(), LoadError>(e) && final(self)@.memory == old(self)@.memory,
                None => r is Ok && final(self)@.memory == placed(
                    old(self)@.memory,
                    image_origin(image@),
                    image_words(image@),
                ),
            },
    {
        let words: usize = match word_count(image) {
            Ok(n) => n,
            Err(e) => {
                return Err(e);
            },
        };
        let origin: u16 = read_be_u16(image, 0);
        let mut address: u16 = origin;
        let mut k: usize = 0;
        while k < words
            invariant
                k <= words,
                words == image_words(image@).len(),
                words <= MEMORY_MAX,
                image@.len() == 2 * words + 2,
                origin == image_origin(image@),
                address == (origin + k) % (MEMORY_MAX as int),
                self.registers@ == old(self).registers@,
                self.memory@ == placed(
                    old(self)@.memory,
                    origin,
                    image_words(image@).take(k as int),
                ),
            decreases words - k,
        {
            let word: u16 = read_be_u16(image, 2 * k + 2);
            self.memory[address as usize] = word;
            address = address.wrapping_add(1);
            k += 1;
        }
        Ok(())
    }
}

} // verus!
