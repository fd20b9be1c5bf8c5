use vstd::prelude::*;

verus! {

/// Number of slots in the register file.
pub const REGISTER_COUNT: usize = 10;

/// Slot of the return-address register `R7`.
pub const R7_SLOT: usize = 7;

/// Slot of the program counter.
pub const PC_SLOT: usize = 8;

/// Slot of the condition register.
pub const COND_SLOT: usize = 9;

/// The tags of the register file: eight general-purpose registers, the
/// program counter and the condition register.
#[derive(Clone, Copy, Debug, PartialEq, Eq, Structural)]
pub enum Register {
    R0,
    R1,
    R2,
    R3,
    R4,
    R5,
    R6,
    R7,
    /// Program counter.
    Pc,
    /// Condition register.
    Cond,
}

impl Register {
    /// The slot of the register file that the tag names.
    pub open spec fn slot(self) -> int {
        match self {
            Register::R0 => 0,
            Register::R1 => 1,
            Register::R2 => 2,
            Register::R3 => 3,
            Register::R4 => 4,
            Register::R5 => 5,
            Register::R6 => 6,
            Register::R7 => 7,
            Register::Pc => 8,
            Register::Cond => 9,
        }
    }

    /// The slot of the register file that the tag names, as an array index.
    pub fn index(self) -> (i: usize)
        ensures
            i == self.slot(),
            i < REGISTER_COUNT,
    {
        match self {
            Register::R0 => 0,
            Register::R1 => 1,
            Register::R2 => 2,
            Register::R3 => 3,
            Register::R4 => 4,
            Register::R5 => 5,
            Register::R6 => 6,
            Register::R7 => 7,
            Register::Pc => 8,
            Register::Cond => 9,
        }
    }
}

/// The two device registers that are mapped into the address space.
#[allow(non_camel_case_types)]
#[derive(Clone, Copy, Debug, PartialEq, Eq, Structural)]
pub enum MemoryMappedRegister {
    /// Keyboard status.
    MR_KBSR,
    /// Keyboard data.
    MR_KBDR,
}

/// Address of the keyboard status register.
pub const KBSR: u16 = 0xFE00;

/// Address of the keyboard data register.
pub const KBDR: u16 = 0xFE02;

impl MemoryMappedRegister {
    /// The address at which the device register is mapped.
    pub open spec fn location(self) -> u16 {
        match self {
            MemoryMappedRegister::MR_KBSR => KBSR,
            MemoryMappedRegister::MR_KBDR => KBDR,
        }
    }

    /// The address at which the device register is mapped.
    pub fn address(self) -> (a: u16)
        ensures
            a == self.location(),
    {
        match self {
            MemoryMappedRegister::MR_KBSR => KBSR,
            MemoryMappedRegister::MR_KBDR => KBDR,
        }
    }
}

} // verus!
