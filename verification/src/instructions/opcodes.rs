use vstd::prelude::*;

verus! {

/// The sixteen operations that the top four bits of an instruction select.
#[derive(Clone, Copy, Debug, PartialEq, Eq, Structural)]
pub enum Opcode {
    /// Branch.
    Br,
    /// Add.
    Add,
    /// Load.
    Ld,
    /// Store.
    St,
    /// Jump to subroutine.
    Jsr,
    /// Bitwise and.
    And,
    /// Load base-relative.
    Ldr,
    /// Store base-relative.
    Str,
    /// Return from interrupt; not implemented, stops the machine.
    Rti,
    /// Bitwise not.
    Not,
    /// Load indirect.
    Ldi,
    /// Store indirect.
    Sti,
    /// Jump.
    Jmp,
    /// Reserved; stops the machine.
    Res,
    /// Load effective address.
    Lea,
    /// Trap.
    Trap,
}

impl Opcode {
    /// The number that stands for the operation in an instruction word.
    pub open spec fn number(self) -> int {
        match self {
            Opcode::Br => 0,
            Opcode::Add => 1,
            Opcode::Ld => 2,
            Opcode::St => 3,
            Opcode::Jsr => 4,
            Opcode::And => 5,
            Opcode::Ldr => 6,
            Opcode::Str => 7,
            Opcode::Rti => 8,
            Opcode::Not => 9,
            Opcode::Ldi => 10,
            Opcode::Sti => 11,
            Opcode::Jmp => 12,
            Opcode::Res => 13,
            Opcode::Lea => 14,
            Opcode::Trap => 15,
        }
    }

    /// Whether the operation sets the condition register from the value it
    /// writes to its destination register.
    pub open spec fn sets_flags(self) -> bool {
        self == Opcode::Add || self == Opcode::And || self == Opcode::Not || self == Opcode::Ld
            || self == Opcode::Ldi || self == Opcode::Ldr || self == Opcode::Lea
    }

    /// The operation that the number `n` stands for; for a number above
    /// fifteen, the last one.
    pub open spec fn with_number(n: int) -> Opcode {
        if n <= 0 {
            Opcode::Br
        } else if n == 1 {
            Opcode::Add
        } else if n == 2 {
            Opcode::Ld
        } else if n == 3 {
            Opcode::St
        } else if n == 4 {
            Opcode::Jsr
        } else if n == 5 {
            Opcode::And
        } else if n == 6 {
            Opcode::Ldr
        } else if n == 7 {
            Opcode::Str
        } else if n == 8 {
            Opcode::Rti
        } else if n == 9 {
            Opcode::Not
        } else if n == 10 {
            Opcode::Ldi
        } else if n == 11 {
            Opcode::Sti
        } else if n == 12 {
            Opcode::Jmp
        } else if n == 13 {
            Opcode::Res
        } else if n == 14 {
            Opcode::Lea
        } else {
            Opcode::Trap
        }
    }

    /// The operation of an instruction: the one that its top four bits
    /// stand for.
    pub open spec fn of_instruction(instruction: u16) -> Opcode {
        Opcode::with_number(instruction as int / 4096)
    }

    /// The operation that `op_code` stands for, if it is one of the sixteen
    /// numbers.
    pub fn get(op_code: u16) -> (r: Option<Opcode>)
        ensures
            r == (if op_code < 16 {
                Some(Opcode::with_number(op_code as int))
            } else {
                None
            }),
            r matches Some(opcode) ==> opcode.number() == op_code,
    {
        match op_code {
            0 => Some(Opcode::Br),
            1 => Some(Opcode::Add),
            2 => Some(Opcode::Ld),
            3 => Some(Opcode::St),
            4 => Some(Opcode::Jsr),
            5 => Some(Opcode::And),
            6 => Some(Opcode::Ldr),
            7 => Some(Opcode::Str),
            8 => Some(Opcode::Rti),
            9 => Some(Opcode::Not),
            10 => Some(Opcode::Ldi),
            11 => Some(Opcode::Sti),
            12 => Some(Opcode::Jmp),
            13 => Some(Opcode::Res),
            14 => Some(Opcode::Lea),
            15 => Some(Opcode::Trap),
            _ => None,
        }
    }
}

} // verus!
