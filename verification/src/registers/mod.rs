use vstd::prelude::*;

pub mod register;

verus! {

/// Bit of the condition register that stands for a positive result.
pub const FL_POS: u16 = 1;

/// Bit of the condition register that stands for a zero result.
pub const FL_ZRO: u16 = 2;

/// Bit of the condition register that stands for a negative result.
pub const FL_NEG: u16 = 4;

/// The three condition flags. The condition register holds the bit of
/// exactly one of them after any instruction that sets flags.
#[derive(Clone, Copy, Debug, PartialEq, Eq, Structural)]
pub enum ConditionFlag {
    /// P
    Pos,
    /// Z
    Zro,
    /// N
    Neg,
}

impl ConditionFlag {
    /// The bit that the flag occupies in the condition register.
    pub open spec fn mask(self) -> u16 {
        match self {
            ConditionFlag::Pos => FL_POS,
            ConditionFlag::Zro => FL_ZRO,
            ConditionFlag::Neg => FL_NEG,
        }
    }

    /// The flag that describes `value`: zero, negative (bit 15 set) or
    /// positive.
    pub open spec fn describing(value: u16) -> ConditionFlag {
        if value == 0 {
            ConditionFlag::Zro
        } else if value >= 0x8000 {
            ConditionFlag::Neg
        } else {
            ConditionFlag::Pos
        }
    }

    /// The bit that the flag occupies in the condition register.
    pub fn bits(self) -> (b: u16)
        ensures
            b == self.mask(),
    {
        match self {
            ConditionFlag::Pos => FL_POS,
            ConditionFlag::Zro => FL_ZRO,
            ConditionFlag::Neg => FL_NEG,
        }
    }

    /// Classifies a word as zero, negative or positive.
    pub fn of(value: u16) -> (flag: ConditionFlag)
        ensures
            flag == ConditionFlag::describing(value),
    {
        if value == 0 {
            ConditionFlag::Zro
        } else if value >= 0x8000 {
            ConditionFlag::Neg
        } else {
            ConditionFlag::Pos
        }
    }
}

} // verus!
