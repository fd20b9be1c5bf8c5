//! What passes between the machine and the console. The machine never
//! touches the console: before a step it says what the step needs from the
//! keyboard, and after the step it hands back the bytes to print.

use vstd::prelude::*;

verus! {

/// What the next step needs from the keyboard before it can run.
#[derive(Clone, Copy, Debug, PartialEq, Eq, Structural)]
pub enum InputRequest {
    /// Nothing: the step ignores its input.
    Nothing,
    /// A probe of the keyboard that does not wait: `None` where no key is
    /// ready, else the byte read.
    KeyboardPoll,
    /// One byte, waited for, without a prompt.
    Char,
    /// One byte, waited for, after the prompt was shown.
    PromptedChar,
}

/// Whether the machine goes on after a step.
#[derive(Clone, Copy, Debug, PartialEq, Eq, Structural)]
pub enum Signal {
    /// Fetch the next instruction.
    Continue,
    /// The program stopped the machine.
    Halt,
    /// A trap asked for a byte and the console had none to give.
    Fault,
}

/// What a step leaves for its caller besides the new machine state.
#[derive(Debug)]
pub struct Effect {
    /// Whether the machine goes on.
    pub signal: Signal,
    /// The bytes to write to the console and flush, in order.
    pub output: Vec<u8>,
}

/// The prompt of the `IN` trap.
pub open spec fn prompt_text() -> Seq<char> {
    "Enter a character: "@
}

impl InputRequest {
    /// The text to show and flush before the byte is read: the prompt for a
    /// prompted read, nothing otherwise.
    pub fn prompt(&self) -> (text: &'static str)
        ensures
            text@ == (if *self == InputRequest::PromptedChar {
                prompt_text()
            } else {
                Seq::<char>::empty()
            }),
    {
        match self {
            InputRequest::PromptedChar => "Enter a character: ",
            _ => {
                proof {
                    reveal_strlit("");
                }
                ""
            },
        }
    }
}

} // verus!
