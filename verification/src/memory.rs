//! Reading memory. Two addresses are device registers; a read of the
//! keyboard status register first records the state of the keyboard.

use vstd::prelude::*;
use crate::registers::register::{KBDR, KBSR};
use crate::MEMORY_MAX;

verus! {

/// Value of the keyboard status register while a key is ready.
pub const KEY_READY: u16 = 0x8000;

/// The memory after the keyboard was probed. With a key ready, the status
/// register has its high bit set and the data register holds the byte; with
/// none, the status register is zero.
pub open spec fn polled(memory: Seq<u16>, key: Option<u8>) -> Seq<u16> {
    match key {
        Some(byte) => memory.update(KBSR as int, KEY_READY).update(KBDR as int, byte as u16),
        None => memory.update(KBSR as int, 0u16),
    }
}

/// The memory after a read of `address`: probed where the address is the
/// keyboard status register, unchanged otherwise.
pub open spec fn after_read(memory: Seq<u16>, address: u16, key: Option<u8>) -> Seq<u16> {
    if address == KBSR {
        polled(memory, key)
    } else {
        memory
    }
}

/// The word that a read of `address` returns.
pub open spec fn read_value(memory: Seq<u16>, address: u16, key: Option<u8>) -> u16 {
    after_read(memory, address, key)[address as int]
}

/// Reads one word. `key` is what a probe of the keyboard found: `None` for
/// no key, else the byte that was read. It is looked at only where
/// `address` is the keyboard status register.
pub fn mem_read(memory: &mut [u16; MEMORY_MAX], address: u16, key: Option<u8>) -> (value: u16)
    ensures
        final(memory)@ == after_read(old(memory)@, address, key),
        value == read_value(old(memory)@, address, key),
{
    if address == KBSR {
        match key {
            Some(byte) => {
                memory[KBSR as usize] = KEY_READY;
                memory[KBDR as usize] = byte as u16;
            },
            None => {
                memory[KBSR as usize] = 0;
            },
        }
    }
    memory[address as usize]
}

} // verus!
