//! The schedulable unit: a thread's saved stack pointer, entry point,
//! argument, and the base of the stack block it owns. Addresses are word
//! indices into the kernel's memory; an address of zero means "none", so no
//! thread ever has a zero stack pointer.

use vstd::prelude::*;
use crate::frame::FRAME_WORDS;
use crate::text::hex_digits;
use crate::text::push_hex;

verus! {

/// One schedulable thread. Created once; never destroyed, and its stack
/// block is never reclaimed.
#[derive(Clone, Copy, Debug, PartialEq, Eq, Structural)]
pub struct SimpleThread {
    /// Where this thread's saved state sits: updated each time the thread
    /// is switched out, consumed when it is switched back in.
    pub stack_pointer: u32,
    /// Address of the thread's entry function.
    pub entry: u32,
    /// The one machine word handed to the entry function.
    pub param: u32,
    /// Base address of the stack block this thread owns (kept for
    /// debugging; there is no reclamation path).
    pub stack: u32,
}

impl SimpleThread {
    /// A parked thread's saved stack pointer is nonzero and has its full
    /// sixteen-word saved state inside a memory of `mem_len` words.
    pub open spec fn wf(self, mem_len: int) -> bool {
        &&& 1 <= self.stack_pointer
        &&& self.stack_pointer + FRAME_WORDS <= mem_len
    }

    /// Render this thread for debugging, with its addresses in hexadecimal.
    pub fn describe(&self) -> (text: Vec<char>)
        ensures
            text@ == seq!['T', 'h', 'r', 'e', 'a', 'd', ' ', 'w', 'h', 'i', 'c', 'h', ' ',
                    's', 'p', ':', '0', 'x'] + hex_digits(self.stack_pointer as nat)
                + seq![',', ' ', 's', 't', 'a', 'c', 'k', ':', '0', 'x']
                + hex_digits(self.stack as nat),
    {
        let mut text: Vec<char> = Vec::new();
        text.push('T');
        text.push('h');
        text.push('r');
        text.push('e');
        text.push('a');
        text.push('d');
        text.push(' ');
        text.push('w');
        text.push('h');
        text.push('i');
        text.push('c');
        text.push('h');
        text.push(' ');
        text.push('s');
        text.push('p');
        text.push(':');
        text.push('0');
        text.push('x');
        push_hex(&mut text, self.stack_pointer as usize);
        text.push(',');
        text.push(' ');
        text.push('s');
        text.push('t');
        text.push('a');
        text.push('c');
        text.push('k');
        text.push(':');
        text.push('0');
        text.push('x');
        push_hex(&mut text, self.stack as usize);
        proof {
            assert(text@ =~= seq!['T', 'h', 'r', 'e', 'a', 'd', ' ', 'w', 'h', 'i', 'c', 'h', ' ',
                    's', 'p', ':', '0', 'x'] + hex_digits(self.stack_pointer as nat)
                + seq![',', ' ', 's', 't', 'a', 'c', 'k', ':', '0', 'x']
                + hex_digits(self.stack as nat));
        }
        text
    }
}

} // verus!
