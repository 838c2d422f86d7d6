//! The exact layout of the register block a freshly created thread resumes
//! into. The low half holds the eight callee-saved registers that the switch
//! routine pushes and pops by hand; the high half is the hardware exception
//! frame that the exception-return sequence pops on its own. Field order and
//! total size must match that sequence word for word.

use vstd::prelude::*;

verus! {

/// Recognizable poison value written into the callee-saved registers of a
/// fresh thread, so a debugger can tell "never ran" state apart from data.
pub const POISON: u32 = 0xdead_beef;

/// Status-register value marking Thumb execution mode; anything else faults
/// on exception return.
pub const XPSR_THUMB: u32 = 0x0100_0000;

/// Total size of the initial saved state, in words: eight callee-saved
/// registers plus the eight-word hardware exception frame.
pub const FRAME_WORDS: usize = 16;

/// The eight-word block the hardware pushes on exception entry and pops on
/// exception return, lowest address first.
#[derive(Clone, Copy, Debug, PartialEq, Eq, Structural)]
pub struct ExceptionFrame {
    pub r0: u32,
    pub r1: u32,
    pub r2: u32,
    pub r3: u32,
    pub r12: u32,
    pub lr: u32,
    pub pc: u32,
    pub xpsr: u32,
}

/// The full initial saved state of a thread: the callee-saved registers the
/// switch routine handles, followed by the hardware exception frame.
#[derive(Clone, Copy, Debug, PartialEq, Eq, Structural)]
pub struct StackFrame {
    pub r4: u32,
    pub r5: u32,
    pub r6: u32,
    pub r7: u32,
    pub r8: u32,
    pub r9: u32,
    pub r10: u32,
    pub r11: u32,
    pub exception_stack_frame: ExceptionFrame,
}

/// The sixteen words of the initial saved state for a thread entering
/// `entry` with argument `param`, lowest address first.
pub open spec fn frame_words(entry: u32, param: u32) -> Seq<u32> {
    seq![
        POISON, POISON, POISON, POISON, POISON, POISON, POISON, POISON,
        param, 0u32, 0u32, 0u32, 0u32, 0u32, entry, XPSR_THUMB,
    ]
}

impl StackFrame {
    /// This frame flattened to the word order in which it sits in memory.
    pub open spec fn words(self) -> Seq<u32> {
        seq![
            self.r4,
            self.r5,
            self.r6,
            self.r7,
            self.r8,
            self.r9,
            self.r10,
            self.r11,
            self.exception_stack_frame.r0,
            self.exception_stack_frame.r1,
            self.exception_stack_frame.r2,
            self.exception_stack_frame.r3,
            self.exception_stack_frame.r12,
            self.exception_stack_frame.lr,
            self.exception_stack_frame.pc,
            self.exception_stack_frame.xpsr,
        ]
    }

    /// Build the initial saved state for a thread entering `entry` with
    /// argument `param`: poisoned callee-saved registers, the argument in
    /// the first argument register, the entry point in the program counter,
    /// and a status register marking Thumb mode.
    pub fn new(entry: u32, param: u32) -> (frame: StackFrame)
        ensures
            frame.words() == frame_words(entry, param),
    {
        let frame = StackFrame {
            r4: POISON,
            r5: POISON,
            r6: POISON,
            r7: POISON,
            r8: POISON,
            r9: POISON,
            r10: POISON,
            r11: POISON,
            exception_stack_frame: ExceptionFrame {
                r0: param,
                r1: 0,
                r2: 0,
                r3: 0,
                r12: 0,
                lr: 0,
                pc: entry,
                xpsr: XPSR_THUMB,
            },
        };
        proof {
            assert(frame.words() =~= frame_words(entry, param));
        }
        frame
    }
}

} // verus!
