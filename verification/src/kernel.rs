//! The kernel: a simulated word-addressed memory with a bump allocator for
//! stack blocks, the ready queue of threads, the context-switch service and
//! trigger, and a model of the processor's register file together with the
//! interrupt-context routines that act on it.
//!
//! The kernel struct is the single owner of all shared state; every method
//! that takes it exclusively stands for one uninterruptible critical
//! section, so a whole ready-queue rotation or a whole register swap is
//! all-or-nothing by construction.

use vstd::prelude::*;
use std::collections::VecDeque;
use crate::frame::FRAME_WORDS;
use crate::frame::StackFrame;
use crate::frame::frame_words;
use crate::laws::rotate1;
use crate::memory::store_words;
use crate::memory::write_words;
use crate::service::ContextSwitchService;
use crate::service::SwitchTrigger;
use crate::thread::SimpleThread;

verus! {

/// Words in the stack handed to the idle thread: exactly one saved frame,
/// enough for a thread that never calls anything.
pub const IDLE_STACK_WORDS: usize = 16;

/// Exception-return value for resuming a thread that runs on the process
/// stack; bit two selects the process stack pointer.
pub const EXC_RETURN_THREAD: u32 = 0xffff_fffd;

/// Largest memory the kernel will model, in words: every address fits a
/// machine word.
pub const MAX_MEMORY_WORDS: usize = 0xffff_ffff;

/// The processor registers the switch protocol touches. `psp` is the
/// process stack pointer the running thread executes on; `primask` is true
/// while interrupts are masked.
#[derive(Clone, Copy, Debug, PartialEq, Eq, Structural)]
pub struct Registers {
    pub r0: u32,
    pub r1: u32,
    pub r2: u32,
    pub r3: u32,
    pub r4: u32,
    pub r5: u32,
    pub r6: u32,
    pub r7: u32,
    pub r8: u32,
    pub r9: u32,
    pub r10: u32,
    pub r11: u32,
    pub r12: u32,
    pub lr: u32,
    pub pc: u32,
    pub xpsr: u32,
    pub psp: u32,
    pub primask: bool,
}

/// The eight callee-saved registers, in the order the switch routine
/// stores them to memory, lowest address first.
pub open spec fn callee_saved(regs: Registers) -> Seq<u32> {
    seq![regs.r4, regs.r5, regs.r6, regs.r7, regs.r8, regs.r9, regs.r10, regs.r11]
}

/// The eight-word hardware exception frame, in the order the hardware
/// pushes it, lowest address first.
pub open spec fn hardware_frame(regs: Registers) -> Seq<u32> {
    seq![regs.r0, regs.r1, regs.r2, regs.r3, regs.r12, regs.lr, regs.pc, regs.xpsr]
}

/// Why thread creation was refused.
#[derive(Clone, Copy, Debug, PartialEq, Eq, Structural)]
pub enum KernelError {
    /// The requested stack cannot hold even one saved frame.
    StackTooSmall,
    /// The allocator has no block of the requested size left. Fatal: the
    /// caller reports a diagnostic and halts.
    OutOfMemory,
}

/// The whole kernel state: one owner, one critical section per method.
pub struct Kernel {
    /// Simulated word-addressed memory that stack blocks are carved from.
    pub memory: Vec<u32>,
    /// Bump-allocation mark: words below it are handed out. Starts at one;
    /// word zero is reserved so a zero address means "none".
    pub next_free: usize,
    /// The ready queue: rotation order for round-robin scheduling. The
    /// front is the running thread; never empty once the idle thread is in.
    pub queue: VecDeque<SimpleThread>,
    /// The stack-pointer pair crossing the interrupt boundary.
    pub service: ContextSwitchService,
    /// The pended lowest-priority switch exception.
    pub trigger: SwitchTrigger,
    /// The processor's register file.
    pub regs: Registers,
}

impl Kernel {
    /// Well-formedness: the reserved word stays reserved, allocation stays
    /// inside memory, addresses fit a machine word, and every queued
    /// thread's saved state sits inside allocated memory.
    pub open spec fn wf(self) -> bool {
        &&& 1 <= self.next_free <= self.memory.len()
        &&& self.memory.len() <= MAX_MEMORY_WORDS
        &&& forall|i: int|
            0 <= i < self.queue@.len() ==> (#[trigger] self.queue@[i]).wf(self.memory.len() as int)
    }

    /// A fresh kernel over `memory_words` words of zeroed memory: nothing
    /// allocated, no threads, no switch requested, registers cleared.
    pub fn new(memory_words: usize) -> (kernel: Kernel)
        requires
            1 <= memory_words <= MAX_MEMORY_WORDS,
        ensures
            kernel.wf(),
            kernel.memory.len() == memory_words,
            forall|i: int| 0 <= i < memory_words ==> kernel.memory@[i] == 0u32,
            kernel.next_free == 1,
            kernel.queue@ == Seq::<SimpleThread>::empty(),
            kernel.service.switch_from_sp == 0,
            kernel.service.switch_to_sp == 0,
            !kernel.trigger.pending,
            kernel.regs == (Registers {
                r0: 0, r1: 0, r2: 0, r3: 0, r4: 0, r5: 0, r6: 0, r7: 0,
                r8: 0, r9: 0, r10: 0, r11: 0, r12: 0, lr: 0, pc: 0, xpsr: 0,
                psp: 0, primask: false,
            }),
    {
        let mut memory: Vec<u32> = Vec::new();
        let mut i: usize = 0;
        while i < memory_words
            invariant
                i <= memory_words,
                memory.len() == i,
                forall|j: int| 0 <= j < i ==> memory@[j] == 0u32,
            decreases memory_words - i,
        {
            memory.push(0);
            i = i + 1;
        }
        Kernel {
            memory,
            next_free: 1,
            queue: VecDeque::new(),
            service: ContextSwitchService { switch_from_sp: 0, switch_to_sp: 0 },
            trigger: SwitchTrigger { pending: false },
            regs: Registers {
                r0: 0, r1: 0, r2: 0, r3: 0, r4: 0, r5: 0, r6: 0, r7: 0,
                r8: 0, r9: 0, r10: 0, r11: 0, r12: 0, lr: 0, pc: 0, xpsr: 0,
                psp: 0, primask: false,
            },
        }
    }

    /// Create a thread entering `entry` with argument `param`, on a fresh
    /// stack of `stack_size` words, and append it to the rotation order.
    ///
    /// The stack must hold at least one saved frame; a smaller request is
    /// refused rather than corrupting memory. The initial frame is placed
    /// at the highest addresses of the block (stacks grow downward), and
    /// the frame's address becomes the thread's initial stack pointer.
    pub fn create_thread(&mut self, entry: u32, param: u32, stack_size: usize) -> (result:
        Result<(), KernelError>)
        requires
            old(self).wf(),
        ensures
            final(self).wf(),
            result is Ok <==> (stack_size >= FRAME_WORDS && old(self).next_free + stack_size
                <= old(self).memory.len()),
            result == Err::<(), KernelError>(KernelError::StackTooSmall) <==> stack_size
                < FRAME_WORDS,
            stack_size >= FRAME_WORDS ==> (result == Err::<(), KernelError>(
                KernelError::OutOfMemory,
            ) <==> old(self).next_free + stack_size > old(self).memory.len()),
            result is Err ==> *final(self) == *old(self),
            result is Ok ==> ({
                let base = old(self).next_free;
                let sp = base + stack_size - FRAME_WORDS;
                &&& final(self).memory@ == store_words(
                    old(self).memory@,
                    sp as int,
                    frame_words(entry, param),
                )
                &&& final(self).next_free == base + stack_size
                &&& final(self).queue@ == old(self).queue@.push(
                    (SimpleThread {
                        stack_pointer: sp as u32,
                        entry,
                        param,
                        stack: base as u32,
                    }),
                )
                &&& final(self).service == old(self).service
                &&& final(self).trigger == old(self).trigger
                &&& final(self).regs == old(self).regs
            }),
    {
        if stack_size < FRAME_WORDS {
            return Err(KernelError::StackTooSmall);
        }
        if stack_size > self.memory.len() - self.next_free {
            return Err(KernelError::OutOfMemory);
        }
        let base = self.next_free;
        let sp = base + stack_size - FRAME_WORDS;
        let frame = StackFrame::new(entry, param);
        let words = frame_to_vec(&frame);
        write_words(&mut self.memory, sp, &words);
        self.next_free = base + stack_size;
        let thread = SimpleThread {
            stack_pointer: sp as u32,
            entry,
            param,
            stack: base as u32,
        };
        self.queue.push_back(thread);
        Ok(())
    }

    /// What one scheduling opportunity does. With fewer than two threads,
    /// rotation is a no-op and nothing is disturbed. Otherwise the queue
    /// rotates one step, the service records the rotated-out front as the
    /// switch source and the new front as the switch target, and the
    /// trigger is armed exactly when the target is a real thread other
    /// than the source. The whole step is one critical section.
    pub open spec fn schedule_step(pre: Kernel, post: Kernel) -> bool {
        &&& post.memory@ == pre.memory@
        &&& post.next_free == pre.next_free
        &&& post.regs == pre.regs
        &&& pre.queue@.len() < 2 ==> {
            &&& post.queue@ == pre.queue@
            &&& post.service == pre.service
            &&& post.trigger == pre.trigger
        }
        &&& pre.queue@.len() >= 2 ==> {
            let from_sp = pre.queue@[0].stack_pointer;
            let to_sp = pre.queue@[1].stack_pointer;
            &&& post.queue@ == rotate1(pre.queue@)
            &&& post.service.switch_from_sp == from_sp
            &&& post.service.switch_to_sp == to_sp
            &&& post.trigger.pending == (pre.trigger.pending || (to_sp != 0 && to_sp
                != from_sp))
        }
    }

    /// One scheduling opportunity: rotate the ready queue and, when the
    /// newly fronted thread differs from the one scheduled out, feed the
    /// context-switch service and request a switch.
    pub fn schedule(&mut self)
        requires
            old(self).wf(),
        ensures
            final(self).wf(),
            Kernel::schedule_step(*old(self), *final(self)),
    {
        if self.queue.len() >= 2 {
            let popped = self.queue.pop_front();
            match popped {
                Some(out_thread) => {
                    let to_sp = self.queue[0].stack_pointer;
                    self.service.switch_from_sp = out_thread.stack_pointer;
                    self.service.switch_to_sp = to_sp;
                    self.queue.push_back(out_thread);
                    let service = self.service;
                    service.request_switch(&mut self.trigger);
                    proof {
                        assert(self.queue@ =~= rotate1(old(self).queue@));
                    }
                },
                None => {},
            }
        }
    }

    /// The periodic tick is the kernel's scheduling opportunity: each tick
    /// drives one ready-queue rotation. The tick source itself (a hardware
    /// timer) is outside the model; whoever receives its callback calls
    /// this once per period.
    pub fn tick(&mut self)
        requires
            old(self).wf(),
        ensures
            final(self).wf(),
            Kernel::schedule_step(*old(self), *final(self)),
    {
        self.schedule();
    }

    /// Bootstrap scheduling: create the idle thread on a minimal stack,
    /// make it the sole entry of the ready queue, aim the context-switch
    /// service at it — there is no previous context, so the switch source
    /// stays zero — and request the first switch, which is therefore
    /// always armed. Fails only if even the idle stack cannot be
    /// allocated; that failure is fatal to the caller.
    pub fn init(&mut self, idle_entry: u32) -> (result: Result<(), KernelError>)
        requires
            old(self).wf(),
            old(self).queue@.len() == 0,
            old(self).service.switch_from_sp == 0,
        ensures
            final(self).wf(),
            result is Ok <==> old(self).next_free + IDLE_STACK_WORDS <= old(
                self,
            ).memory.len(),
            result is Err ==> *final(self) == *old(self) && result == Err::<(), KernelError>(
                KernelError::OutOfMemory,
            ),
            result is Ok ==> ({
                let sp = old(self).next_free;
                &&& final(self).queue@ == seq![
                    (SimpleThread {
                        stack_pointer: sp as u32,
                        entry: idle_entry,
                        param: 0,
                        stack: sp as u32,
                    }),
                ]
                &&& final(self).memory@ == store_words(
                    old(self).memory@,
                    sp as int,
                    frame_words(idle_entry, 0),
                )
                &&& final(self).next_free == old(self).next_free + IDLE_STACK_WORDS
                &&& final(self).service.switch_from_sp == 0
                &&& final(self).service.switch_to_sp == sp as u32
                &&& final(self).trigger.pending
                &&& final(self).regs == old(self).regs
            }),
    {
        let created = self.create_thread(idle_entry, 0, IDLE_STACK_WORDS);
        match created {
            Err(error) => Err(error),
            Ok(()) => {
                let sp = self.queue[0].stack_pointer;
                self.service.switch_to_sp = sp;
                let service = self.service;
                service.request_switch(&mut self.trigger);
                Ok(())
            },
        }
    }

    /// Hardware exception entry, taken while a thread runs on the process
    /// stack: the eight-word exception frame is pushed below the process
    /// stack pointer, and the link register receives the exception-return
    /// value that resumes a process-stack thread.
    pub fn exception_entry(&mut self)
        requires
            old(self).wf(),
            8 <= old(self).regs.psp,
            old(self).regs.psp <= old(self).memory.len(),
        ensures
            final(self).wf(),
            final(self).memory@ == store_words(
                old(self).memory@,
                old(self).regs.psp - 8,
                hardware_frame(old(self).regs),
            ),
            final(self).regs == (Registers {
                psp: (old(self).regs.psp - 8) as u32,
                lr: EXC_RETURN_THREAD,
                ..old(self).regs
            }),
            final(self).next_free == old(self).next_free,
            final(self).queue@ == old(self).queue@,
            final(self).service == old(self).service,
            final(self).trigger == old(self).trigger,
    {
        let base = (self.regs.psp - 8) as usize;
        self.memory.set(base + 0, self.regs.r0);
        self.memory.set(base + 1, self.regs.r1);
        self.memory.set(base + 2, self.regs.r2);
        self.memory.set(base + 3, self.regs.r3);
        self.memory.set(base + 4, self.regs.r12);
        self.memory.set(base + 5, self.regs.lr);
        self.memory.set(base + 6, self.regs.pc);
        self.memory.set(base + 7, self.regs.xpsr);
        self.regs.psp = self.regs.psp - 8;
        self.regs.lr = EXC_RETURN_THREAD;
        proof {
            assert(self.memory@ =~= store_words(
                old(self).memory@,
                old(self).regs.psp - 8,
                hardware_frame(old(self).regs),
            ));
        }
    }

    /// Hardware exception return along the thread path: the eight-word
    /// exception frame is popped off the process stack into the scratch
    /// registers, link register, program counter and status register, so
    /// execution resumes in the switched-in thread's own context.
    pub fn exception_return(&mut self)
        requires
            old(self).wf(),
            old(self).regs.lr & 0x4 != 0,
            old(self).regs.psp + 8 <= old(self).memory.len(),
        ensures
            final(self).wf(),
            final(self).memory@ == old(self).memory@,
            final(self).regs == (Registers {
                r0: old(self).memory@[old(self).regs.psp as int],
                r1: old(self).memory@[old(self).regs.psp + 1],
                r2: old(self).memory@[old(self).regs.psp + 2],
                r3: old(self).memory@[old(self).regs.psp + 3],
                r12: old(self).memory@[old(self).regs.psp + 4],
                lr: old(self).memory@[old(self).regs.psp + 5],
                pc: old(self).memory@[old(self).regs.psp + 6],
                xpsr: old(self).memory@[old(self).regs.psp + 7],
                psp: (old(self).regs.psp + 8) as u32,
                ..old(self).regs
            }),
            final(self).next_free == old(self).next_free,
            final(self).queue@ == old(self).queue@,
            final(self).service == old(self).service,
            final(self).trigger == old(self).trigger,
    {
        let base = self.regs.psp as usize;
        self.regs.r0 = self.memory[base + 0];
        self.regs.r1 = self.memory[base + 1];
        self.regs.r2 = self.memory[base + 2];
        self.regs.r3 = self.memory[base + 3];
        self.regs.r12 = self.memory[base + 4];
        self.regs.lr = self.memory[base + 5];
        self.regs.pc = self.memory[base + 6];
        self.regs.xpsr = self.memory[base + 7];
        self.regs.psp = self.regs.psp + 8;
    }

    /// The pended switch routine, run on the lowest-priority exception
    /// once it is armed. Under one masked critical section — interrupts
    /// are disabled after capturing the previous mask into the scratch
    /// register and the mask is restored on the way out, so the whole swap
    /// is all-or-nothing — it does the following. If the service names a
    /// switch source, the eight callee-saved registers are pushed below
    /// the process stack pointer, and the resulting address becomes both
    /// the service's recorded source and the saved stack pointer of the
    /// rotated-out thread at the back of the ready queue. Then the eight
    /// callee-saved registers of the incoming thread are popped from the
    /// switch target, the process stack pointer moves to the word after
    /// that saved block, and the link register's thread-mode bit is set so
    /// the coming exception return resumes on the process stack.
    pub fn pend_sv(&mut self)
        requires
            old(self).wf(),
            old(self).trigger.pending,
            1 <= old(self).service.switch_to_sp,
            old(self).service.switch_to_sp + 8 <= old(self).memory.len(),
            old(self).service.switch_from_sp != 0 ==> {
                &&& old(self).queue@.len() >= 1
                &&& 9 <= old(self).regs.psp
                &&& old(self).regs.psp + 8 <= old(self).memory.len()
            },
        ensures
            final(self).wf(),
            final(self).next_free == old(self).next_free,
            !final(self).trigger.pending,
            ({
                let from_sp = old(self).service.switch_from_sp;
                let to_sp = old(self).service.switch_to_sp as int;
                let psp = old(self).regs.psp as int;
                let saved = if from_sp != 0 {
                    store_words(old(self).memory@, psp - 8, callee_saved(old(self).regs))
                } else {
                    old(self).memory@
                };
                &&& final(self).memory@ == saved
                &&& final(self).service.switch_to_sp == to_sp + 8
                &&& (from_sp != 0 ==> {
                    &&& final(self).service.switch_from_sp == psp - 8
                    &&& final(self).queue@ == old(self).queue@.update(
                        old(self).queue@.len() - 1,
                        (SimpleThread {
                            stack_pointer: (psp - 8) as u32,
                            ..old(self).queue@.last()
                        }),
                    )
                })
                &&& (from_sp == 0 ==> {
                    &&& final(self).service.switch_from_sp == 0
                    &&& final(self).queue@ == old(self).queue@
                })
                &&& final(self).regs == (Registers {
                    r3: if old(self).regs.primask { 1u32 } else { 0u32 },
                    r4: saved[to_sp],
                    r5: saved[to_sp + 1],
                    r6: saved[to_sp + 2],
                    r7: saved[to_sp + 3],
                    r8: saved[to_sp + 4],
                    r9: saved[to_sp + 5],
                    r10: saved[to_sp + 6],
                    r11: saved[to_sp + 7],
                    psp: (to_sp + 8) as u32,
                    lr: old(self).regs.lr | 0x4,
                    ..old(self).regs
                })
            }),
    {
        // Capture the interrupt mask, then mask interrupts; the body runs
        // as one critical section and the mask is restored at the end.
        self.regs.r3 = if self.regs.primask {
            1
        } else {
            0
        };
        let from_sp = self.service.switch_from_sp;
        let to_sp = self.service.switch_to_sp;
        if from_sp != 0 {
            let base = (self.regs.psp - 8) as usize;
            self.memory.set(base + 0, self.regs.r4);
            self.memory.set(base + 1, self.regs.r5);
            self.memory.set(base + 2, self.regs.r6);
            self.memory.set(base + 3, self.regs.r7);
            self.memory.set(base + 4, self.regs.r8);
            self.memory.set(base + 5, self.regs.r9);
            self.memory.set(base + 6, self.regs.r10);
            self.memory.set(base + 7, self.regs.r11);
            let popped = self.queue.pop_back();
            match popped {
                Some(out_thread) => {
                    let updated = SimpleThread {
                        stack_pointer: self.regs.psp - 8,
                        ..out_thread
                    };
                    self.queue.push_back(updated);
                },
                None => {},
            }
            self.service.switch_from_sp = self.regs.psp - 8;
            proof {
                assert(self.memory@ =~= store_words(
                    old(self).memory@,
                    old(self).regs.psp - 8,
                    callee_saved(old(self).regs),
                ));
                assert(self.queue@ =~= old(self).queue@.update(
                    old(self).queue@.len() - 1,
                    (SimpleThread {
                        stack_pointer: (old(self).regs.psp - 8) as u32,
                        ..old(self).queue@.last()
                    }),
                ));
            }
        }
        let base = to_sp as usize;
        self.regs.r4 = self.memory[base + 0];
        self.regs.r5 = self.memory[base + 1];
        self.regs.r6 = self.memory[base + 2];
        self.regs.r7 = self.memory[base + 3];
        self.regs.r8 = self.memory[base + 4];
        self.regs.r9 = self.memory[base + 5];
        self.regs.r10 = self.memory[base + 6];
        self.regs.r11 = self.memory[base + 7];
        self.service.switch_to_sp = to_sp + 8;
        self.regs.psp = to_sp + 8;
        self.regs.lr = self.regs.lr | 0x4;
        self.trigger.pending = false;
    }
}

/// The words of `frame` in memory order, as a vector.
fn frame_to_vec(frame: &StackFrame) -> (words: Vec<u32>)
    ensures
        words@ == frame.words(),
{
    let mut words: Vec<u32> = Vec::new();
    words.push(frame.r4);
    words.push(frame.r5);
    words.push(frame.r6);
    words.push(frame.r7);
    words.push(frame.r8);
    words.push(frame.r9);
    words.push(frame.r10);
    words.push(frame.r11);
    words.push(frame.exception_stack_frame.r0);
    words.push(frame.exception_stack_frame.r1);
    words.push(frame.exception_stack_frame.r2);
    words.push(frame.exception_stack_frame.r3);
    words.push(frame.exception_stack_frame.r12);
    words.push(frame.exception_stack_frame.lr);
    words.push(frame.exception_stack_frame.pc);
    words.push(frame.exception_stack_frame.xpsr);
    proof {
        assert(words@ =~= frame.words());
    }
    words
}

} // verus!
