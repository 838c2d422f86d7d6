use minikernel::frame::{FRAME_WORDS, POISON, XPSR_THUMB};
use minikernel::kernel::{Kernel, KernelError, IDLE_STACK_WORDS};

const IDLE: u32 = 0x1000;

fn booted(memory_words: usize) -> Kernel {
    let mut k = Kernel::new(memory_words);
    k.init(IDLE).expect("idle stack must fit");
    k
}

#[test]
fn creation_places_frame_at_top_of_stack() {
    let mut k = booted(1024);
    k.create_thread(0x2000, 7, 64).expect("fits");
    let t = &k.queue[1];
    // the idle thread took words 1..=16, so this stack starts at 17
    assert_eq!(t.stack, 17);
    assert_eq!(t.stack_pointer, 17 + 64 - FRAME_WORDS as u32);
    let sp = t.stack_pointer as usize;
    for i in 0..8 {
        assert_eq!(k.memory[sp + i], POISON);
    }
    assert_eq!(k.memory[sp + 8], 7); // entry argument
    assert_eq!(k.memory[sp + 14], 0x2000); // program counter
    assert_eq!(k.memory[sp + 15], XPSR_THUMB);
}

#[test]
fn creation_rejects_stack_smaller_than_one_frame() {
    let mut k = booted(1024);
    assert_eq!(
        k.create_thread(0x2000, 0, FRAME_WORDS - 1),
        Err(KernelError::StackTooSmall)
    );
    assert_eq!(k.queue.len(), 1);
}

#[test]
fn creation_fails_fatally_on_exhaustion() {
    let mut k = booted(64);
    // 63 words remain after the reserved word; idle took 16
    assert_eq!(k.create_thread(0x2000, 0, 64), Err(KernelError::OutOfMemory));
    assert_eq!(k.queue.len(), 1);
}

#[test]
fn boot_arms_first_switch_into_idle() {
    let k = booted(256);
    assert_eq!(k.queue.len(), 1);
    assert_eq!(k.queue[0].entry, IDLE);
    assert_eq!(k.queue[0].stack_pointer, 1);
    assert_eq!(k.service.switch_from_sp, 0);
    assert_eq!(k.service.switch_to_sp, 1);
    assert!(k.trigger.pending);
    assert_eq!(IDLE_STACK_WORDS, FRAME_WORDS);
}

#[test]
fn first_switch_enters_entry_with_exact_param() {
    // create a thread, perform the first switch into it, and observe the
    // entry point and argument in the resumed register state
    let mut k = booted(1024);
    k.create_thread(0x2000, 1234, 64).expect("fits");
    k.service.switch_from_sp = 0; // boot: no previous context
    k.service.switch_to_sp = k.queue[1].stack_pointer;
    k.trigger.pending = true;
    k.pend_sv();
    assert!(!k.trigger.pending);
    // the callee-saved window of a fresh thread is the poison pattern
    assert_eq!(k.regs.r4, POISON);
    assert_eq!(k.regs.r11, POISON);
    k.exception_return();
    assert_eq!(k.regs.pc, 0x2000);
    assert_eq!(k.regs.r0, 1234);
    assert_eq!(k.regs.xpsr, XPSR_THUMB);
}

#[test]
fn rotation_is_noop_with_single_thread() {
    // with exactly one thread ready, rotation leaves queue and schedule alone
    let mut k = booted(256);
    k.pend_sv();
    k.exception_return();
    let queue_before: Vec<_> = k.queue.iter().copied().collect();
    let service_before = k.service;
    let trigger_before = k.trigger;
    let regs_before = k.regs;
    k.schedule();
    let queue_after: Vec<_> = k.queue.iter().copied().collect();
    assert_eq!(queue_after, queue_before);
    assert_eq!(k.service, service_before);
    assert_eq!(k.trigger, trigger_before);
    assert_eq!(k.regs, regs_before);
}

#[test]
fn rotation_visits_threads_in_creation_order() {
    let mut k = booted(4096);
    k.create_thread(0x2000, 0, 64).expect("fits");
    k.create_thread(0x3000, 0, 64).expect("fits");
    k.create_thread(0x4000, 0, 64).expect("fits");
    let created_order = [IDLE, 0x2000, 0x3000, 0x4000];
    // four rotations: every thread is fronted exactly once, in creation
    // order, and the cycle closes back on the idle thread
    for step in 1..=8 {
        k.schedule();
        assert_eq!(k.queue[0].entry, created_order[step % 4]);
        assert!(k.trigger.pending);
        k.trigger.pending = false;
    }
}

#[test]
fn switch_request_with_equal_stack_pointers_never_arms() {
    let mut k = booted(256);
    k.pend_sv();
    k.exception_return();
    let regs_before = k.regs;
    k.service.switch_from_sp = 77;
    k.service.switch_to_sp = 77;
    let service = k.service;
    service.request_switch(&mut k.trigger);
    assert!(!k.trigger.pending);
    assert_eq!(k.regs, regs_before);
}

#[test]
fn switch_request_without_target_never_arms() {
    let mut k = Kernel::new(64);
    k.service.switch_from_sp = 0;
    k.service.switch_to_sp = 0;
    let service = k.service;
    service.request_switch(&mut k.trigger);
    assert!(!k.trigger.pending);
}

#[test]
fn switch_request_with_new_target_arms() {
    let mut k = Kernel::new(64);
    k.service.switch_from_sp = 5;
    k.service.switch_to_sp = 9;
    let service = k.service;
    service.request_switch(&mut k.trigger);
    assert!(k.trigger.pending);
}

#[test]
fn callee_saved_registers_survive_suspend_and_resume() {
    // two known threads; suspend the first with a recognizable register
    // window, run the second, switch back, and observe the exact window
    let mut k = booted(4096);
    k.create_thread(0x2000, 0, 64).expect("fits");
    // boot into idle
    k.pend_sv();
    k.exception_return();
    // idle now runs with a distinctive callee-saved window
    let window = [11, 22, 33, 44, 55, 66, 77, 88];
    k.regs.r4 = window[0];
    k.regs.r5 = window[1];
    k.regs.r6 = window[2];
    k.regs.r7 = window[3];
    k.regs.r8 = window[4];
    k.regs.r9 = window[5];
    k.regs.r10 = window[6];
    k.regs.r11 = window[7];
    // tick: switch idle out, the created thread in
    k.exception_entry();
    k.schedule();
    assert!(k.trigger.pending);
    k.pend_sv();
    k.exception_return();
    assert_eq!(k.regs.pc, 0x2000);
    assert_eq!(k.regs.r4, POISON); // all-or-nothing: fresh window loaded whole
    // tick: switch back to idle
    k.exception_entry();
    k.schedule();
    k.pend_sv();
    k.exception_return();
    let resumed = [
        k.regs.r4, k.regs.r5, k.regs.r6, k.regs.r7, k.regs.r8, k.regs.r9, k.regs.r10, k.regs.r11,
    ];
    assert_eq!(resumed, window);
}

#[test]
fn tick_driven_rotations_alternate_two_workers() {
    // thread A increments a shared counter once per slice, thread B
    // decrements it; drive tick-driven rotations and replay each slice's
    // work according to which thread the switch resumed
    let entry_a = 0x2000;
    let entry_b = 0x3000;
    let mut k = booted(4096);
    k.create_thread(entry_a, 0, 64).expect("fits");
    k.create_thread(entry_b, 0, 64).expect("fits");
    // boot into idle
    k.pend_sv();
    k.exception_return();
    let mut counter: i64 = 0;
    let mut resumed_order = Vec::new();
    let mut a_iterations = 0i64;
    let mut b_iterations = 0i64;
    for _ in 0..9 {
        // one slice of the running thread's work
        match k.regs.pc {
            pc if pc == entry_a => {
                counter += 1;
                a_iterations += 1;
            }
            pc if pc == entry_b => {
                counter -= 1;
                b_iterations += 1;
            }
            _ => {}
        }
        // tick: preempt, rotate, switch
        k.exception_entry();
        k.tick();
        if k.trigger.pending {
            k.pend_sv();
        }
        k.exception_return();
        resumed_order.push(k.regs.pc);
    }
    // strict alternation in creation order, idle included
    assert_eq!(
        resumed_order,
        vec![entry_a, entry_b, IDLE, entry_a, entry_b, IDLE, entry_a, entry_b, IDLE]
    );
    assert_eq!(counter, a_iterations - b_iterations);
    assert_eq!(a_iterations, 3);
    assert_eq!(b_iterations, 3);
}
