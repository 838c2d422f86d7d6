use minikernel::frame::{ExceptionFrame, StackFrame, POISON, XPSR_THUMB};

#[test]
fn fresh_frame_has_poisoned_callee_saved_registers() {
    let f = StackFrame::new(0x2000, 41);
    assert_eq!(f.r4, POISON);
    assert_eq!(f.r5, POISON);
    assert_eq!(f.r6, POISON);
    assert_eq!(f.r7, POISON);
    assert_eq!(f.r8, POISON);
    assert_eq!(f.r9, POISON);
    assert_eq!(f.r10, POISON);
    assert_eq!(f.r11, POISON);
}

#[test]
fn fresh_frame_enters_entry_with_param_in_thumb_mode() {
    let f = StackFrame::new(0x2000, 41);
    assert_eq!(
        f.exception_stack_frame,
        ExceptionFrame {
            r0: 41,
            r1: 0,
            r2: 0,
            r3: 0,
            r12: 0,
            lr: 0,
            pc: 0x2000,
            xpsr: XPSR_THUMB,
        }
    );
    assert_eq!(XPSR_THUMB, 0x0100_0000);
    assert_eq!(POISON, 0xdead_beef);
}
