use minikernel::memory::alloc_error;
use minikernel::thread::SimpleThread;

#[test]
fn alloc_error_reports_failing_size_and_alignment() {
    let text: String = alloc_error(64, 8).into_iter().collect();
    assert_eq!(text, "Alloc of 64 words, align 8 failed!");
}

#[test]
fn alloc_error_renders_zero_and_large_sizes() {
    let text: String = alloc_error(0, 1).into_iter().collect();
    assert_eq!(text, "Alloc of 0 words, align 1 failed!");
    let text: String = alloc_error(1048576, 4096).into_iter().collect();
    assert_eq!(text, "Alloc of 1048576 words, align 4096 failed!");
}

#[test]
fn thread_description_uses_hexadecimal_addresses() {
    let t = SimpleThread {
        stack_pointer: 0x30,
        entry: 0x2000,
        param: 0,
        stack: 0x10,
    };
    let text: String = t.describe().into_iter().collect();
    assert_eq!(text, "Thread which sp:0x30, stack:0x10");
}

#[test]
fn thread_description_of_wide_addresses() {
    let t = SimpleThread {
        stack_pointer: 0xdead_beef,
        entry: 0,
        param: 0,
        stack: 0,
    };
    let text: String = t.describe().into_iter().collect();
    assert_eq!(text, "Thread which sp:0xdeadbeef, stack:0x0");
}
