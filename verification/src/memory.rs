//! The kernel's word-addressed memory: spec-level block stores and loads,
//! the executable block writer the switch paths use, and the diagnostic for
//! allocation failure. Word zero is reserved so that a stack-pointer value
//! of zero can mean "none".

use vstd::prelude::*;
use vstd::pervasive::VecAdditionalExecFns;
use crate::text::dec_digits;
use crate::text::push_dec;

verus! {

/// `m` with the words of `ws` written at addresses `a ..= a + ws.len() - 1`.
pub open spec fn store_words(m: Seq<u32>, a: int, ws: Seq<u32>) -> Seq<u32> {
    Seq::new(m.len(), |i: int| if a <= i < a + ws.len() { ws[i - a] } else { m[i] })
}

/// The `n` words of `m` at addresses `a ..= a + n - 1`.
pub open spec fn load_words(m: Seq<u32>, a: int, n: int) -> Seq<u32> {
    m.subrange(a, a + n)
}

/// Write `ws` into `mem` starting at word address `at`.
pub fn write_words(mem: &mut Vec<u32>, at: usize, ws: &Vec<u32>)
    requires
        at + old(mem).len() >= at,
        at + ws.len() <= old(mem).len(),
    ensures
        final(mem)@ == store_words(old(mem)@, at as int, ws@),
{
    let mut i: usize = 0;
    while i < ws.len()
        invariant
            at + ws.len() <= mem.len(),
            i <= ws.len(),
            mem.len() == old(mem).len(),
            mem@ == store_words(old(mem)@, at as int, ws@.subrange(0, i as int)),
        decreases ws.len() - i,
    {
        mem.set(at + i, ws[i]);
        proof {
            assert(mem@ =~= store_words(old(mem)@, at as int, ws@.subrange(0, i + 1)));
        }
        i = i + 1;
    }
    proof {
        assert(ws@.subrange(0, ws.len() as int) =~= ws@);
    }
}

/// The diagnostic text reported when a stack allocation of `size` words
/// with alignment `align` cannot be satisfied.
pub open spec fn alloc_error_text(size: nat, align: nat) -> Seq<char> {
    seq!['A', 'l', 'l', 'o', 'c', ' ', 'o', 'f', ' '] + dec_digits(size)
        + seq![' ', 'w', 'o', 'r', 'd', 's', ',', ' ', 'a', 'l', 'i', 'g', 'n', ' ']
        + dec_digits(align) + seq![' ', 'f', 'a', 'i', 'l', 'e', 'd', '!']
}

/// Render the fatal allocation-failure diagnostic: the failing size and
/// alignment, spelled out. Allocation failure is unrecoverable, so the
/// caller reports this text and halts.
pub fn alloc_error(size: usize, align: usize) -> (text: Vec<char>)
    ensures
        text@ == alloc_error_text(size as nat, align as nat),
{
    let mut text: Vec<char> = Vec::new();
    text.push('A');
    text.push('l');
    text.push('l');
    text.push('o');
    text.push('c');
    text.push(' ');
    text.push('o');
    text.push('f');
    text.push(' ');
    push_dec(&mut text, size);
    text.push(' ');
    text.push('w');
    text.push('o');
    text.push('r');
    text.push('d');
    text.push('s');
    text.push(',');
    text.push(' ');
    text.push('a');
    text.push('l');
    text.push('i');
    text.push('g');
    text.push('n');
    text.push(' ');
    push_dec(&mut text, align);
    text.push(' ');
    text.push('f');
    text.push('a');
    text.push('i');
    text.push('l');
    text.push('e');
    text.push('d');
    text.push('!');
    proof {
        assert(text@ =~= alloc_error_text(size as nat, align as nat));
    }
    text
}

} // verus!
