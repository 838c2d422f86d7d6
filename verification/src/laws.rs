//! The kernel's scheduling and switching laws: round-robin rotation and its
//! fairness, and the all-or-nothing character of a context switch, stated
//! over the spec-level models that the executable contracts use.

use vstd::prelude::*;
use vstd::arithmetic::div_mod::lemma_mod_multiples_vanish;
use vstd::arithmetic::div_mod::lemma_small_mod;
use crate::frame::XPSR_THUMB;
use crate::frame::frame_words;
use crate::memory::load_words;
use crate::memory::store_words;

verus! {

/// One ready-queue rotation: with two or more entries the front moves to
/// the back and the next entry becomes the front; with fewer it is a no-op.
pub open spec fn rotate1<A>(q: Seq<A>) -> Seq<A> {
    if q.len() < 2 {
        q
    } else {
        q.subrange(1, q.len() as int).push(q[0])
    }
}

/// `k` rotations in a row.
pub open spec fn rotate_n<A>(q: Seq<A>, k: nat) -> Seq<A>
    decreases k,
{
    if k == 0 {
        q
    } else {
        rotate1(rotate_n(q, (k - 1) as nat))
    }
}

/// Rotation only rearranges: after `k` rotations, the entry at position
/// `i` is the one that started `k` places later, cyclically.
pub proof fn lemma_rotate_n_index<A>(q: Seq<A>, k: nat, i: int)
    requires
        q.len() >= 1,
        0 <= i < q.len(),
    ensures
        rotate_n(q, k).len() == q.len(),
        rotate_n(q, k)[i] == q[(i + k) % (q.len() as int)],
    decreases k,
{
    let len = q.len() as int;
    if k == 0 {
        lemma_small_mod(i as nat, q.len());
    } else {
        let prev = rotate_n(q, (k - 1) as nat);
        assert forall|j: int| 0 <= j < len implies prev[j] == q[(j + (k - 1)) % len] by {
            lemma_rotate_n_index(q, (k - 1) as nat, j);
        }
        lemma_rotate_n_index(q, (k - 1) as nat, 0);
        if len == 1 {
            assert(rotate_n(q, k) == prev);
            assert((i + k) % len == 0) by {
                lemma_mod_multiples_vanish(i + k, 0, 1);
            }
            assert((i + (k - 1)) % len == 0) by {
                lemma_mod_multiples_vanish(i + (k - 1), 0, 1);
            }
        } else {
            assert(rotate_n(q, k) == prev.subrange(1, len).push(prev[0]));
            if i < len - 1 {
                assert(rotate_n(q, k)[i] == prev[i + 1]);
                assert(prev[i + 1] == q[(i + 1 + (k - 1)) % len]);
                assert(i + 1 + (k - 1) == i + k);
            } else {
                assert(rotate_n(q, k)[i] == prev[0]);
                assert(prev[0] == q[(k - 1) % len]);
                assert((i + k) % len == (k - 1) % len) by {
                    assert(i + k == len + (k - 1));
                    lemma_mod_multiples_vanish(1, k - 1, len);
                }
            }
        }
    }
}

/// Round-robin fairness: starting from creation order, the thread at the
/// front after `k` rotations is the one created `k` places along,
/// cyclically — so a full cycle of as many rotations as there are threads
/// schedules every thread exactly once, in creation order.
pub proof fn lemma_round_robin_fairness<A>(q: Seq<A>, k: nat)
    requires
        q.len() >= 1,
    ensures
        rotate_n(q, k).len() == q.len(),
        rotate_n(q, k)[0] == q[(k % q.len()) as int],
{
    lemma_rotate_n_index(q, k, 0);
    assert((0 + k as int) % (q.len() as int) == (k % q.len()) as int);
}

/// Within one full cycle, the `k`-th rotation fronts exactly the `k`-th
/// entry of the starting order: no thread is repeated or skipped before
/// the cycle closes.
pub proof fn lemma_full_cycle_fronts_in_order<A>(q: Seq<A>, k: nat)
    requires
        1 <= q.len(),
        k < q.len(),
    ensures
        rotate_n(q, k)[0] == q[k as int],
{
    lemma_round_robin_fairness(q, k);
    lemma_small_mod(k, q.len());
}

/// After one full cycle of rotations the queue is back in creation order.
pub proof fn lemma_round_robin_full_cycle<A>(q: Seq<A>)
    requires
        q.len() >= 1,
    ensures
        rotate_n(q, q.len()) == q,
{
    let len = q.len() as int;
    assert forall|i: int| 0 <= i < len implies rotate_n(q, q.len())[i] == q[i] by {
        lemma_rotate_n_index(q, q.len(), i);
        assert((i + len) % len == i) by {
            lemma_mod_multiples_vanish(1, i, len);
            lemma_small_mod(i as nat, q.len());
        }
    }
    lemma_rotate_n_index(q, q.len(), 0);
    assert(rotate_n(q, q.len()) =~= q);
}

/// Loading a block gives back exactly what was stored there.
pub proof fn lemma_store_load_roundtrip(m: Seq<u32>, a: int, ws: Seq<u32>)
    requires
        0 <= a,
        a + ws.len() <= m.len(),
    ensures
        load_words(store_words(m, a, ws), a, ws.len() as int) == ws,
{
    assert(load_words(store_words(m, a, ws), a, ws.len() as int) =~= ws);
}

/// A store to a disjoint block leaves a saved block untouched.
pub proof fn lemma_disjoint_store_preserves(m: Seq<u32>, a: int, n: int, b: int, ws: Seq<u32>)
    requires
        0 <= a,
        0 <= n,
        a + n <= m.len(),
        0 <= b,
        b + ws.len() <= m.len(),
        b + ws.len() <= a || a + n <= b,
    ensures
        load_words(store_words(m, b, ws), a, n) == load_words(m, a, n),
{
    assert(load_words(store_words(m, b, ws), a, n) =~= load_words(m, a, n));
}

/// A context switch is all-or-nothing: if a thread's eight callee-saved
/// registers were stored at its suspend point, then — whatever later
/// memory the machine reaches, as long as that saved block is untouched —
/// the registers loaded at resume are exactly the registers it held when
/// it was suspended.
pub proof fn lemma_context_switch_atomic(
    m: Seq<u32>,
    sp: int,
    saved: Seq<u32>,
    later: Seq<u32>,
)
    requires
        saved.len() == 8,
        0 <= sp,
        sp + 8 <= m.len(),
        later.len() == m.len(),
        load_words(later, sp, 8) == load_words(store_words(m, sp, saved), sp, 8),
    ensures
        load_words(later, sp, 8) == saved,
{
    lemma_store_load_roundtrip(m, sp, saved);
}

/// The first switch into a fresh thread resumes into its entry function:
/// in the frame written at thread creation, the eight words that the
/// hardware pops on exception return carry the thread's argument in the
/// first argument register, its entry point in the program counter, and a
/// status register marking Thumb mode.
pub proof fn lemma_first_switch_enters_entry(m: Seq<u32>, sp: int, entry: u32, param: u32)
    requires
        0 <= sp,
        sp + 16 <= m.len(),
    ensures
        ({
            let written = store_words(m, sp, frame_words(entry, param));
            &&& load_words(written, sp + 8, 8) == seq![param, 0u32, 0u32, 0u32, 0u32, 0u32, entry, XPSR_THUMB]
            &&& written[sp + 8] == param
            &&& written[sp + 14] == entry
            &&& written[sp + 15] == XPSR_THUMB
        }),
{
    let written = store_words(m, sp, frame_words(entry, param));
    assert(load_words(written, sp + 8, 8) =~= seq![param, 0u32, 0u32, 0u32, 0u32, 0u32, entry, XPSR_THUMB]);
}

} // verus!
