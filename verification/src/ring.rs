//! Positions in a ring: the arithmetic shared by the delay line and by the
//! gesture that walks its path in a loop.

use vstd::prelude::*;

verus! {

/// The position that follows `pos` in a ring of `len` places.
pub open spec fn ring_successor(pos: int, len: int) -> int {
    if pos + 1 >= len {
        0
    } else {
        pos + 1
    }
}

/// The position reached from `pos` by `k` steps round a ring of `len`
/// places.
pub open spec fn ring_advanced(pos: int, len: int, k: nat) -> int
    decreases k,
{
    if k == 0 {
        pos
    } else {
        ring_successor(ring_advanced(pos, len, (k - 1) as nat), len)
    }
}

/// An index less than one turn beyond the ring wraps by one subtraction.
pub proof fn lemma_ring_index(x: int, len: int)
    requires
        len > 0,
        0 <= x < 2 * len,
    ensures
        x % len == (if x >= len {
            x - len
        } else {
            x
        }),
{
    if x >= len {
        vstd::arithmetic::div_mod::lemma_mod_add_multiples_vanish(x - len, len);
        vstd::arithmetic::div_mod::lemma_small_mod((x - len) as nat, len as nat);
    } else {
        vstd::arithmetic::div_mod::lemma_small_mod(x as nat, len as nat);
    }
}

/// Stepping round the ring is counting modulo its length: `k` steps from
/// `pos` lead to `(pos + k) mod len`.
pub proof fn lemma_ring_advanced(pos: int, len: int, k: nat)
    requires
        0 <= pos < len,
    ensures
        ring_advanced(pos, len, k) == (pos + k) % len,
        0 <= ring_advanced(pos, len, k) < len,
    decreases k,
{
    if k == 0 {
        lemma_ring_index(pos, len);
    } else {
        lemma_ring_advanced(pos, len, (k - 1) as nat);
        let before = ring_advanced(pos, len, (k - 1) as nat);
        lemma_ring_index(before + 1, len);
        assert((before + 1) % len == (pos + k) % len) by {
            vstd::arithmetic::div_mod::lemma_add_mod_noop(pos + k - 1, 1, len);
            vstd::arithmetic::div_mod::lemma_mod_twice(pos + k - 1, len);
            vstd::arithmetic::div_mod::lemma_add_mod_noop(before, 1, len);
        }
    }
}

} // verus!
