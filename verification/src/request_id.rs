//! Request identifiers: a counter that starts at zero and wraps around.

use vstd::prelude::*;

verus! {

/// The identifier that is handed out `steps` allocations after `start`.
pub open spec fn id_after(start: u64, steps: nat) -> u64 {
    ((start as nat + steps) % 0x1_0000_0000_0000_0000) as u64
}

/// The source of request identifiers.
///
/// It holds the identifier that the next allocation hands out. A counter
/// cannot be copied: whoever allocates holds it exclusively, so that two
/// allocations never see the same state.
#[derive(Debug, PartialEq, Eq, Structural)]
pub struct RequestIdCounter {
    next: u64,
}

impl RequestIdCounter {
    /// The identifier that the next allocation hands out.
    pub closed spec fn upcoming(self) -> u64 {
        self.next
    }

    /// A counter whose first identifier is zero.
    pub fn new() -> (counter: Self)
        ensures
            counter.upcoming() == 0,
    {
        RequestIdCounter { next: 0 }
    }

    /// A counter whose first identifier is `first`.
    pub fn starting_at(first: u64) -> (counter: Self)
        ensures
            counter.upcoming() == first,
    {
        RequestIdCounter { next: first }
    }

    /// The identifier that the next allocation hands out.
    pub fn peek(&self) -> (id: u64)
        ensures
            id == self.upcoming(),
    {
        self.next
    }
}

impl Default for RequestIdCounter {
    fn default() -> (counter: Self)
        ensures
            counter.upcoming() == 0,
    {
        RequestIdCounter::new()
    }
}

/// Hands out the upcoming identifier and advances the counter by one,
/// wrapping to zero after `u64::MAX`.
pub fn next_id(counter: &mut RequestIdCounter) -> (id: u64)
    ensures
        id == old(counter).upcoming(),
        final(counter).upcoming() == id_after(id, 1),
{
    let id: u64 = counter.next;
    counter.next = id.wrapping_add(1);
    id
}

/// Two allocations in a row hand out consecutive identifiers: the second is
/// one more than the first, or zero when the first was `u64::MAX`.
pub proof fn lemma_consecutive_ids(first: u64)
    ensures
        first < u64::MAX ==> id_after(first, 1) == first + 1,
        first == u64::MAX ==> id_after(first, 1) == 0,
        id_after(first, 1) != first,
{
}

/// Allocating `m` times and then `n` times is allocating `m + n` times.
pub proof fn lemma_id_after_composes(start: u64, m: nat, n: nat)
    ensures
        id_after(id_after(start, m), n) == id_after(start, m + n),
{
    let modulus: int = 0x1_0000_0000_0000_0000;
    vstd::arithmetic::div_mod::lemma_add_mod_noop_right(n as int, start as int + m as int, modulus);
}

/// Short of the wrap-around, identifiers strictly increase.
pub proof fn lemma_ids_increase(start: u64, steps: nat)
    requires
        0 < steps,
        start + steps <= u64::MAX,
    ensures
        id_after(start, steps) == start + steps,
        id_after(start, steps) > start,
{
}

/// No identifier is handed out twice within `2^64` allocations.
pub proof fn lemma_ids_distinct(start: u64, i: nat, j: nat)
    requires
        i < j,
        j - i < 0x1_0000_0000_0000_0000,
    ensures
        id_after(start, i) != id_after(start, j),
{
    let modulus: int = 0x1_0000_0000_0000_0000;
    let a: int = start as int + i as int;
    let b: int = start as int + j as int;
    if a % modulus == b % modulus {
        vstd::arithmetic::div_mod::lemma_fundamental_div_mod(a, modulus);
        vstd::arithmetic::div_mod::lemma_fundamental_div_mod(b, modulus);
        let qa: int = a / modulus;
        let qb: int = b / modulus;
        assert(b - a == modulus * (qb - qa)) by (nonlinear_arith)
            requires
                a == modulus * qa + a % modulus,
                b == modulus * qb + b % modulus,
                a % modulus == b % modulus,
        ;
        assert(false) by (nonlinear_arith)
            requires
                0 < b - a < modulus,
                b - a == modulus * (qb - qa),
        ;
    }
}

} // verus!
