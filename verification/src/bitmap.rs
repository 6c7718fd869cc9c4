//! A sixteen-bit bitmap read as a finite set of small indices.
//!
//! The game keeps the teeth that were already resolved in a `u16`. Everything
//! the rest of the crate says about that word is said over [`members`], the
//! set of indices whose bit is set, and [`popcount`], the size of that set.

use vstd::prelude::*;
use vstd::set_lib::*;

verus! {

/// Number of bits in the bitmap, and so the largest number of teeth a game can have.
pub const BITMAP_WIDTH: u8 = 16;

/// Bit `i` of `bits` is set. False for every `i` outside `0..16`.
pub open spec fn bit_is_set(bits: u16, i: int) -> bool {
    0 <= i < 16 && (bits & (1u16 << (i as u16))) != 0
}

/// The indices whose bit is set in `bits`.
pub open spec fn members(bits: u16) -> Set<int> {
    Set::new(|i: int| bit_is_set(bits, i))
}

/// The population count of `bits`: how many indices are members.
pub open spec fn popcount(bits: u16) -> nat {
    members(bits).len()
}

/// The members of `bits` below `bound`.
pub open spec fn members_below(bits: u16, bound: int) -> Set<int> {
    Set::new(|i: int| i < bound && bit_is_set(bits, i))
}

/// Every member of `bits` is below `bound`.
pub open spec fn within(bits: u16, bound: int) -> bool {
    forall|i: int| bit_is_set(bits, i) ==> i < bound
}

/// The members of any bitmap form a finite set of at most sixteen indices.
pub proof fn lemma_members_finite(bits: u16)
    ensures
        members(bits).finite(),
        popcount(bits) <= 16,
{
    lemma_int_range(0, 16);
    lemma_len_subset(members(bits), set_int_range(0, 16));
}

/// The empty bitmap has no members.
pub proof fn lemma_members_of_zero()
    ensures
        forall|i: int| !bit_is_set(0u16, i),
        members(0u16) =~= Set::<int>::empty(),
        popcount(0u16) == 0,
{
    assert forall|i: int| !bit_is_set(0u16, i) by {
        if 0 <= i < 16 {
            let s: u16 = i as u16;
            assert((0u16 & (1u16 << s)) == 0) by (bit_vector);
        }
    }
}

/// Setting bit `i` adds exactly the index `i` to the members.
pub proof fn lemma_members_after_set(bits: u16, i: u8)
    requires
        i < 16,
    ensures
        forall|j: int| #[trigger]
            bit_is_set(bits | (1u16 << i), j) == (bit_is_set(bits, j) || j == i),
        members(bits | (1u16 << i)) =~= members(bits).insert(i as int),
        popcount(bits | (1u16 << i)) == popcount(bits) + (if bit_is_set(bits, i as int) {
            0nat
        } else {
            1nat
        }),
{
    let after: u16 = bits | (1u16 << i);
    assert forall|j: int| bit_is_set(after, j) == (bit_is_set(bits, j) || j == i) by {
        if 0 <= j < 16 {
            let s: u16 = j as u16;
            let t: u16 = i as u16;
            assert(((bits | (1u16 << t)) & (1u16 << s)) != 0 <==> ((bits & (1u16 << s)) != 0 || s
                == t)) by (bit_vector)
                requires
                    s < 16,
                    t < 16,
            ;
            assert((1u16 << i) == (1u16 << t)) by (bit_vector)
                requires
                    t == i,
            ;
        }
    }
    lemma_members_finite(bits);
}

/// A bitmap whose members all lie below `bound` has at most `bound` of them.
pub proof fn lemma_popcount_within(bits: u16, bound: int)
    requires
        0 <= bound,
        within(bits, bound),
    ensures
        popcount(bits) <= bound,
{
    lemma_int_range(0, bound);
    lemma_len_subset(members(bits), set_int_range(0, bound));
}

/// A bitmap whose members all lie below `bound`, and which misses one index
/// below `bound`, has fewer than `bound` members.
pub proof fn lemma_popcount_with_gap(bits: u16, bound: int, gap: int)
    requires
        0 <= gap < bound,
        within(bits, bound),
        !bit_is_set(bits, gap),
    ensures
        popcount(bits) < bound,
{
    lemma_int_range(0, bound);
    let rest = set_int_range(0, bound).remove(gap);
    lemma_len_subset(members(bits), rest);
}

/// The mask with only bit `i` set.
pub fn mask(i: u8) -> (m: u16)
    requires
        i < 16,
    ensures
        m == 1u16 << i,
        members(m) =~= set![i as int],
{
    proof {
        lemma_members_of_zero();
        lemma_members_after_set(0u16, i);
        assert((0u16 | (1u16 << i)) == (1u16 << i)) by (bit_vector);
    }
    1u16 << i
}

/// Whether index `i` is a member of `bits`. An index beyond the width of the
/// bitmap is never a member.
pub fn contains(bits: u16, i: u8) -> (r: bool)
    ensures
        r == members(bits).contains(i as int),
{
    if i < BITMAP_WIDTH {
        (bits & mask(i)) != 0
    } else {
        false
    }
}

/// `bits` with index `i` added to its members.
pub fn with_member(bits: u16, i: u8) -> (r: u16)
    requires
        i < 16,
    ensures
        r == bits | (1u16 << i),
        members(r) =~= members(bits).insert(i as int),
{
    proof {
        lemma_members_after_set(bits, i);
    }
    bits | mask(i)
}

/// Whether every member of `bits` lies below `bound`.
pub fn all_below(bits: u16, bound: u8) -> (r: bool)
    ensures
        r == within(bits, bound as int),
{
    let mut i: u8 = 0;
    while i < BITMAP_WIDTH
        invariant
            i <= 16,
            forall|j: int| 0 <= j < i && bit_is_set(bits, j) ==> j < bound,
        decreases 16 - i,
    {
        if i >= bound && contains(bits, i) {
            return false;
        }
        i = i + 1;
    }
    true
}

/// Counts the members of `bits`.
pub fn count(bits: u16) -> (n: u8)
    ensures
        n == popcount(bits),
{
    let mut n: u8 = 0;
    let mut i: u8 = 0;
    proof {
        assert(members_below(bits, 0) =~= Set::<int>::empty());
    }
    while i < BITMAP_WIDTH
        invariant
            i <= 16,
            n <= i,
            n == members_below(bits, i as int).len(),
            members_below(bits, i as int).finite(),
        decreases 16 - i,
    {
        let hit = contains(bits, i);
        proof {
            let before = members_below(bits, i as int);
            let after = members_below(bits, i + 1);
            if hit {
                assert(after =~= before.insert(i as int));
            } else {
                assert(after =~= before);
            }
        }
        if hit {
            n = n + 1;
        }
        i = i + 1;
    }
    proof {
        assert(members_below(bits, 16) =~= members(bits));
    }
    n
}

} // verus!
