use vstd::prelude::*;

use crate::types::Kitty;

verus! {

/// One byte of offspring genome: each bit comes from `dna1` where the
/// selector bit is 0 and from `dna2` where it is 1.
pub open spec fn spec_combine_dna(dna1: u8, dna2: u8, selector: u8) -> u8 {
    (!selector & dna1) | (selector & dna2)
}

/// Combines one byte of each parent under a selector byte.
pub fn combine_dna(dna1: u8, dna2: u8, selector: u8) -> (r: u8)
    ensures
        r == spec_combine_dna(dna1, dna2, selector),
{
    (!selector & dna1) | (selector & dna2)
}

/// The offspring genome of two parents, position by position.
pub open spec fn spec_combine(g1: Seq<u8>, g2: Seq<u8>, selector: Seq<u8>) -> Seq<u8> {
    Seq::new(g1.len(), |i: int| spec_combine_dna(g1[i], g2[i], selector[i]))
}

/// Combines two parent kitties into an offspring under a selector mask.
pub fn combine(k1: &Kitty, k2: &Kitty, selector: &[u8; 16]) -> (r: Kitty)
    ensures
        r.0@ == spec_combine(k1.0@, k2.0@, selector@),
{
    let mut new_dna = [0u8; 16];
    let mut i: usize = 0;
    while i < 16
        invariant
            i <= 16,
            new_dna@.len() == 16,
            forall|j: int| 0 <= j < i ==> new_dna@[j] == spec_combine_dna(k1.0@[j], k2.0@[j], selector@[j]),
        decreases 16 - i,
    {
        new_dna[i] = combine_dna(k1.0[i], k2.0[i], selector[i]);
        i = i + 1;
    }
    let r = Kitty(new_dna);
    assert(r.0@ =~= spec_combine(k1.0@, k2.0@, selector@));
    r
}

/// Whether two kitties carry the same genome.
pub fn same_dna(k1: &Kitty, k2: &Kitty) -> (r: bool)
    ensures
        r == (k1.0@ == k2.0@),
{
    let mut i: usize = 0;
    while i < 16
        invariant
            i <= 16,
            k1.0@.len() == 16,
            k2.0@.len() == 16,
            forall|j: int| 0 <= j < i ==> k1.0@[j] == k2.0@[j],
        decreases 16 - i,
    {
        if k1.0[i] != k2.0[i] {
            return false;
        }
        i = i + 1;
    }
    assert(k1.0@ =~= k2.0@);
    true
}

} // verus!
