use vstd::prelude::*;

use crate::dna::{spec_combine, spec_combine_dna};
use crate::pallet::PalletView;
use crate::types::{AccountId, Balance, KittyIndex};

verus! {

/// `post` follows `pre` by a successful `create` or `breed`; the id handed
/// out by that call is `pre.next_kitty_id`.
pub open spec fn issues_next(pre: PalletView, post: PalletView) -> bool {
    ||| exists|who: AccountId, dna: [u8; 16]| post == pre.created(who, dna)
    ||| exists|who: AccountId, id1: KittyIndex, id2: KittyIndex, selector: Seq<u8>|
        post == pre.bred(who, id1, id2, selector)
}

proof fn lemma_issue_advances(pre: PalletView, post: PalletView)
    requires
        issues_next(pre, post),
    ensures
        post.next_kitty_id == pre.next_kitty_id + 1,
{
    if exists|who: AccountId, dna: [u8; 16]| post == pre.created(who, dna) {
        let (who, dna) = choose|who: AccountId, dna: [u8; 16]| post == pre.created(who, dna);
        assert(post == pre.created(who, dna));
    } else {
        let (who, id1, id2, selector) = choose|who: AccountId, id1: KittyIndex, id2: KittyIndex, selector: Seq<u8>|
            post == pre.bred(who, id1, id2, selector);
        assert(post == pre.bred(who, id1, id2, selector));
    }
}

/// `post` follows `pre` by any successful call: an issuance, a transfer to
/// another account, a price update, a sale, forgetting the events, or a
/// call that changes nothing (a transfer to oneself).
pub open spec fn steps_next(pre: PalletView, post: PalletView) -> bool {
    ||| issues_next(pre, post)
    ||| post == pre
    ||| post == (PalletView { events: Seq::empty(), ..pre })
    ||| exists|who: AccountId, to: AccountId, id: KittyIndex| post == pre.transferred(who, to, id)
    ||| exists|who: AccountId, id: KittyIndex, p: Option<Balance>| post == pre.priced(who, id, p)
    ||| exists|who: AccountId, owner: AccountId, id: KittyIndex, price: Balance|
        post == pre.sold(who, owner, id, price)
}

proof fn lemma_step_keeps_counter(pre: PalletView, post: PalletView)
    requires
        steps_next(pre, post),
    ensures
        post.next_kitty_id >= pre.next_kitty_id,
{
    if issues_next(pre, post) {
        lemma_issue_advances(pre, post);
    } else if exists|who: AccountId, to: AccountId, id: KittyIndex| post == pre.transferred(who, to, id) {
        let (who, to, id) = choose|who: AccountId, to: AccountId, id: KittyIndex| post == pre.transferred(who, to, id);
        assert(post == pre.transferred(who, to, id));
    } else if exists|who: AccountId, id: KittyIndex, p: Option<Balance>| post == pre.priced(who, id, p) {
        let (who, id, p) = choose|who: AccountId, id: KittyIndex, p: Option<Balance>| post == pre.priced(who, id, p);
        assert(post == pre.priced(who, id, p));
    } else if exists|who: AccountId, owner: AccountId, id: KittyIndex, price: Balance|
        post == pre.sold(who, owner, id, price) {
        let (who, owner, id, price) = choose|who: AccountId, owner: AccountId, id: KittyIndex, price: Balance|
            post == pre.sold(who, owner, id, price);
        assert(post == pre.sold(who, owner, id, price));
    }
}

proof fn lemma_counter_grows(states: Seq<PalletView>, i: int, j: int)
    requires
        0 <= i <= j < states.len(),
        forall|k: int| 0 <= k < states.len() - 1 ==> steps_next(#[trigger] states[k], states[k + 1]),
    ensures
        states[i].next_kitty_id <= states[j].next_kitty_id,
    decreases j - i,
{
    if i < j {
        lemma_counter_grows(states, i, j - 1);
        lemma_step_keeps_counter(states[j - 1], states[j]);
    }
}

/// Over any run of successful calls, the ids that `create` and `breed`
/// hand out (`states[i].next_kitty_id` for an issuing step `i`) are
/// pairwise distinct and strictly increasing in the order issued.
pub proof fn lemma_issued_ids_increase(states: Seq<PalletView>)
    requires
        forall|k: int| 0 <= k < states.len() - 1 ==> steps_next(#[trigger] states[k], states[k + 1]),
    ensures
        forall|i: int, j: int|
            0 <= i < j < states.len() - 1 && issues_next(states[i], states[i + 1]) && issues_next(states[j], states[j + 1])
                ==> #[trigger] states[i].next_kitty_id < #[trigger] states[j].next_kitty_id,
{
    assert forall|i: int, j: int|
        0 <= i < j < states.len() - 1 && issues_next(states[i], states[i + 1]) && issues_next(states[j], states[j + 1])
            implies #[trigger] states[i].next_kitty_id < #[trigger] states[j].next_kitty_id by {
        lemma_issue_advances(states[i], states[i + 1]);
        lemma_counter_grows(states, i + 1, j);
    }
}

/// In a well-formed state every issued id has exactly one owner, and an id
/// not yet issued has none.
pub proof fn lemma_single_ownership(s: PalletView, id: KittyIndex)
    requires
        s.wf(),
    ensures
        id < s.next_kitty_id ==> exists|a: AccountId| s.owns(a, id),
        forall|a: AccountId, b: AccountId| s.owns(a, id) && s.owns(b, id) ==> a == b,
        id >= s.next_kitty_id ==> forall|a: AccountId| !s.owns(a, id),
{
    if id < s.next_kitty_id {
        assert(s.owns(s.entries[id as int].owner, id));
    }
}

/// Breeding depends on the parents' genomes and the selector alone: equal
/// genomes and an equal selector give the same offspring.
pub proof fn lemma_breed_deterministic(
    s: PalletView,
    t: PalletView,
    a1: KittyIndex,
    a2: KittyIndex,
    b1: KittyIndex,
    b2: KittyIndex,
    selector: Seq<u8>,
)
    requires
        a1 < s.entries.len(),
        a2 < s.entries.len(),
        b1 < t.entries.len(),
        b2 < t.entries.len(),
        s.entries[a1 as int].kitty == t.entries[b1 as int].kitty,
        s.entries[a2 as int].kitty == t.entries[b2 as int].kitty,
    ensures
        s.offspring(a1, a2, selector) == t.offspring(b1, b2, selector),
{
}

/// An all-zero selector gives the first parent's genome, and an all-one
/// selector the second's.
pub proof fn lemma_combine_masks(g1: Seq<u8>, g2: Seq<u8>)
    requires
        g1.len() == g2.len(),
    ensures
        spec_combine(g1, g2, Seq::new(g1.len(), |i: int| 0u8)) == g1,
        spec_combine(g1, g2, Seq::new(g1.len(), |i: int| 0xffu8)) == g2,
{
    assert forall|a: u8, b: u8| #[trigger] spec_combine_dna(a, b, 0u8) == a by {
        assert((!0u8 & a) | (0u8 & b) == a) by (bit_vector);
    }
    assert forall|a: u8, b: u8| #[trigger] spec_combine_dna(a, b, 0xffu8) == b by {
        assert((!0xffu8 & a) | (0xffu8 & b) == b) by (bit_vector);
    }
    assert(spec_combine(g1, g2, Seq::new(g1.len(), |i: int| 0u8)) =~= g1);
    assert(spec_combine(g1, g2, Seq::new(g1.len(), |i: int| 0xffu8)) =~= g2);
}

} // verus!
