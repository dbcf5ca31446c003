use vstd::prelude::*;

use crate::dna::{combine, same_dna, spec_combine};
use crate::random::{blake2_128_of, random_value, spec_payload};
use crate::types::{AccountId, Balance, Error, Event, Kitty, KittyIndex};

verus! {

/// The largest kitty id the allocator can hold.
pub const MAX_KITTY_INDEX: KittyIndex = 0xffff_ffff;

/// What the store holds for one issued kitty: its owner, its genome and
/// its listing. Each issued id has exactly one entry, so exactly one owner.
#[derive(Clone, Copy, Debug, PartialEq, Eq)]
pub struct Entry {
    pub owner: AccountId,
    pub kitty: Kitty,
    pub price: Option<Balance>,
}

/// The runtime around the pallet: the currency that `buy` pays through.
pub trait Config {
    /// Moves `value` from `source` to `dest`, keeping `source` above its
    /// minimum balance, or refuses and moves nothing.
    fn transfer(&mut self, source: AccountId, dest: AccountId, value: Balance) -> Result<(), Error>;
}

/// The abstract state: the entry of each issued id (the id is the
/// position), the allocator counter, and the events recorded so far.
pub ghost struct PalletView {
    pub entries: Seq<Entry>,
    pub next_kitty_id: nat,
    pub events: Seq<Event>,
}

impl PalletView {
    /// The counter equals the number of issued kitties and fits the id type.
    pub open spec fn wf(self) -> bool {
        &&& self.entries.len() == self.next_kitty_id
        &&& self.next_kitty_id <= MAX_KITTY_INDEX
    }

    /// `who` owns kitty `id`.
    pub open spec fn owns(self, who: AccountId, id: KittyIndex) -> bool {
        id < self.entries.len() && self.entries[id as int].owner == who
    }

    /// The kitty stored under `(who, id)`, if `who` owns `id`.
    pub open spec fn kitty_of(self, who: AccountId, id: KittyIndex) -> Option<Kitty> {
        if self.owns(who, id) {
            Some(self.entries[id as int].kitty)
        } else {
            None
        }
    }

    /// The asking price of kitty `id`, if it is listed.
    pub open spec fn price_of(self, id: KittyIndex) -> Option<Balance> {
        if id < self.entries.len() {
            self.entries[id as int].price
        } else {
            None
        }
    }

    /// The state after `who` is handed a new kitty under the next id.
    pub open spec fn issued(self, who: AccountId, kitty: Kitty, ev: Event) -> PalletView {
        PalletView {
            entries: self.entries.push(Entry { owner: who, kitty, price: None }),
            next_kitty_id: self.next_kitty_id + 1,
            events: self.events.push(ev),
        }
    }

    /// The state after a successful `create` by `who` with genome `dna`.
    pub open spec fn created(self, who: AccountId, dna: [u8; 16]) -> PalletView {
        let k = Kitty(dna);
        self.issued(who, k, Event::KittyCreated(who, self.next_kitty_id as KittyIndex, k))
    }

    /// The offspring of kitties `id1` and `id2` under `selector`.
    pub open spec fn offspring(self, id1: KittyIndex, id2: KittyIndex, selector: Seq<u8>) -> Seq<u8> {
        spec_combine(self.entries[id1 as int].kitty.0@, self.entries[id2 as int].kitty.0@, selector)
    }

    /// The state after a successful `breed` by `who`.
    pub open spec fn bred(self, who: AccountId, id1: KittyIndex, id2: KittyIndex, selector: Seq<u8>) -> PalletView {
        let k = Kitty(dna_array(self.offspring(id1, id2, selector)));
        self.issued(who, k, Event::KittyBred(who, self.next_kitty_id as KittyIndex, k))
    }

    /// The state after kitty `id` passes to `to`, its listing cleared.
    pub open spec fn moved(self, to: AccountId, id: KittyIndex, ev: Event) -> PalletView {
        PalletView {
            entries: self.entries.update(id as int, Entry { owner: to, kitty: self.entries[id as int].kitty, price: None }),
            next_kitty_id: self.next_kitty_id,
            events: self.events.push(ev),
        }
    }

    /// The state after a successful `transfer` of `id` from `who` to `to`, `who != to`.
    pub open spec fn transferred(self, who: AccountId, to: AccountId, id: KittyIndex) -> PalletView {
        self.moved(to, id, Event::KittyTransferred(who, to, id))
    }

    /// The state after `who` sets the listing of `id` to `new_price`.
    pub open spec fn priced(self, who: AccountId, id: KittyIndex, new_price: Option<Balance>) -> PalletView {
        PalletView {
            entries: self.entries.update(id as int, Entry { price: new_price, ..self.entries[id as int] }),
            next_kitty_id: self.next_kitty_id,
            events: self.events.push(Event::KittyPriceUpdated(who, id, new_price)),
        }
    }

    /// The state after `who` buys `id` from `owner` at `price`.
    pub open spec fn sold(self, who: AccountId, owner: AccountId, id: KittyIndex, price: Balance) -> PalletView {
        self.moved(who, id, Event::KittySold(owner, who, id, price))
    }

    /// The error, if any, that `buy` gives before any payment is tried.
    pub open spec fn buy_check(self, who: AccountId, owner: AccountId, id: KittyIndex, max_price: Balance) -> Option<Error> {
        if who == owner {
            Some(Error::CannotBuyFromSelf)
        } else if !self.owns(owner, id) {
            Some(Error::InvalidKittyId)
        } else if self.price_of(id) is None {
            Some(Error::NotForSale)
        } else if max_price < self.price_of(id).unwrap() {
            Some(Error::PriceTooLow)
        } else {
            None
        }
    }
}

/// The 16-byte array whose view is `dna` (when `dna` has 16 bytes).
pub open spec fn dna_array(dna: Seq<u8>) -> [u8; 16] {
    choose|a: [u8; 16]| a@ == dna
}

/// An array is the array of its own view.
pub proof fn lemma_dna_array(a: [u8; 16])
    ensures
        dna_array(a@) == a,
{
    broadcast use vstd::array::group_array_axioms;

    // `a` itself is the witness: mentioning `a@` lets the solver pick it.
    assert(exists|x: [u8; 16]| x@ == a@) by {
        let w = a;
        assert(w@ == a@);
    }
    let b = dna_array(a@);
    assert(b =~= a);
}

/// The pallet's storage: kitties with their owners and listings, the id
/// allocator, and the events recorded.
#[derive(Clone, Debug, PartialEq, Eq)]
pub struct Pallet {
    entries: Vec<Entry>,
    next_kitty_id: KittyIndex,
    events: Vec<Event>,
}

impl View for Pallet {
    type V = PalletView;

    closed spec fn view(&self) -> PalletView {
        PalletView { entries: self.entries@, next_kitty_id: self.next_kitty_id as nat, events: self.events@ }
    }
}

impl Pallet {
    /// The abstract state is well formed.
    pub open spec fn wf(&self) -> bool {
        self@.wf()
    }

    /// An empty store: no kitties, the counter at zero, no events.
    pub fn new() -> (r: Pallet)
        ensures
            r.wf(),
            r@.entries.len() == 0,
            r@.next_kitty_id == 0,
            r@.events.len() == 0,
    {
        Pallet { entries: Vec::new(), next_kitty_id: 0, events: Vec::new() }
    }

    /// The kitty that `who` owns under `id`, if any.
    pub fn kitties(&self, who: AccountId, id: KittyIndex) -> (r: Option<Kitty>)
        ensures
            r == self@.kitty_of(who, id),
    {
        if (id as usize) < self.entries.len() && self.entries[id as usize].owner == who {
            Some(self.entries[id as usize].kitty)
        } else {
            None
        }
    }

    /// Whether `who` owns kitty `id`.
    pub fn contains_kitty(&self, who: AccountId, id: KittyIndex) -> (r: bool)
        ensures
            r == self@.owns(who, id),
    {
        (id as usize) < self.entries.len() && self.entries[id as usize].owner == who
    }

    /// The id the next created or bred kitty will get.
    pub fn next_kitty_id(&self) -> (r: KittyIndex)
        ensures
            r == self@.next_kitty_id,
    {
        self.next_kitty_id
    }

    /// The asking price of kitty `id`, if it is listed.
    pub fn kitty_prices(&self, id: KittyIndex) -> (r: Option<Balance>)
        ensures
            r == self@.price_of(id),
    {
        if (id as usize) < self.entries.len() {
            self.entries[id as usize].price
        } else {
            None
        }
    }

    /// The events recorded so far, oldest first.
    pub fn events(&self) -> (r: &Vec<Event>)
        ensures
            r@ == self@.events,
    {
        &self.events
    }

    /// The most recent event, if any.
    pub fn last_event(&self) -> (r: Option<Event>)
        ensures
            self@.events.len() == 0 ==> r is None,
            self@.events.len() > 0 ==> r == Some(self@.events.last()),
    {
        if self.events.len() == 0 {
            None
        } else {
            Some(self.events[self.events.len() - 1])
        }
    }

    /// Forgets the recorded events; the stores are kept.
    pub fn reset_events(&mut self)
        ensures
            final(self)@ == (PalletView { events: Seq::empty(), ..old(self)@ }),
    {
        self.events = Vec::new();
    }

    /// Takes the next id from the allocator, or fails with `Overflow` and
    /// leaves the counter as it was.
    fn get_next_kitty_id(&mut self) -> (r: Result<KittyIndex, Error>)
        ensures
            old(self)@.next_kitty_id == MAX_KITTY_INDEX ==> r == Err::<KittyIndex, Error>(Error::Overflow) && final(self)@ == old(self)@,
            old(self)@.next_kitty_id < MAX_KITTY_INDEX ==> r == Ok::<KittyIndex, Error>(old(self)@.next_kitty_id as KittyIndex)
                && final(self)@ == (PalletView { next_kitty_id: old(self)@.next_kitty_id + 1, ..old(self)@ }),
    {
        let current_id = self.next_kitty_id;
        match current_id.checked_add(1) {
            Some(n) => {
                self.next_kitty_id = n;
                Ok(current_id)
            },
            None => Err(Error::Overflow),
        }
    }

    /// Creates a kitty with genome `dna` for `who` under the next id.
    /// Fails with `Overflow`, changing nothing, when the allocator is exhausted.
    pub fn create(&mut self, who: AccountId, dna: [u8; 16]) -> (r: Result<(), Error>)
        requires
            old(self).wf(),
        ensures
            final(self).wf(),
            r is Err <==> old(self)@.next_kitty_id == MAX_KITTY_INDEX,
            r is Err ==> r == Err::<(), Error>(Error::Overflow) && final(self)@ == old(self)@,
            r is Ok ==> final(self)@ == old(self)@.created(who, dna),
    {
        let kitty_id = match self.get_next_kitty_id() {
            Ok(id) => id,
            Err(e) => return Err(e),
        };
        let kitty = Kitty(dna);
        self.entries.push(Entry { owner: who, kitty, price: None });
        self.events.push(Event::KittyCreated(who, kitty_id, kitty));
        Ok(())
    }

    /// Breeds kitties `id1` and `id2` of `who` into a new kitty for `who`,
    /// each bit of its genome taken from the first parent where `selector`
    /// has a 0 and from the second where it has a 1.
    pub fn breed(&mut self, who: AccountId, id1: KittyIndex, id2: KittyIndex, selector: [u8; 16]) -> (r: Result<(), Error>)
        requires
            old(self).wf(),
        ensures
            final(self).wf(),
            r is Err ==> final(self)@ == old(self)@,
            !old(self)@.owns(who, id1) || !old(self)@.owns(who, id2)
                ==> r == Err::<(), Error>(Error::InvalidKittyId),
            old(self)@.owns(who, id1) && old(self)@.owns(who, id2)
                && old(self)@.entries[id1 as int].kitty.0@ == old(self)@.entries[id2 as int].kitty.0@
                ==> r == Err::<(), Error>(Error::CannotSameParent),
            old(self)@.owns(who, id1) && old(self)@.owns(who, id2)
                && old(self)@.entries[id1 as int].kitty.0@ != old(self)@.entries[id2 as int].kitty.0@
                ==> if old(self)@.next_kitty_id == MAX_KITTY_INDEX {
                    r == Err::<(), Error>(Error::Overflow)
                } else {
                    r is Ok && final(self)@ == old(self)@.bred(who, id1, id2, selector@)
                },
    {
        let kitty1 = match self.kitties(who, id1) {
            Some(k) => k,
            None => return Err(Error::InvalidKittyId),
        };
        let kitty2 = match self.kitties(who, id2) {
            Some(k) => k,
            None => return Err(Error::InvalidKittyId),
        };
        if same_dna(&kitty1, &kitty2) {
            return Err(Error::CannotSameParent);
        }
        let kitty_id = match self.get_next_kitty_id() {
            Ok(id) => id,
            Err(e) => return Err(e),
        };
        let new_kitty = combine(&kitty1, &kitty2, &selector);
        proof {
            lemma_dna_array(new_kitty.0);
        }
        self.entries.push(Entry { owner: who, kitty: new_kitty, price: None });
        self.events.push(Event::KittyBred(who, kitty_id, new_kitty));
        Ok(())
    }

    /// Moves kitty `id` from `who` to `to` and clears its listing. A
    /// transfer to oneself changes nothing and records nothing; it succeeds
    /// exactly when `who` owns `id`.
    pub fn transfer(&mut self, who: AccountId, to: AccountId, id: KittyIndex) -> (r: Result<(), Error>)
        requires
            old(self).wf(),
        ensures
            final(self).wf(),
            r is Ok <==> old(self)@.owns(who, id),
            r is Err ==> r == Err::<(), Error>(Error::InvalidKittyId) && final(self)@ == old(self)@,
            r is Ok && who == to ==> final(self)@ == old(self)@,
            r is Ok && who != to ==> final(self)@ == old(self)@.transferred(who, to, id),
            r is Ok && who != to ==> final(self)@.price_of(id) is None && final(self)@.owns(to, id),
    {
        if !self.contains_kitty(who, id) {
            return Err(Error::InvalidKittyId);
        }
        if who == to {
            return Ok(());
        }
        let i = id as usize;
        let kitty = self.entries[i].kitty;
        self.entries[i] = Entry { owner: to, kitty, price: None };
        self.events.push(Event::KittyTransferred(who, to, id));
        Ok(())
    }

    /// Lists kitty `id` of `who` at `new_price`, or delists it with `None`.
    /// Fails with `NotOwner`, changing nothing, unless `who` owns `id`.
    pub fn set_price(&mut self, who: AccountId, id: KittyIndex, new_price: Option<Balance>) -> (r: Result<(), Error>)
        requires
            old(self).wf(),
        ensures
            final(self).wf(),
            r is Ok <==> old(self)@.owns(who, id),
            r is Err ==> r == Err::<(), Error>(Error::NotOwner) && final(self)@ == old(self)@,
            r is Ok ==> final(self)@ == old(self)@.priced(who, id, new_price),
    {
        if !self.contains_kitty(who, id) {
            return Err(Error::NotOwner);
        }
        let i = id as usize;
        let e = self.entries[i];
        self.entries[i] = Entry { price: new_price, ..e };
        self.events.push(Event::KittyPriceUpdated(who, id, new_price));
        Ok(())
    }

    /// The price `who` would pay for kitty `id` of `owner` offering at most
    /// `max_price`, or the error that refuses the sale before any payment.
    pub fn sale_price(&self, who: AccountId, owner: AccountId, id: KittyIndex, max_price: Balance) -> (r: Result<Balance, Error>)
        requires
            self.wf(),
        ensures
            match self@.buy_check(who, owner, id, max_price) {
                Some(e) => r == Err::<Balance, Error>(e),
                None => r == Ok::<Balance, Error>(self@.price_of(id).unwrap()),
            },
    {
        if who == owner {
            return Err(Error::CannotBuyFromSelf);
        }
        if !self.contains_kitty(owner, id) {
            return Err(Error::InvalidKittyId);
        }
        match self.kitty_prices(id) {
            None => Err(Error::NotForSale),
            Some(price) => if max_price < price {
                Err(Error::PriceTooLow)
            } else {
                Ok(price)
            },
        }
    }

    /// Completes a sale whose checks passed, given the outcome of paying
    /// `price`: on payment the kitty passes to `who` with its listing
    /// cleared; on a refused payment nothing changes and its error is returned.
    pub fn complete_sale(
        &mut self,
        who: AccountId,
        owner: AccountId,
        id: KittyIndex,
        price: Balance,
        payment: Result<(), Error>,
    ) -> (r: Result<(), Error>)
        requires
            old(self).wf(),
            old(self)@.owns(owner, id),
        ensures
            final(self).wf(),
            r == payment,
            r is Err ==> final(self)@ == old(self)@,
            r is Ok ==> final(self)@ == old(self)@.sold(who, owner, id, price),
    {
        match payment {
            Err(e) => Err(e),
            Ok(()) => {
                let i = id as usize;
                let kitty = self.entries[i].kitty;
                self.entries[i] = Entry { owner: who, kitty, price: None };
                self.events.push(Event::KittySold(owner, who, id, price));
                payment
            },
        }
    }

    /// `who` buys kitty `id` from `owner`, offering at most `max_price`. The
    /// listed price is paid through the runtime's currency; the sale happens
    /// in full or not at all.
    pub fn buy<T: Config>(
        &mut self,
        who: AccountId,
        owner: AccountId,
        id: KittyIndex,
        max_price: Balance,
        runtime: &mut T,
    ) -> (r: Result<(), Error>)
        requires
            old(self).wf(),
        ensures
            final(self).wf(),
            r is Err ==> final(self)@ == old(self)@,
            old(self)@.buy_check(who, owner, id, max_price) matches Some(e) ==> r == Err::<(), Error>(e),
            old(self)@.buy_check(who, owner, id, max_price) is Some ==> *final(runtime) == *old(runtime),
            r is Ok ==> old(self)@.buy_check(who, owner, id, max_price) is None
                && final(self)@ == old(self)@.sold(who, owner, id, old(self)@.price_of(id).unwrap()),
            r is Ok ==> final(self)@.price_of(id) is None && final(self)@.owns(who, id),
    {
        let price = match self.sale_price(who, owner, id, max_price) {
            Ok(p) => p,
            Err(e) => return Err(e),
        };
        let payment = runtime.transfer(who, owner, price);
        self.complete_sale(who, owner, id, price, payment)
    }

    /// `create` with the genome drawn for `who` from the runtime's random
    /// `seed` and the index of the current extrinsic (see `random_value`).
    pub fn create_from_seed(&mut self, who: AccountId, seed: &[u8; 32], extrinsic_index: Option<u32>) -> (r: Result<(), Error>)
        requires
            old(self).wf(),
        ensures
            final(self).wf(),
            r is Err <==> old(self)@.next_kitty_id == MAX_KITTY_INDEX,
            r is Err ==> r == Err::<(), Error>(Error::Overflow) && final(self)@ == old(self)@,
            r is Ok ==> final(self)@ == old(self)@.created(
                who,
                dna_array(blake2_128_of(spec_payload(seed@, who, extrinsic_index))),
            ),
    {
        let dna = random_value(seed, who, extrinsic_index);
        proof {
            lemma_dna_array(dna);
        }
        self.create(who, dna)
    }

    /// `breed` with the selector drawn for `who` from the runtime's random
    /// `seed` and the index of the current extrinsic (see `random_value`).
    pub fn breed_from_seed(
        &mut self,
        who: AccountId,
        id1: KittyIndex,
        id2: KittyIndex,
        seed: &[u8; 32],
        extrinsic_index: Option<u32>,
    ) -> (r: Result<(), Error>)
        requires
            old(self).wf(),
        ensures
            final(self).wf(),
            r is Err ==> final(self)@ == old(self)@,
            !old(self)@.owns(who, id1) || !old(self)@.owns(who, id2)
                ==> r == Err::<(), Error>(Error::InvalidKittyId),
            old(self)@.owns(who, id1) && old(self)@.owns(who, id2)
                && old(self)@.entries[id1 as int].kitty.0@ == old(self)@.entries[id2 as int].kitty.0@
                ==> r == Err::<(), Error>(Error::CannotSameParent),
            old(self)@.owns(who, id1) && old(self)@.owns(who, id2)
                && old(self)@.entries[id1 as int].kitty.0@ != old(self)@.entries[id2 as int].kitty.0@
                ==> if old(self)@.next_kitty_id == MAX_KITTY_INDEX {
                    r == Err::<(), Error>(Error::Overflow)
                } else {
                    r is Ok && final(self)@ == old(self)@.bred(
                        who,
                        id1,
                        id2,
                        blake2_128_of(spec_payload(seed@, who, extrinsic_index)),
                    )
                },
    {
        let selector = random_value(seed, who, extrinsic_index);
        self.breed(who, id1, id2, selector)
    }
}

} // verus!
