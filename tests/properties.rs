use pallet_kitties::dna::{combine, combine_dna, same_dna};
use pallet_kitties::pallet::{Config, Pallet};
use pallet_kitties::random::{payload, random_value};
use pallet_kitties::types::{AccountId, Balance, Error, Event, Kitty};

/// A currency that pays every transfer and keeps a running total per account.
struct Ledger {
    paid: Vec<(AccountId, AccountId, Balance)>,
}

impl Config for Ledger {
    fn transfer(&mut self, source: AccountId, dest: AccountId, value: Balance) -> Result<(), Error> {
        self.paid.push((source, dest, value));
        Ok(())
    }
}

/// A currency that refuses every transfer.
struct Empty;

impl Config for Empty {
    fn transfer(&mut self, _source: AccountId, _dest: AccountId, _value: Balance) -> Result<(), Error> {
        Err(Error::InsufficientBalance)
    }
}

const G0: [u8; 16] = [0x0f; 16];
const G1: [u8; 16] = [0xf0; 16];

#[test]
fn combine_dna_picks_bits_by_selector() {
    assert_eq!(combine_dna(0b1010_1010, 0b0101_0101, 0b1111_0000), 0b0101_1010);
    assert_eq!(combine_dna(0xff, 0x00, 0x0f), 0xf0);
    assert_eq!(combine_dna(0x12, 0x34, 0x00), 0x12);
    assert_eq!(combine_dna(0x12, 0x34, 0xff), 0x34);
}

#[test]
fn combine_with_zero_and_full_masks() {
    let a = Kitty([3, 1, 4, 1, 5, 9, 2, 6, 5, 3, 5, 8, 9, 7, 9, 3]);
    let b = Kitty([2, 7, 1, 8, 2, 8, 1, 8, 2, 8, 4, 5, 9, 0, 4, 5]);
    assert_eq!(combine(&a, &b, &[0x00; 16]), a);
    assert_eq!(combine(&a, &b, &[0xff; 16]), b);
    let sel = [0x55; 16];
    assert_eq!(combine(&a, &b, &sel), combine(&a, &b, &sel));
    assert_eq!(combine(&Kitty(G0), &Kitty(G1), &[0x3c; 16]), Kitty([0x33; 16]));
}

#[test]
fn same_dna_compares_genomes() {
    assert!(same_dna(&Kitty(G0), &Kitty(G0)));
    assert!(!same_dna(&Kitty(G0), &Kitty(G1)));
    let mut last = G0;
    last[15] = 0;
    assert!(!same_dna(&Kitty(G0), &Kitty(last)));
}

#[test]
fn ids_are_issued_in_order() {
    let mut p = Pallet::new();
    assert_eq!(p.next_kitty_id(), 0);
    assert_eq!(p.create(1, G0), Ok(()));
    assert_eq!(p.create(2, G1), Ok(()));
    assert_eq!(p.create(1, G1), Ok(()));
    assert_eq!(p.breed(1, 0, 2, [0xaa; 16]), Ok(()));
    let ids: Vec<u32> = p
        .events()
        .iter()
        .map(|e| match e {
            Event::KittyCreated(_, id, _) | Event::KittyBred(_, id, _) => *id,
            _ => panic!("unexpected event"),
        })
        .collect();
    assert_eq!(ids, vec![0, 1, 2, 3]);
    assert_eq!(p.next_kitty_id(), 4);
}

#[test]
fn each_issued_kitty_has_one_owner() {
    let mut p = Pallet::new();
    assert_eq!(p.create(1, G0), Ok(()));
    assert_eq!(p.create(2, G1), Ok(()));
    assert_eq!(p.transfer(1, 3, 0), Ok(()));
    let accounts = [1u64, 2, 3, 4];
    for id in 0..2u32 {
        let owners = accounts.iter().filter(|a| p.contains_kitty(**a, id)).count();
        assert_eq!(owners, 1);
    }
    assert!(accounts.iter().all(|a| !p.contains_kitty(*a, 2)));
    assert_eq!(p.kitties(4, 0), None);
}

#[test]
fn transfer_and_buy_clear_the_listing() {
    let mut p = Pallet::new();
    let mut ledger = Ledger { paid: Vec::new() };
    assert_eq!(p.create(1, G0), Ok(()));
    assert_eq!(p.set_price(1, 0, Some(5)), Ok(()));
    assert_eq!(p.transfer(1, 2, 0), Ok(()));
    assert_eq!(p.kitty_prices(0), None);
    assert_eq!(p.set_price(2, 0, Some(7)), Ok(()));
    assert_eq!(p.buy(3, 2, 0, 7, &mut ledger), Ok(()));
    assert_eq!(p.kitty_prices(0), None);
    assert_eq!(p.kitties(3, 0), Some(Kitty(G0)));
    assert_eq!(ledger.paid, vec![(3, 2, 7)]);
}

#[test]
fn self_transfer_changes_nothing() {
    let mut p = Pallet::new();
    assert_eq!(p.create(1, G0), Ok(()));
    assert_eq!(p.set_price(1, 0, Some(9)), Ok(()));
    let before = p.clone();
    assert_eq!(p.transfer(1, 1, 0), Ok(()));
    assert_eq!(p, before);
    assert_eq!(p.kitty_prices(0), Some(9));
    assert_eq!(p.transfer(2, 2, 0), Err(Error::InvalidKittyId));
    assert_eq!(p, before);
}

#[test]
fn refused_buy_changes_nothing() {
    let mut p = Pallet::new();
    assert_eq!(p.create(1, G0), Ok(()));
    assert_eq!(p.set_price(1, 0, Some(50)), Ok(()));
    let before = p.clone();
    let mut ledger = Ledger { paid: Vec::new() };
    assert_eq!(p.buy(2, 1, 0, 49, &mut ledger), Err(Error::PriceTooLow));
    assert_eq!(p, before);
    assert!(ledger.paid.is_empty());
    assert_eq!(p.buy(2, 1, 0, 50, &mut Empty), Err(Error::InsufficientBalance));
    assert_eq!(p, before);
    assert_eq!(p.kitties(1, 0), Some(Kitty(G0)));
    assert_eq!(p.kitty_prices(0), Some(50));
}

#[test]
fn sale_price_and_complete_sale() {
    let mut p = Pallet::new();
    assert_eq!(p.create(1, G0), Ok(()));
    assert_eq!(p.sale_price(1, 1, 0, 10), Err(Error::CannotBuyFromSelf));
    assert_eq!(p.sale_price(2, 1, 1, 10), Err(Error::InvalidKittyId));
    assert_eq!(p.sale_price(2, 1, 0, 10), Err(Error::NotForSale));
    assert_eq!(p.set_price(1, 0, Some(10)), Ok(()));
    assert_eq!(p.sale_price(2, 1, 0, 9), Err(Error::PriceTooLow));
    assert_eq!(p.sale_price(2, 1, 0, 11), Ok(10));
    let before = p.clone();
    assert_eq!(p.complete_sale(2, 1, 0, 10, Err(Error::InsufficientBalance)), Err(Error::InsufficientBalance));
    assert_eq!(p, before);
    assert_eq!(p.complete_sale(2, 1, 0, 10, Ok(())), Ok(()));
    assert_eq!(p.kitties(2, 0), Some(Kitty(G0)));
    assert_eq!(p.last_event(), Some(Event::KittySold(1, 2, 0, 10)));
}

#[test]
fn marketplace_scenario() {
    let mut p = Pallet::new();
    let mut balances = Ledger { paid: Vec::new() };
    let (a, b) = (1u64, 2u64);
    assert_eq!(p.create(a, G0), Ok(()));
    assert_eq!(p.create(a, G1), Ok(()));
    assert_eq!(p.kitties(a, 0), Some(Kitty(G0)));
    assert_eq!(p.kitties(a, 1), Some(Kitty(G1)));
    let selector = [0x33; 16];
    assert_eq!(p.breed(a, 0, 1, selector), Ok(()));
    assert_eq!(p.kitties(a, 2), Some(combine(&Kitty(G0), &Kitty(G1), &selector)));
    assert_eq!(p.kitties(a, 2), Some(Kitty([0x3c; 16])));
    assert_eq!(p.breed(a, 0, 0, selector), Err(Error::CannotSameParent));
    assert_eq!(p.set_price(a, 0, Some(600)), Ok(()));
    assert_eq!(p.buy(b, a, 0, 500, &mut balances), Err(Error::PriceTooLow));
    assert!(balances.paid.is_empty());
    assert_eq!(p.set_price(a, 0, Some(400)), Ok(()));
    assert_eq!(p.buy(b, a, 0, 500, &mut balances), Ok(()));
    assert_eq!(p.kitties(b, 0), Some(Kitty(G0)));
    assert!(!p.contains_kitty(a, 0));
    assert_eq!(balances.paid, vec![(b, a, 400)]);
    assert_eq!(p.kitty_prices(0), None);
}

#[test]
fn identical_genomes_cannot_breed() {
    let mut p = Pallet::new();
    assert_eq!(p.create(1, G0), Ok(()));
    assert_eq!(p.create(1, G0), Ok(()));
    assert_eq!(p.breed(1, 0, 1, [0; 16]), Err(Error::CannotSameParent));
    assert_eq!(p.next_kitty_id(), 2);
}

#[test]
fn reset_events_keeps_the_stores() {
    let mut p = Pallet::new();
    assert_eq!(p.last_event(), None);
    assert_eq!(p.create(1, G0), Ok(()));
    p.reset_events();
    assert_eq!(p.last_event(), None);
    assert_eq!(p.kitties(1, 0), Some(Kitty(G0)));
    assert_eq!(p.next_kitty_id(), 1);
}

#[test]
fn payload_layout() {
    let bytes = payload(&[7; 32], 0x0102_0304_0506_0708, Some(0x0a0b_0c0d));
    let mut expected = vec![7u8; 32];
    expected.extend_from_slice(&[8, 7, 6, 5, 4, 3, 2, 1]);
    expected.extend_from_slice(&[1, 0x0d, 0x0c, 0x0b, 0x0a]);
    assert_eq!(bytes, expected);
    let none = payload(&[0; 32], 100, None);
    assert_eq!(none.len(), 41);
    assert_eq!(&none[32..], &[100, 0, 0, 0, 0, 0, 0, 0, 0]);
}

#[test]
fn random_value_is_blake2_128_of_payload() {
    assert_eq!(
        random_value(&[0; 32], 100, Some(0)),
        [59, 250, 138, 82, 209, 39, 141, 109, 163, 238, 183, 145, 235, 168, 18, 122]
    );
    assert_eq!(
        random_value(&[0; 32], 100, None),
        [104, 30, 85, 116, 31, 172, 235, 26, 189, 155, 81, 233, 223, 202, 237, 121]
    );
    assert_eq!(
        random_value(&[7; 32], 0x0102_0304_0506_0708, Some(0x0a0b_0c0d)),
        [139, 42, 57, 205, 212, 136, 207, 123, 68, 27, 1, 104, 152, 116, 235, 178]
    );
    assert_ne!(random_value(&[0; 32], 100, Some(0)), random_value(&[0; 32], 100, Some(1)));
}

#[test]
fn seeded_calls_draw_from_random_value() {
    let mut p = Pallet::new();
    let seed = [0u8; 32];
    assert_eq!(p.create_from_seed(100, &seed, Some(0)), Ok(()));
    assert_eq!(p.create_from_seed(100, &seed, Some(1)), Ok(()));
    let g0 = random_value(&seed, 100, Some(0));
    let g1 = random_value(&seed, 100, Some(1));
    assert_eq!(p.kitties(100, 0), Some(Kitty(g0)));
    assert_eq!(p.kitties(100, 1), Some(Kitty(g1)));
    assert_ne!(g0, g1);
    assert_eq!(p.breed_from_seed(100, 0, 0, &seed, Some(2)), Err(Error::CannotSameParent));
    assert_eq!(p.breed_from_seed(101, 0, 1, &seed, Some(2)), Err(Error::InvalidKittyId));
    assert_eq!(p.breed_from_seed(100, 0, 1, &seed, Some(2)), Ok(()));
    let selector = random_value(&seed, 100, Some(2));
    assert_eq!(p.kitties(100, 2), Some(combine(&Kitty(g0), &Kitty(g1), &selector)));
    assert_eq!(p.last_event(), Some(Event::KittyBred(100, 2, combine(&Kitty(g0), &Kitty(g1), &selector))));
    assert_eq!(p.next_kitty_id(), 3);
}
