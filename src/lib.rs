//! Ownership, breeding and trading of kitties: a deterministic state machine
//! over an ownership store, a listing store and an id allocator.
pub mod dna;
pub mod laws;
pub mod pallet;
pub mod random;
pub mod types;
