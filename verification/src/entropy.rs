//! The entropy adapter.
//!
//! The onion-messaging engine requires a secure randomness capability from
//! its host. [`MessengerUtilities`] satisfies it with a ChaCha20 generator
//! seeded from the operating system. Random output admits no functional
//! contract — nothing can be promised of the bytes' values — so the two
//! generator calls are trusted and everything around them is verified.

use vstd::prelude::*;

verus! {

#[verifier::external_type_specification]
#[verifier::external_body]
pub struct ExChaCha20Rng(rand_chacha::ChaCha20Rng);

/// The ancillary utilities the onion-messaging engine requires of its host;
/// here, the secure entropy source. The generator is owned and mutably
/// borrowed per draw, so draws through one instance are serialized.
pub struct MessengerUtilities {
    entropy_source: rand_chacha::ChaCha20Rng,
}

/// Relies on rand_chacha's `ChaCha20Rng` implementation of
/// `rand_core::SeedableRng::from_entropy`: a fresh generator seeded from the
/// operating system's entropy. The seed is random, so nothing can be
/// promised of the generator's state.
#[verifier::external_body]
fn entropy_seeded_source() -> MessengerUtilities {
    MessengerUtilities {
        entropy_source: <rand_chacha::ChaCha20Rng as rand_core::SeedableRng>::from_entropy(),
    }
}

/// Relies on rand_chacha's `ChaCha20Rng` implementation of
/// `rand_core::RngCore::fill_bytes`: fills the buffer with the generator's
/// next output and advances its state. The output is pseudorandom, so
/// nothing can be promised of the bytes' values.
#[verifier::external_body]
fn fill_from_entropy(source: &mut MessengerUtilities, buf: &mut [u8; 32]) {
    rand_core::RngCore::fill_bytes(&mut source.entropy_source, buf);
}

impl MessengerUtilities {
    /// A utilities instance around a freshly seeded generator.
    pub fn new() -> MessengerUtilities {
        entropy_seeded_source()
    }

    /// The entropy source's next 32 bytes. Every call draws fresh output;
    /// no value can be stated of random bytes.
    pub fn get_secure_random_bytes(&mut self) -> [u8; 32] {
        let mut chacha_bytes: [u8; 32] = [0; 32];
        fill_from_entropy(self, &mut chacha_bytes);
        chacha_bytes
    }
}

} // verus!
