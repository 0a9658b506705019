//! Deterministic reference generator: a pseudorandom byte stream keyed
//! by (deploy hash, phase), used to mint unforgeable reference
//! identifiers during one deploy's execution. A pure function of its
//! two inputs — no process state, no clock, no OS randomness — so every
//! node replaying the same deploy in the same phase mints the same
//! references.

use vstd::prelude::*;
use rand::RngCore;
use rand::SeedableRng;
use rand_chacha::ChaCha20Rng;

verus! {

/// Stage of deploy execution within one deploy.
#[derive(Clone, Copy, Debug, PartialEq, Eq, Structural)]
pub enum Phase {
    Payment,
    Session,
    FinalizePayment,
}

/// Discriminant byte that separates the phases in the seed.
pub open spec fn phase_byte(p: Phase) -> u8 {
    match p {
        Phase::Payment => 1,
        Phase::Session => 2,
        Phase::FinalizePayment => 3,
    }
}

/// Discriminant byte that separates the phases in the seed.
#[verifier::when_used_as_spec(phase_byte)]
pub fn phase_discriminant(p: Phase) -> (r: u8)
    ensures
        r == phase_byte(p),
{
    match p {
        Phase::Payment => 1,
        Phase::Session => 2,
        Phase::FinalizePayment => 3,
    }
}

/// The generator seed for a deploy hash and phase: every hash byte
/// XOR the phase discriminant. For a fixed phase it is injective in
/// the hash; for a fixed hash, injective in the phase.
pub open spec fn seed_of(h: Seq<u8>, p: Phase) -> Seq<u8> {
    Seq::new(32, |i: int| h[i] ^ phase_byte(p))
}

/// Declares rand_chacha's `ChaCha20Rng` to the verifier as an opaque
/// type, so a generator can hold one.
#[verifier::external_type_specification]
#[verifier::external_body]
pub struct ExChaCha20Rng(ChaCha20Rng);

/// The `index`-th 32-byte block of the ChaCha20 key stream keyed by
/// `seed`: a function of the seed and the position alone.
pub uninterp spec fn chacha_block(seed: Seq<u8>, index: int) -> Seq<u8>;

/// The reference generator of one execution session: a ChaCha20 stream
/// positioned after `drawn()` 32-byte draws from the stream of `seed()`.
pub struct DeployRng {
    inner: ChaCha20Rng,
    seed: Ghost<Seq<u8>>,
    drawn: Ghost<int>,
}

impl DeployRng {
    /// The seed this generator was keyed with.
    pub closed spec fn seed(self) -> Seq<u8> {
        self.seed@
    }

    /// How many 32-byte blocks have been drawn so far.
    pub closed spec fn drawn(self) -> int {
        self.drawn@
    }

    /// The block the next draw returns.
    pub open spec fn next_block(self) -> Seq<u8> {
        chacha_block(self.seed(), self.drawn())
    }
}

/// Relies on `ChaCha20Rng::from_seed` of rand_chacha: the generator it
/// returns is a pure function of the seed, positioned at the start of
/// the seed's key stream. (What the stream holds is stated only by
/// `chacha_fill_block`, over the position this crate tracks.)
#[verifier::external_body]
fn chacha_from_seed(seed: [u8; 32]) -> (r: ChaCha20Rng) {
    ChaCha20Rng::from_seed(seed)
}

/// Relies on `RngCore::fill_bytes` for `ChaCha20Rng` of rand_chacha: it
/// fills the buffer with the next bytes of the key stream, a function
/// of the seed and of the position in the stream alone, and advances
/// the position past them.
#[verifier::external_body]
fn chacha_fill_block(rng: &mut DeployRng) -> (r: [u8; 32])
    ensures
        final(rng).seed() == old(rng).seed(),
        final(rng).drawn() == old(rng).drawn() + 1,
        r@ == chacha_block(old(rng).seed(), old(rng).drawn()),
{
    let mut buf = [0u8; 32];
    rng.inner.fill_bytes(&mut buf);
    buf
}

/// Combine a deploy hash and a phase into the generator seed.
fn derive_seed(deploy_hash: &[u8; 32], phase: Phase) -> (r: [u8; 32])
    ensures
        r@ == seed_of(deploy_hash@, phase),
{
    let d = phase_discriminant(phase);
    let mut seed: [u8; 32] = [0u8; 32];
    let mut i: usize = 0;
    while i < 32
        invariant
            i <= 32,
            d == phase_byte(phase),
            forall|j: int| 0 <= j < i ==> seed@[j] == deploy_hash@[j] ^ phase_byte(phase),
        decreases 32 - i,
    {
        seed[i] = deploy_hash[i] ^ d;
        i += 1;
    }
    proof {
        assert(seed@ =~= seed_of(deploy_hash@, phase));
    }
    seed
}

/// Build the generator for one session: seeded from the deploy hash and
/// the phase, at the start of its stream. Total over its input domain —
/// seeding cannot fail at run time.
pub fn create_rng(deploy_hash: [u8; 32], phase: Phase) -> (r: DeployRng)
    ensures
        r.seed() == seed_of(deploy_hash@, phase),
        r.drawn() == 0,
{
    let seed = derive_seed(&deploy_hash, phase);
    let inner = chacha_from_seed(seed);
    DeployRng { inner, seed: Ghost(seed@), drawn: Ghost(0int) }
}

/// Draw the next 32-byte block from the stream; each draw advances the
/// position, so successive draws of one session read successive blocks
/// of the stream.
pub fn gen_random(rng: &mut DeployRng) -> (r: [u8; 32])
    ensures
        final(rng).seed() == old(rng).seed(),
        final(rng).drawn() == old(rng).drawn() + 1,
        r@ == old(rng).next_block(),
{
    chacha_fill_block(rng)
}

/// Distinct deploy hashes are keyed apart in every fixed phase: their
/// generator seeds differ, byte for byte wherever the hashes differ.
pub proof fn lemma_seed_separates_hashes(h1: Seq<u8>, h2: Seq<u8>, p: Phase)
    requires
        h1.len() == 32,
        h2.len() == 32,
        h1 != h2,
    ensures
        seed_of(h1, p) != seed_of(h2, p),
{
    if seed_of(h1, p) == seed_of(h2, p) {
        let d = phase_byte(p);
        assert forall|i: int| 0 <= i < 32 implies h1[i] == h2[i] by {
            assert(seed_of(h1, p)[i] == seed_of(h2, p)[i]);
            let a = h1[i];
            let b = h2[i];
            assert(a ^ d == b ^ d ==> a == b) by (bit_vector);
        }
        assert(h1 =~= h2);
    }
}

/// Distinct phases are keyed apart for every fixed deploy hash: their
/// generator seeds differ in every byte.
pub proof fn lemma_seed_separates_phases(h: Seq<u8>, p1: Phase, p2: Phase)
    requires
        h.len() == 32,
        p1 != p2,
    ensures
        seed_of(h, p1) != seed_of(h, p2),
{
    let d1 = phase_byte(p1);
    let d2 = phase_byte(p2);
    assert(d1 != d2);
    let x = h[0];
    assert(d1 != d2 ==> x ^ d1 != x ^ d2) by (bit_vector);
    assert(seed_of(h, p1)[0] != seed_of(h, p2)[0]);
}

/// Determinism of the generator: two generators keyed alike and at the
/// same position draw the same next block — repeated construction from
/// the same (hash, phase) pair replays the same stream.
pub proof fn lemma_rng_deterministic(r1: DeployRng, r2: DeployRng)
    requires
        r1.seed() == r2.seed(),
        r1.drawn() == r2.drawn(),
    ensures
        r1.next_block() == r2.next_block(),
{
}

} // verus!
