//! Secret-key sampling: one key share is drawn from a scheme-parameter
//! instance, consuming a caller-supplied randomness source. The caller owns
//! the source and its seeding policy, which is what makes generation
//! deterministic and reproducible under a fixed seed.

use crate::params::{ParamsV, SchemeParameters};
use vstd::prelude::*;

verus! {

#[verifier::external_type_specification]
#[verifier::external_body]
pub struct ExChaCha8Rng(rand_chacha::ChaCha8Rng);

#[verifier::external_type_specification]
#[verifier::external_body]
pub struct ExSecretKey(fhe::bfv::SecretKey);

/// Mathematical view of a randomness source: the seed it was created from and
/// the sampling operations already served, each recorded by the parameters it
/// was drawn under. Together they determine the source's remaining stream.
#[verifier::ext_equal]
pub ghost struct RandomnessV {
    pub seed: u64,
    pub drawn: Seq<ParamsV>,
}

/// A caller-owned source of cryptographically secure random bytes, created
/// from a seed. The generation routines never seed or own one; callers decide
/// whether the seed is fixed (reproducible tests) or drawn from the
/// environment (production).
pub struct RandomnessSource {
    pub(crate) rng: rand_chacha::ChaCha8Rng,
    seed: Ghost<u64>,
    drawn: Ghost<Seq<ParamsV>>,
}

impl View for RandomnessSource {
    type V = RandomnessV;

    closed spec fn view(&self) -> RandomnessV {
        RandomnessV { seed: self.seed@, drawn: self.drawn@ }
    }
}

/// Relies on rand's SeedableRng::seed_from_u64 for rand_chacha's ChaCha8Rng:
/// it builds the generator's state from the seed alone.
#[verifier::external_body]
fn seeded_chacha(seed: u64) -> rand_chacha::ChaCha8Rng {
    <rand_chacha::ChaCha8Rng as rand::SeedableRng>::seed_from_u64(seed)
}

impl RandomnessSource {
    /// Creates a fresh source from a seed: nothing has been drawn from it yet.
    pub fn from_seed(seed: u64) -> (r: RandomnessSource)
        ensures
            r@ == (RandomnessV { seed, drawn: Seq::<ParamsV>::empty() }),
    {
        RandomnessSource {
            rng: seeded_chacha(seed),
            seed: Ghost(seed),
            drawn: Ghost(Seq::empty()),
        }
    }
}

/// Mathematical view of one piece of secret key material: the parameters it
/// was sampled under and its coefficients.
#[verifier::ext_equal]
pub ghost struct KeyV {
    pub params: ParamsV,
    pub coeffs: Seq<i64>,
}

/// The coefficients fhe's secret-key sampler returns for one draw: a function
/// of the scheme parameters, the source's seed and what the source has
/// already served — and of nothing else.
pub uninterp spec fn sk_sample(params: ParamsV, seed: u64, drawn: Seq<ParamsV>) -> Seq<i64>;

/// The key material one draw from a source yields under given parameters.
pub open spec fn sampled_key(params: ParamsV, source: RandomnessV) -> KeyV {
    KeyV { params, coeffs: sk_sample(params, source.seed, source.drawn) }
}

/// One secret key share, sampled from a scheme-parameter instance. Opaque
/// cryptographic material: the library hands it to a persistence capability
/// and retains no copy. Supports value equality so that reproducibility is
/// testable.
pub struct SecretKeyMaterial {
    inner: fhe::bfv::SecretKey,
    params: Ghost<ParamsV>,
    coeffs: Ghost<Seq<i64>>,
}

impl View for SecretKeyMaterial {
    type V = KeyV;

    closed spec fn view(&self) -> KeyV {
        KeyV { params: self.params@, coeffs: self.coeffs@ }
    }
}

/// Relies on fhe::bfv::SecretKey::random: it draws the key's coefficients
/// through a deterministic computation on the parameters and the bytes the
/// source yields next, so the result is a function of the parameters, the
/// source's seed and what the source has already served. Every parameter
/// instance this crate builds keeps fhe's default error variance, under which
/// the draw consumes a bounded, parameter-determined stretch of the stream
/// and cannot fail.
#[verifier::external_body]
fn sample_from(params: &SchemeParameters, source: &mut RandomnessSource) -> (r: SecretKeyMaterial)
    ensures
        r@.params == params@,
        r@.coeffs == sk_sample(params@, old(source)@.seed, old(source)@.drawn),
        final(source)@.seed == old(source)@.seed,
        final(source)@.drawn == old(source)@.drawn.push(params@),
{
    let key = fhe::bfv::SecretKey::random(&params.inner, &mut source.rng);
    SecretKeyMaterial { inner: key, params: Ghost(params@), coeffs: Ghost(arbitrary()) }
}

/// Relies on the PartialEq impl fhe derives for SecretKey: two keys are equal
/// exactly when they hold the same parameters and the same coefficients.
/// Every key this crate creates comes from [`sample_from`], whose contract
/// records in the view exactly the parameters and coefficients of that draw,
/// so view equality coincides with fhe's value equality.
#[verifier::external_body]
fn key_eq(a: &SecretKeyMaterial, b: &SecretKeyMaterial) -> (r: bool)
    ensures
        r == (a@ == b@),
{
    a.inner == b.inner
}

/// Samples exactly one secret key share from the parameters, consuming one
/// draw from the source.
pub fn sample_secret_key(
    params: &SchemeParameters,
    source: &mut RandomnessSource,
) -> (r: SecretKeyMaterial)
    ensures
        r@ == sampled_key(params@, old(source)@),
        final(source)@.seed == old(source)@.seed,
        final(source)@.drawn == old(source)@.drawn.push(params@),
{
    sample_from(params, source)
}

impl SecretKeyMaterial {
    /// Value equality of key material: equal exactly when parameters and
    /// coefficients agree.
    pub fn equals(&self, other: &SecretKeyMaterial) -> (r: bool)
        ensures
            r == (self@ == other@),
    {
        key_eq(self, other)
    }
}

/// Sampling is reproducible: under equal parameters, two sources with the
/// same seed that have served the same draws yield equal key material.
pub proof fn lemma_reproducible_sampling(params: ParamsV, a: RandomnessV, b: RandomnessV)
    requires
        a.seed == b.seed,
        a.drawn == b.drawn,
    ensures
        sampled_key(params, a) == sampled_key(params, b),
{
}

} // verus!
