//! Key generation for a ciphernode: a node of a distributed
//! encryption/decryption network that must derive one secret key share and
//! hand it to a storage subsystem it does not itself implement.
//!
//! The crate is split along its seams:
//!
//! - `params` resolves an expected population size to an immutable set of
//!   scheme parameters through a fixed, monotonic band table.
//! - `sampling` draws one secret key share from those parameters, consuming a
//!   caller-supplied randomness source, so that generation is deterministic
//!   and reproducible under a fixed seed.
//! - `persist` is the storage capability boundary: a one-method contract that
//!   any backend satisfies through a thin adapter, explored in three
//!   equivalent shapes.
//! - `orchestrator` ties them together: sample once, persist once, propagate
//!   any storage failure unchanged.

mod orchestrator;
mod params;
mod persist;
mod sampling;

pub use orchestrator::{
    generate_and_save_key, generate_post, generate_result_post,
    lemma_accepting_shapes_equivalent, lemma_capability_shape_equivalence,
};
pub use params::{
    bfv_accepts, lemma_band_totality, lemma_resolve_deterministic, plaintext_modulus_for, resolve,
    resolve_post, resolved_params, spec_plaintext_modulus, ParameterConstructionError, ParamsV,
    SchemeParameters, COEFFICIENT_MODULUS, POLYNOMIAL_DEGREE,
};
pub use persist::{
    map_of, FailingCapability, FnCapability, KeySink, KeyedStore, PersistError,
    PersistenceCapability, STORAGE_KEY,
};
pub use sampling::{
    lemma_reproducible_sampling, sample_secret_key, sampled_key, sk_sample, KeyV,
    RandomnessSource, RandomnessV, SecretKeyMaterial,
};
