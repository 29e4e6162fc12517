//! The key generation orchestrator: sample one secret key share from the
//! given parameters, consuming one draw from the caller's randomness source,
//! hand it to the injected persistence capability exactly once, and propagate
//! any storage failure unchanged. The routine retains no copy of the material
//! after the handoff, never retries, and never interprets a storage failure.

use crate::params::{ParamsV, SchemeParameters};
use crate::persist::{PersistError, PersistenceCapability};
use crate::sampling::{sample_secret_key, sampled_key, KeyV, RandomnessSource, RandomnessV};
use vstd::prelude::*;

verus! {

/// Everything one generation run promises about the capability's observable
/// history: on success the history has grown by exactly the key material
/// sampled in that run — no extra, no missing invocations — and on failure it
/// is unchanged.
pub open spec fn generate_post(
    pre_accepted: Seq<KeyV>,
    post_accepted: Seq<KeyV>,
    params: ParamsV,
    source: RandomnessV,
    r: Result<(), PersistError>,
) -> bool {
    &&& (r is Ok ==> post_accepted == pre_accepted.push(sampled_key(params, source)))
    &&& (r is Err ==> post_accepted == pre_accepted)
}

/// Everything one generation run promises about the capability it ran
/// against: the history clause of [`generate_post`], success where the
/// capability accepts every item, and — where it is configured to fail —
/// failure carrying the capability's reported reason unchanged.
pub open spec fn generate_result_post<P: PersistenceCapability>(
    pre: P,
    post: P,
    params: ParamsV,
    source: RandomnessV,
    r: Result<(), PersistError>,
) -> bool {
    &&& generate_post(pre.accepted(), post.accepted(), params, source, r)
    &&& (pre.always_accepts() ==> r is Ok)
    &&& (pre.always_fails() ==> r is Err && r->Err_0@ == pre.failure_reason())
}

/// Generates one secret key share under the given parameters and hands it to
/// the persistence capability: exactly one sampling and exactly one
/// persistence attempt per invocation, success only if persistence reports
/// success, and any storage failure returned to the caller unchanged.
pub fn generate_and_save_key<P: PersistenceCapability>(
    params: &SchemeParameters,
    persist: &mut P,
    randomness: &mut RandomnessSource,
) -> (r: Result<(), PersistError>)
    requires
        old(persist).wf(),
    ensures
        final(persist).wf(),
        generate_result_post(*old(persist), *final(persist), params@, old(randomness)@, r),
        final(randomness)@.seed == old(randomness)@.seed,
        final(randomness)@.drawn == old(randomness)@.drawn.push(params@),
{
    let sk_share = sample_secret_key(params, randomness);
    persist.accept(sk_share)
}

/// The capability shapes are interchangeable: two generation runs under the
/// same parameters and the same randomness state, against any two capabilities
/// with the same underlying storage semantics — the same prior history and
/// the same storage outcome — leave identical observable histories, whatever
/// the shapes. For the shapes whose outcome the contracts pin, the companion
/// [`lemma_accepting_shapes_equivalent`] discharges the outcome premise.
pub proof fn lemma_capability_shape_equivalence(
    pre_a: Seq<KeyV>,
    post_a: Seq<KeyV>,
    r_a: Result<(), PersistError>,
    pre_b: Seq<KeyV>,
    post_b: Seq<KeyV>,
    r_b: Result<(), PersistError>,
    params: ParamsV,
    source: RandomnessV,
)
    requires
        generate_post(pre_a, post_a, params, source, r_a),
        generate_post(pre_b, post_b, params, source, r_b),
        pre_a == pre_b,
        (r_a is Ok) == (r_b is Ok),
    ensures
        post_a == post_b,
{
}

/// For capabilities that accept every item — the single-accept sink and the
/// keyed store adapted down by fixing the storage key — swapping shapes is
/// behavior-preserving with no premise on the outcomes: two generation runs
/// under the same parameters and randomness state, from equal prior
/// histories, both succeed and leave the same history, grown by exactly the
/// sampled key.
pub proof fn lemma_accepting_shapes_equivalent<A: PersistenceCapability, B: PersistenceCapability>(
    pre_a: A,
    post_a: A,
    r_a: Result<(), PersistError>,
    pre_b: B,
    post_b: B,
    r_b: Result<(), PersistError>,
    params: ParamsV,
    source: RandomnessV,
)
    requires
        generate_result_post(pre_a, post_a, params, source, r_a),
        generate_result_post(pre_b, post_b, params, source, r_b),
        pre_a.accepted() == pre_b.accepted(),
        pre_a.always_accepts(),
        pre_b.always_accepts(),
    ensures
        r_a is Ok,
        r_b is Ok,
        post_a.accepted() == post_b.accepted(),
        post_a.accepted() == pre_a.accepted().push(sampled_key(params, source)),
{
}

} // verus!
