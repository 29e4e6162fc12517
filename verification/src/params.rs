//! Parameter resolution: a population size is classified into one of a fixed
//! ordered set of half-open bands, each band names one plaintext modulus, and
//! the chosen modulus is combined with a fixed polynomial degree and a fixed
//! coefficient-modulus chain into an immutable [`SchemeParameters`] value.

use vstd::prelude::*;

verus! {

/// The polynomial degree every resolved parameter set uses.
pub const POLYNOMIAL_DEGREE: usize = 2048;

/// The single 64-bit coefficient modulus every resolved parameter set uses.
pub const COEFFICIENT_MODULUS: u64 = 0x3FFFFFFF000001;

/// Mathematical view of one scheme-parameter instance: the three values that
/// determine it.
#[verifier::ext_equal]
pub ghost struct ParamsV {
    pub degree: nat,
    pub plaintext_modulus: nat,
    pub moduli: Seq<u64>,
}

/// The plaintext modulus owed to a population size: a total function on the
/// positive integers, constant on each band, with a catch-all for every size
/// above the last band.
pub open spec fn spec_plaintext_modulus(population_size: nat) -> nat {
    if population_size < 1000 {
        1009
    } else if population_size < 10000 {
        10007
    } else if population_size < 100000 {
        100003
    } else if population_size < 200000 {
        200003
    } else if population_size < 300000 {
        300007
    } else if population_size < 400000 {
        400009
    } else if population_size < 500000 {
        500009
    } else if population_size < 600000 {
        600011
    } else if population_size < 700000 {
        700001
    } else if population_size < 800000 {
        800011
    } else if population_size < 900000 {
        900001
    } else {
        1032193
    }
}

/// Selects the plaintext modulus for a population size from the band table.
pub fn plaintext_modulus_for(population_size: usize) -> (r: u64)
    requires
        1 <= population_size,
    ensures
        r as nat == spec_plaintext_modulus(population_size as nat),
{
    if population_size < 1000 {
        1009
    } else if population_size < 10000 {
        10007
    } else if population_size < 100000 {
        100003
    } else if population_size < 200000 {
        200003
    } else if population_size < 300000 {
        300007
    } else if population_size < 400000 {
        400009
    } else if population_size < 500000 {
        500009
    } else if population_size < 600000 {
        600011
    } else if population_size < 700000 {
        700001
    } else if population_size < 800000 {
        800011
    } else if population_size < 900000 {
        900001
    } else {
        1032193
    }
}

#[verifier::external_type_specification]
#[verifier::external_body]
pub struct ExBfvParameters(fhe::bfv::BfvParameters);

#[verifier::external_type_specification]
#[verifier::external_body]
pub struct ExFheError(fhe::Error);

/// Whether fhe's parameter builder, left at its default error variance,
/// accepts a combination of degree, plaintext modulus and modulus chain.
/// Building is a pure computation, so acceptance is a function of those
/// values alone.
pub uninterp spec fn bfv_accepts(p: ParamsV) -> bool;

/// Relies on fhe::bfv::BfvParametersBuilder: `build_arc` is a deterministic
/// computation on the degree, plaintext modulus and modulus chain set on the
/// builder (the error variance stays at the builder's default), so whether it
/// returns `Ok` is a function of those values alone.
///
/// On some combinations outside the domain this crate resolves in, the
/// builder panics instead of returning an error: a plaintext modulus that is
/// a multiple of a chain modulus makes an internal inversion fail, and one at
/// or above a chain modulus trips a debug assertion. The `requires` therefore
/// pins the call to the fixed degree, the fixed prime chain, and a plaintext
/// modulus below that prime, where every residue the builder inverts is
/// nonzero modulo a prime and the build returns normally.
#[verifier::external_body]
fn build_bfv_parameters(
    degree: usize,
    plaintext_modulus: u64,
    moduli: &Vec<u64>,
) -> (r: Result<std::sync::Arc<fhe::bfv::BfvParameters>, fhe::Error>)
    requires
        degree == POLYNOMIAL_DEGREE,
        moduli@ == seq![COEFFICIENT_MODULUS],
        plaintext_modulus < COEFFICIENT_MODULUS,
    ensures
        (r is Ok) == bfv_accepts(
            ParamsV {
                degree: degree as nat,
                plaintext_modulus: plaintext_modulus as nat,
                moduli: moduli@,
            },
        ),
{
    fhe::bfv::BfvParametersBuilder::new()
        .set_degree(degree)
        .set_plaintext_modulus(plaintext_modulus)
        .set_moduli(moduli)
        .build_arc()
}

/// Relies on the Display impl of fhe::Error (generated by thiserror) to
/// render the scheme's rejection reason as text.
#[verifier::external_body]
fn fhe_error_message(e: &fhe::Error) -> String {
    e.to_string()
}

/// The scheme rejected a parameter combination. This is a configuration
/// fault surfaced immediately to the caller; it is never retried.
#[derive(Debug)]
pub struct ParameterConstructionError {
    message: String,
}

impl View for ParameterConstructionError {
    type V = Seq<char>;

    closed spec fn view(&self) -> Seq<char> {
        self.message@
    }
}

impl ParameterConstructionError {
    /// The scheme's rejection reason, as text.
    pub fn message(&self) -> (r: &String)
        ensures
            r@ == self@,
    {
        &self.message
    }
}

/// An immutable scheme-parameter instance: the fixed polynomial degree, the
/// fixed coefficient-modulus chain, and the plaintext modulus chosen by
/// population-size band, together with the handle the underlying scheme built
/// from exactly those values. Only [`resolve`] constructs one, so the handle
/// always corresponds to the three plain fields.
pub struct SchemeParameters {
    degree: usize,
    plaintext_modulus: u64,
    moduli: Vec<u64>,
    pub(crate) inner: std::sync::Arc<fhe::bfv::BfvParameters>,
}

impl View for SchemeParameters {
    type V = ParamsV;

    closed spec fn view(&self) -> ParamsV {
        ParamsV {
            degree: self.degree as nat,
            plaintext_modulus: self.plaintext_modulus as nat,
            moduli: self.moduli@,
        }
    }
}

impl SchemeParameters {
    /// The polynomial degree of this instance.
    pub fn degree(&self) -> (r: usize)
        ensures
            r as nat == self@.degree,
    {
        self.degree
    }

    /// The plaintext modulus of this instance.
    pub fn plaintext_modulus(&self) -> (r: u64)
        ensures
            r as nat == self@.plaintext_modulus,
    {
        self.plaintext_modulus
    }

    /// The coefficient-modulus chain of this instance.
    pub fn moduli(&self) -> (r: &Vec<u64>)
        ensures
            r@ == self@.moduli,
    {
        &self.moduli
    }
}

/// The parameter view owed to a population size: the band's plaintext modulus
/// beside the fixed degree and the fixed modulus chain.
pub open spec fn resolved_params(population_size: nat) -> ParamsV {
    ParamsV {
        degree: POLYNOMIAL_DEGREE as nat,
        plaintext_modulus: spec_plaintext_modulus(population_size),
        moduli: seq![COEFFICIENT_MODULUS],
    }
}

/// Everything [`resolve`] promises: it returns scheme parameters exactly when
/// the underlying scheme accepts the resolved combination, and the parameters
/// it returns are exactly the resolved ones.
pub open spec fn resolve_post(
    population_size: nat,
    r: Result<SchemeParameters, ParameterConstructionError>,
) -> bool {
    &&& (r is Ok) == bfv_accepts(resolved_params(population_size))
    &&& (r is Ok ==> r->Ok_0@ == resolved_params(population_size))
}

/// Resolves a population size to an immutable scheme-parameter instance: a
/// pure function of its input given the fixed band table, degree and modulus
/// chain. Fails only if the underlying scheme rejects the combination.
pub fn resolve(population_size: usize) -> (r: Result<
    SchemeParameters,
    ParameterConstructionError,
>)
    requires
        1 <= population_size,
    ensures
        resolve_post(population_size as nat, r),
{
    let plaintext_modulus = plaintext_modulus_for(population_size);
    let mut moduli: Vec<u64> = Vec::new();
    moduli.push(COEFFICIENT_MODULUS);
    proof {
        assert(moduli@ =~= seq![COEFFICIENT_MODULUS]);
        assert(spec_plaintext_modulus(population_size as nat) <= 1032193);
    }
    match build_bfv_parameters(POLYNOMIAL_DEGREE, plaintext_modulus, &moduli) {
        Ok(inner) => Ok(
            SchemeParameters { degree: POLYNOMIAL_DEGREE, plaintext_modulus, moduli, inner },
        ),
        Err(e) => Err(ParameterConstructionError { message: fhe_error_message(&e) }),
    }
}

/// Two calls to [`resolve`] with the same input yield identical scheme
/// parameters: any two results that satisfy its contract for one population
/// size succeed or fail together, and on success carry equal views.
pub proof fn lemma_resolve_deterministic(
    population_size: nat,
    first: Result<SchemeParameters, ParameterConstructionError>,
    second: Result<SchemeParameters, ParameterConstructionError>,
)
    requires
        1 <= population_size,
        resolve_post(population_size, first),
        resolve_post(population_size, second),
    ensures
        (first is Ok) == (second is Ok),
        first is Ok ==> first->Ok_0@ == second->Ok_0@,
{
}

/// Every positive population size maps to exactly one band constant, with no
/// gap: the selection is a total function whose value is always one of the
/// twelve table entries, and the table is monotonic in the population size.
pub proof fn lemma_band_totality(a: nat, b: nat)
    requires
        1 <= a,
        a <= b,
    ensures
        spec_plaintext_modulus(a) == 1009 || spec_plaintext_modulus(a) == 10007
            || spec_plaintext_modulus(a) == 100003 || spec_plaintext_modulus(a) == 200003
            || spec_plaintext_modulus(a) == 300007 || spec_plaintext_modulus(a) == 400009
            || spec_plaintext_modulus(a) == 500009 || spec_plaintext_modulus(a) == 600011
            || spec_plaintext_modulus(a) == 700001 || spec_plaintext_modulus(a) == 800011
            || spec_plaintext_modulus(a) == 900001 || spec_plaintext_modulus(a) == 1032193,
        spec_plaintext_modulus(a) <= spec_plaintext_modulus(b),
{
}

} // verus!
