//! The random sources that the decorators draw from, as provided by `rand`.
use vstd::prelude::*;
use rand::distributions::Distribution;
use rand::SeedableRng;

verus! {

#[verifier::external_type_specification]
#[verifier::external_body]
pub struct ExSmallRng(rand::rngs::SmallRng);

#[verifier::external_type_specification]
#[verifier::external_body]
pub struct ExRandError(rand::Error);

#[verifier::external_type_specification]
#[verifier::external_body]
pub struct ExBernoulli(rand::distributions::Bernoulli);

#[verifier::external_type_specification]
#[verifier::external_body]
pub struct ExBernoulliError(rand::distributions::BernoulliError);

/// The generator for one decorated socket could not be seeded.
#[derive(Debug, PartialEq, Eq, Structural)]
pub struct RngSeedError;

/// The Bernoulli distribution that `rand` builds from a ratio of two integers.
pub uninterp spec fn bernoulli_of_ratio(numerator: u32, denominator: u32) -> rand::distributions::Bernoulli;

/// Relies on `rand::distributions::Bernoulli::from_ratio`: it refuses a zero
/// denominator and a numerator above the denominator, and otherwise builds the
/// distribution from the two integers alone.
#[verifier::external_body]
pub(crate) fn bernoulli_from_ratio(numerator: u32, denominator: u32) -> (r: Result<
    rand::distributions::Bernoulli,
    rand::distributions::BernoulliError,
>)
    ensures
        r is Ok <==> (0 < denominator && numerator <= denominator),
        r matches Ok(b) ==> b == bernoulli_of_ratio(numerator, denominator),
{
    rand::distributions::Bernoulli::from_ratio(numerator, denominator)
}

/// Relies on `Distribution::<bool>::sample` for `Bernoulli`: a distribution
/// built from equal numerator and denominator yields `true` without drawing;
/// otherwise a fresh `u64` is compared below a threshold, which is zero for a
/// zero numerator, so that one never yields `true`.
#[verifier::external_body]
pub(crate) fn sample_bernoulli(
    b: &rand::distributions::Bernoulli,
    rng: &mut rand::rngs::SmallRng,
) -> (r: bool)
    ensures
        forall|d: u32| 0 < d && *b == #[trigger] bernoulli_of_ratio(0, d) ==> !r,
        forall|n: u32| 0 < n && *b == #[trigger] bernoulli_of_ratio(n, n) ==> r,
{
    b.sample(rng)
}

/// Relies on `rand::rngs::OsRng` and `SeedableRng::from_rng` for `SmallRng`:
/// a small generator seeded from the operating system's entropy source, or
/// the error that the entropy source reported while filling the seed.
#[verifier::external_body]
fn small_rng_from_os_rng() -> (r: Result<rand::rngs::SmallRng, rand::Error>) {
    rand::rngs::SmallRng::from_rng(rand::rngs::OsRng)
}

/// A freshly seeded generator for one decorated socket, or an error where
/// the operating system could not supply the entropy for its seed.
pub fn fresh_rng() -> (r: Result<rand::rngs::SmallRng, RngSeedError>) {
    match small_rng_from_os_rng() {
        Ok(rng) => Ok(rng),
        Err(_) => Err(RngSeedError),
    }
}

} // verus!
