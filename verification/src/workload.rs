//! Workload generation: random key-value datasets for the benchmark
//! phases, with a configurable update/insert split.

use vstd::arithmetic::div_mod::{
    lemma_basic_div, lemma_div_is_ordered, lemma_div_multiples_vanish_fancy,
};
use vstd::arithmetic::mul::lemma_mul_inequality;
use vstd::prelude::*;

verus! {

/// Number of pairs written during a backend's initial population phase.
pub const INITIAL_DATA_SIZE: usize = 10_000_000;

/// Number of pairs written during a backend's mixed update/insert phase.
pub const DATA_SIZE: usize = 100_000;

/// Error returned when a mixed workload asks for updates but the set of
/// existing pairs to draw their keys from is empty.
#[derive(Clone, Copy, PartialEq, Eq, Structural, Debug)]
pub struct EmptyExistingSetError;

/// An update/insert split ratio in [0, 1], kept as a rational number so
/// that the update count of a mixed workload is computed exactly.
#[derive(Clone, Copy, PartialEq, Eq, Structural, Debug)]
pub struct Fraction {
    pub num: u64,
    pub den: u64,
}

impl Fraction {
    /// A fraction is valid when it denotes a ratio in [0, 1].
    pub open spec fn valid(self) -> bool {
        1 <= self.den && self.num <= self.den
    }

    /// A positive ratio asks for at least a chance of updates.
    pub open spec fn is_positive(self) -> bool {
        self.num > 0
    }

    pub fn new(num: u64, den: u64) -> (r: Fraction)
        requires
            1 <= den,
            num <= den,
        ensures
            r.num == num,
            r.den == den,
            r.valid(),
    {
        Fraction { num, den }
    }
}

/// `total * f` rounded to the nearest integer, halves rounded up.
pub open spec fn rounded_share(total: nat, f: Fraction) -> nat {
    (((total as int) * (f.num as int) + (f.den as int) / 2) / (f.den as int)) as nat
}

/// A rounded share of `total` never exceeds `total` itself.
proof fn lemma_rounded_share_le(total: nat, f: Fraction)
    requires
        f.valid(),
    ensures
        rounded_share(total, f) <= total,
{
    let n = f.num as int;
    let d = f.den as int;
    let t = total as int;
    lemma_mul_inequality(n, d, t);
    assert(t * n == n * t) by (nonlinear_arith);
    assert(t * d == d * t) by (nonlinear_arith);
    assert(t * n + d / 2 <= t * d + d / 2);
    lemma_div_is_ordered(t * n + d / 2, d * t + d / 2, d);
    lemma_div_multiples_vanish_fancy(t, d / 2, d);
}

/// A zero ratio always yields a zero share.
proof fn lemma_rounded_share_zero(total: nat, f: Fraction)
    requires
        f.valid(),
        !f.is_positive(),
    ensures
        rounded_share(total, f) == 0,
{
    let d = f.den as int;
    assert(total * f.num == 0) by (nonlinear_arith)
        requires
            f.num == 0,
    ;
    lemma_basic_div(d / 2, d);
}

/// How many entries of a mixed workload of `total` pairs are updates.
pub fn update_share(total: usize, f: Fraction) -> (r: usize)
    requires
        f.valid(),
    ensures
        r == rounded_share(total as nat, f),
        r <= total,
{
    proof {
        lemma_rounded_share_le(total as nat, f);
        assert((total as int) * (f.num as int) <= (u64::MAX as int) * (u64::MAX as int))
            by (nonlinear_arith)
            requires
                0 <= total as int <= u64::MAX as int,
                0 <= f.num as int <= u64::MAX as int,
        ;
    }
    let wide: u128 = (total as u128) * (f.num as u128) + (f.den as u128) / 2;
    (wide / (f.den as u128)) as usize
}

/// Draws one uniformly random 64-bit value.
///
/// Relies on `rand::random::<u64>`: a fresh sample from the process-local
/// generator; nothing can be promised of the value.
#[verifier::external_body]
fn random_u64() -> u64 {
    rand::random::<u64>()
}

/// Picks a uniformly random index below `bound`.
///
/// Relies on `rand::Rng::gen_range` over `0..bound`: the result lies in
/// that range, and the call panics only on an empty range, which the
/// precondition rules out.
#[verifier::external_body]
fn random_index(bound: usize) -> (r: usize)
    requires
        1 <= bound,
    ensures
        r < bound,
{
    rand::Rng::gen_range(&mut rand::thread_rng(), 0..bound)
}

/// Whether some pair of `data` carries the key `key`.
pub open spec fn seq_has_key(data: Seq<(u64, u64)>, key: u64) -> bool {
    exists|j: int| 0 <= j < data.len() && data[j].0 == key
}

/// Returns exactly `n` pairs with independently random keys and values.
/// Key collisions within the result are possible and accepted.
pub fn generate_initial(n: usize) -> (data: Vec<(u64, u64)>)
    ensures
        data@.len() == n,
{
    let mut data: Vec<(u64, u64)> = Vec::new();
    let mut i: usize = 0;
    while i < n
        invariant
            i <= n,
            data@.len() == i,
        decreases n - i,
    {
        data.push((random_u64(), random_u64()));
        i = i + 1;
    }
    data
}

/// Returns exactly `total` pairs: first `rounded_share(total, f)` updates,
/// whose keys are drawn from `existing` and paired with fresh random
/// values, then fresh random insert pairs. Fails exactly when `existing`
/// is empty while the ratio asks for updates.
pub fn generate_update_mix(existing: &Vec<(u64, u64)>, total: usize, update_fraction: Fraction)
    -> (r: Result<Vec<(u64, u64)>, EmptyExistingSetError>)
    requires
        update_fraction.valid(),
    ensures
        match r {
            Ok(data) => {
                &&& !(existing@.len() == 0 && update_fraction.is_positive())
                &&& data@.len() == total
                &&& forall|i: int|
                    0 <= i < rounded_share(total as nat, update_fraction)
                        ==> seq_has_key(existing@, (#[trigger] data@[i]).0)
            },
            Err(_) => existing@.len() == 0 && update_fraction.is_positive(),
        },
{
    if existing.len() == 0 && update_fraction.num > 0 {
        return Err(EmptyExistingSetError);
    }
    proof {
        if !update_fraction.is_positive() {
            lemma_rounded_share_zero(total as nat, update_fraction);
        }
    }
    let update_count = update_share(total, update_fraction);
    let mut data: Vec<(u64, u64)> = Vec::new();
    let mut i: usize = 0;
    while i < update_count
        invariant
            i <= update_count,
            update_count <= total,
            data@.len() == i,
            update_count > 0 ==> existing@.len() >= 1,
            forall|j: int| 0 <= j < i ==> seq_has_key(existing@, (#[trigger] data@[j]).0),
        decreases update_count - i,
    {
        let idx = random_index(existing.len());
        let key = existing[idx].0;
        data.push((key, random_u64()));
        proof {
            assert(seq_has_key(existing@, key));
        }
        i = i + 1;
    }
    while i < total
        invariant
            update_count <= i <= total,
            data@.len() == i,
            forall|j: int|
                0 <= j < update_count ==> seq_has_key(existing@, (#[trigger] data@[j]).0),
        decreases total - i,
    {
        data.push((random_u64(), random_u64()));
        i = i + 1;
    }
    Ok(data)
}

/// The keys of a dataset, in dataset order.
pub fn dataset_keys(data: &Vec<(u64, u64)>) -> (keys: Vec<u64>)
    ensures
        keys@.len() == data@.len(),
        forall|i: int| 0 <= i < data@.len() ==> keys@[i] == (#[trigger] data@[i]).0,
{
    let mut keys: Vec<u64> = Vec::new();
    let mut i: usize = 0;
    while i < data.len()
        invariant
            i <= data@.len(),
            keys@.len() == i,
            forall|j: int| 0 <= j < i ==> keys@[j] == (#[trigger] data@[j]).0,
        decreases data@.len() - i,
    {
        keys.push(data[i].0);
        i = i + 1;
    }
    keys
}

/// The large initial dataset of the population phase.
pub fn generate_large_initial_data() -> (data: Vec<(u64, u64)>)
    ensures
        data@.len() == INITIAL_DATA_SIZE,
{
    generate_initial(INITIAL_DATA_SIZE)
}

/// The dataset of the lighter single-phase runs.
pub fn generate_test_data() -> (data: Vec<(u64, u64)>)
    ensures
        data@.len() == DATA_SIZE,
{
    generate_initial(DATA_SIZE)
}

/// The mixed workload of the update-heavy phase: 95% updates against
/// `existing_keys`, 5% fresh inserts.
pub fn generate_mixed_update_data(existing_keys: &Vec<(u64, u64)>) -> (data: Vec<(u64, u64)>)
    requires
        existing_keys@.len() >= 1,
    ensures
        data@.len() == DATA_SIZE,
        forall|i: int|
            0 <= i < rounded_share(DATA_SIZE as nat, Fraction { num: 19, den: 20 })
                ==> seq_has_key(existing_keys@, (#[trigger] data@[i]).0),
{
    let f = Fraction::new(19, 20);
    match generate_update_mix(existing_keys, DATA_SIZE, f) {
        Ok(data) => data,
        Err(_) => {
            proof {
                assert(false);
            }
            Vec::new()
        },
    }
}

} // verus!
