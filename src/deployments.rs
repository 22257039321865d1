//! Deployment command arguments and the seed handling behind them.

use vstd::prelude::*;
use crate::text::{decimal, decimal_string};
use vstd::string::StringSliceAdditionalSpecFns;

verus! {

/// The deployment tiers on offer.
#[derive(Clone, Copy, Debug, PartialEq, Eq, Structural)]
pub enum Tier {
    Basic,
}

impl Tier {
    /// The tier's name as the deployment service knows it.
    pub fn deployment_tier(&self) -> (r: String)
        ensures
            match self {
                Tier::Basic => r@ == "basic"@,
            },
    {
        match self {
            Tier::Basic => String::from_str("basic"),
        }
    }
}

/// Arguments of the command that creates a deployment.
#[derive(Clone, Debug)]
pub struct CreateArgs {
    pub project: String,
    pub tier: Tier,
}

/// Arguments of the command that lists a deployment's prefunded accounts.
#[derive(Clone, Debug)]
pub struct AccountsArgs {
    pub project: String,
}

/// The 32-byte seed for a seed string: its first 32 bytes, padded with zeros
/// where it is shorter.
pub open spec fn seed_of(bytes: Seq<u8>) -> Seq<u8> {
    Seq::new(32, |i: int| if i < bytes.len() { bytes[i] } else { 0u8 })
}

/// Turns a seed string into the 32 bytes that seed account generation.
pub fn parse_seed(seed: &str) -> (r: [u8; 32])
    ensures
        r@ == seed_of(seed.spec_bytes()),
{
    let bytes = seed.as_bytes();
    let n: usize = if bytes.len() < 32 {
        bytes.len()
    } else {
        32
    };
    let mut out = [0u8; 32];
    let mut i: usize = 0;
    while i < n
        invariant
            n <= 32,
            n <= bytes@.len(),
            n == 32 || n == bytes@.len(),
            i <= n,
            bytes@ == seed.spec_bytes(),
            out@.len() == 32,
            forall|j: int| 0 <= j < i ==> out@[j] == bytes@[j],
            forall|j: int| i <= j < 32 ==> out@[j] == 0u8,
        decreases n - i,
    {
        out[i] = bytes[i];
        i = i + 1;
    }
    assert(out@ =~= seed_of(seed.spec_bytes()));
    out
}

/// Relies on `rand::random`: a value drawn from the thread-local generator.
/// Nothing is promised of the value.
pub assume_specification<T>[ rand::random::<T> ]() -> (r: T)
    where
        rand::distributions::Standard: rand::distributions::Distribution<T>,
;

/// The seed for a new Katana service: the one given, else the decimal text
/// of a random number.
pub fn katana_seed(given: Option<String>) -> (r: String)
    ensures
        match given {
            Some(s) => r@ == s@,
            None => exists|n: u64| r@ == decimal(n as nat),
        },
{
    match given {
        Some(s) => s,
        None => {
            let n: u64 = rand::random::<u64>();
            decimal_string(n)
        },
    }
}

} // verus!
