//! Source of randomness for the probability checks of the simulation.
//!
//! The engine never relies on any distribution property: every verified
//! function states what holds of each possible draw. A deterministic
//! sequence source makes whole runs reproducible, as tests need.

use vstd::prelude::*;

verus! {

/// Relies on rand::Rng::gen_range over `0..m`: the range is non-empty
/// because `m >= 1`, so the call does not panic, and the sampled value
/// lies in `[0, m)`. Nothing more is assumed of the draw.
#[verifier::external_body]
fn tirage_systeme(m: u64) -> (r: u64)
    requires
        m >= 1,
    ensures
        r < m,
{
    rand::Rng::gen_range(&mut rand::thread_rng(), 0..m)
}

/// A source of uniform draws: either the process-wide entropy source,
/// or a fixed queue of values for reproducible runs. The queue keeps
/// the values and the index of the next one to serve.
#[derive(Debug)]
pub enum GenerateurAlea {
    Systeme,
    Sequence(Vec<u64>, usize),
}

impl GenerateurAlea {
    /// Next value in `[0, m)`. A `Sequence` source serves its queued
    /// values reduced modulo `m`, then `m - 1` once exhausted.
    pub fn suivant(&mut self, m: u64) -> (r: u64)
        requires
            m >= 1,
        ensures
            r < m,
            *old(self) is Systeme ==> *final(self) is Systeme,
    {
        match self {
            GenerateurAlea::Systeme => tirage_systeme(m),
            GenerateurAlea::Sequence(valeurs, indice) => {
                if *indice < valeurs.len() {
                    let v = valeurs[*indice];
                    *indice = *indice + 1;
                    v % m
                } else {
                    m - 1
                }
            },
        }
    }
}

} // verus!
