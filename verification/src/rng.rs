//! The simulation's one outside dependency: uniform random draws for the
//! spawner.

use vstd::prelude::*;

verus! {

/// Relies on rand::random: a fresh value of the standard distribution.
/// Nothing can be promised of a random draw, so this carries no contract;
/// every caller must hold for every outcome.
pub assume_specification<T>[ rand::random::<T> ]() -> (r: T)
    where
        rand::distributions::Standard: rand::distributions::Distribution<T>,
;

} // verus!
