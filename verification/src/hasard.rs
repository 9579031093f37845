//! Tirages aleatoires uniformes, source du non-determinisme du combat.

use vstd::prelude::*;

verus! {

/// S'appuie sur rand::random_range : un tirage uniforme dans `0..borne`,
/// toujours strictement sous la borne; la fonction de rand ne panique que sur
/// un intervalle vide, exclu ici.
#[verifier::external_body]
pub(crate) fn entier_aleatoire(borne: usize) -> (r: usize)
    requires
        borne > 0,
    ensures
        r < borne,
{
    rand::random_range(0..borne)
}

} // verus!
