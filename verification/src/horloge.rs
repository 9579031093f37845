//! Lecture de l'horloge murale, en secondes entieres depuis l'epoque Unix.

use vstd::prelude::*;

verus! {

/// Borne sur la valeur absolue d'un instant que l'horloge peut rendre :
/// chrono limite les dates a des annees de grandeur inferieure a 262146,
/// soit bien moins de 10^13 secondes de part et d'autre de l'epoque.
pub const BORNE_HORLOGE: i64 = 10_000_000_000_000;

/// Marge au-dela de `BORNE_HORLOGE` que peut atteindre une date de guerison
/// calculee a partir de l'instant courant (au plus une heure et quelques
/// minutes sont ajoutees a un instant lu sur l'horloge).
pub const MARGE_GUERISON: i64 = 6_000;

/// S'appuie sur chrono::Utc::now et DateTime::timestamp : l'instant courant en
/// secondes entieres depuis l'epoque Unix, toujours dans la plage des dates
/// representables par chrono.
#[verifier::external_body]
pub(crate) fn maintenant_secondes() -> (r: i64)
    ensures
        -BORNE_HORLOGE <= r <= BORNE_HORLOGE,
{
    chrono::Utc::now().timestamp()
}

} // verus!
