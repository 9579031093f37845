//! Recherche de motif dans des chaines, et passage en minuscules.
//!
//! La classification des parties du corps (tete, torse, bras, jambe) repose
//! sur la presence d'un mot dans le nom de la partie, sans tenir compte de la
//! casse : le nom est d'abord passe en minuscules, puis le mot y est cherche
//! d'un seul tenant.

use vstd::prelude::*;

verus! {

/// Suite des caracteres de `s` passee en minuscules, telle que
/// `str::to_lowercase` la calcule : une fonction des caracteres seuls.
pub uninterp spec fn minuscules_de(s: Seq<char>) -> Seq<char>;

/// S'appuie sur str::to_lowercase : le resultat ne depend que des caracteres
/// de `s`, et une chaine vide reste vide.
#[verifier::external_body]
pub(crate) fn en_minuscules(s: &str) -> (r: String)
    ensures
        r@ == minuscules_de(s@),
        s@.len() == 0 ==> r@.len() == 0,
{
    s.to_lowercase()
}

/// Vrai quand `motif` apparait d'un seul tenant dans `s`.
pub open spec fn contient_motif(s: Seq<char>, motif: Seq<char>) -> bool {
    exists|i: int| 0 <= i && i + motif.len() <= s.len() && #[trigger] s.subrange(i, i + motif.len()) == motif
}

/// Vrai quand le nom `nom`, passe en minuscules, contient le mot `motif`.
pub open spec fn nom_contient(nom: Seq<char>, motif: Seq<char>) -> bool {
    contient_motif(minuscules_de(nom), motif)
}

/// Compare `motif` au troncon de `s` qui commence a `depart`.
fn correspond_en(s: &str, motif: &str, depart: usize) -> (r: bool)
    requires
        depart + motif@.len() <= s@.len(),
        depart + motif@.len() <= usize::MAX,
    ensures
        r == (s@.subrange(depart as int, depart + motif@.len()) == motif@),
{
    let m = motif.unicode_len();
    let mut j: usize = 0;
    while j < m
        invariant
            m == motif@.len(),
            depart + m <= s@.len(),
            depart + m <= usize::MAX,
            0 <= j <= m,
            forall|k: int| 0 <= k < j ==> s@[depart + k] == motif@[k],
        decreases m - j,
    {
        if s.get_char(depart + j) != motif.get_char(j) {
            proof {
                let tron = s@.subrange(depart as int, depart + motif@.len());
                assert(tron[j as int] == s@[depart + j]);
            }
            return false;
        }
        j = j + 1;
    }
    proof {
        assert(s@.subrange(depart as int, depart + motif@.len()) =~= motif@);
    }
    true
}

/// Cherche `motif` d'un seul tenant dans `s`, a toutes les positions.
pub fn contient(s: &str, motif: &str) -> (r: bool)
    ensures
        r == contient_motif(s@, motif@),
{
    let n = s.unicode_len();
    let m = motif.unicode_len();
    if m > n {
        return false;
    }
    if m == 0 {
        proof {
            assert(s@.subrange(0, 0 + motif@.len() as int) =~= motif@);
            assert(contient_motif(s@, motif@));
        }
        return true;
    }
    let borne = n - m;
    let mut i: usize = 0;
    while i <= borne
        invariant
            n == s@.len(),
            m == motif@.len(),
            1 <= m <= n,
            borne == n - m,
            0 <= i <= borne + 1,
            forall|k: int| 0 <= k < i ==> #[trigger] s@.subrange(k, k + motif@.len()) != motif@,
        decreases borne + 1 - i,
    {
        if correspond_en(s, motif, i) {
            return true;
        }
        i = i + 1;
    }
    false
}

/// Cherche le mot `motif` dans le nom `nom` sans tenir compte de la casse.
pub fn nom_correspond(nom: &str, motif: &str) -> (r: bool)
    ensures
        r == nom_contient(nom@, motif@),
{
    let bas = en_minuscules(nom);
    contient(bas.as_str(), motif)
}

/// Compare deux chaines caractere par caractere.
pub fn chaines_egales(a: &str, b: &str) -> (r: bool)
    ensures
        r == (a@ == b@),
{
    let n = a.unicode_len();
    if n != b.unicode_len() {
        return false;
    }
    let mut i: usize = 0;
    while i < n
        invariant
            n == a@.len(),
            n == b@.len(),
            0 <= i <= n,
            forall|k: int| 0 <= k < i ==> a@[k] == b@[k],
        decreases n - i,
    {
        if a.get_char(i) != b.get_char(i) {
            return false;
        }
        i = i + 1;
    }
    proof {
        assert(a@ =~= b@);
    }
    true
}

} // verus!
