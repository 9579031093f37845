//! Zones du monde : connexions, coffres et objets au sol.

use vstd::prelude::*;

use crate::coffre::Coffre;
use crate::inventaire::Inventaire;

verus! {

/// Une connexion d'une zone vers une autre : une direction et la zone
/// destination.
#[derive(Debug, Clone)]
pub struct Connexion {
    pub direction: String,
    pub id_dest: String,
}

/// Une zone du jeu : ses connexions, ses coffres et les objets qu'elle
/// contient.
#[derive(Debug, Clone)]
pub struct Zone {
    /// Identifiant unique de la zone.
    pub id: u8,
    /// Nom de la zone.
    pub nom: String,
    /// La zone est-elle accessible ?
    pub ouvert: bool,
    /// Description de la zone.
    pub description: String,
    /// Connexions vers les autres zones.
    pub connection: Vec<Connexion>,
    /// Coffres poses dans la zone.
    pub coffres: Vec<Coffre>,
    /// Objets au sol de la zone.
    pub objet_zone: Inventaire,
    /// Un monstre est-il present ?
    pub mob_present: bool,
    /// Prix pour debloquer la zone.
    pub prix: u32,
}

/// Nombre de coffres visibles d'une suite de coffres.
pub open spec fn nb_coffres_visibles(s: Seq<Coffre>) -> int
    decreases s.len(),
{
    if s.len() == 0 {
        0
    } else {
        (if s[0].visible {
            1int
        } else {
            0int
        }) + nb_coffres_visibles(s.drop_first())
    }
}

impl Zone {
    /// Compte les coffres visibles de la zone.
    pub fn compter_coffre(&self) -> (r: usize)
        ensures
            r == nb_coffres_visibles(self.coffres@),
    {
        let n = self.coffres.len();
        let mut cpt: usize = 0;
        let mut i: usize = 0;
        proof {
            assert(self.coffres@.skip(0) =~= self.coffres@);
        }
        while i < n
            invariant
                n == self.coffres@.len(),
                0 <= i <= n,
                cpt <= i,
                cpt + nb_coffres_visibles(self.coffres@.skip(i as int)) == nb_coffres_visibles(
                    self.coffres@,
                ),
            decreases n - i,
        {
            proof {
                assert(self.coffres@.skip(i as int)[0] == self.coffres@[i as int]);
                assert(self.coffres@.skip(i as int).drop_first() =~= self.coffres@.skip(i + 1));
                lemma_nb_coffres_visibles_positif(self.coffres@.skip(i + 1));
            }
            if self.coffres[i].visible {
                cpt = cpt + 1;
            }
            i = i + 1;
        }
        proof {
            assert(self.coffres@.skip(n as int) =~= Seq::<Coffre>::empty());
        }
        cpt
    }

    /// Revele tous les coffres caches de la zone et compte ceux qui viennent
    /// d'etre decouverts.
    pub fn fouiller_zone(&mut self) -> (r: u8)
        requires
            old(self).coffres@.len() <= 255,
        ensures
            final(self).id == old(self).id,
            final(self).nom == old(self).nom,
            final(self).ouvert == old(self).ouvert,
            final(self).description == old(self).description,
            final(self).connection == old(self).connection,
            final(self).objet_zone == old(self).objet_zone,
            final(self).mob_present == old(self).mob_present,
            final(self).prix == old(self).prix,
            final(self).coffres@.len() == old(self).coffres@.len(),
            forall|k: int|
                0 <= k < old(self).coffres@.len() ==> (#[trigger] final(self).coffres@[k]).visible
                    && final(self).coffres@[k]._id == old(self).coffres@[k]._id && final(self).coffres@[k]._id_zone == old(self).coffres@[k]._id_zone && final(self).coffres@[k].ouvert == old(self).coffres@[k].ouvert && final(self).coffres@[k]._description == old(self).coffres@[k]._description && final(self).coffres@[k].inventaire == old(self).coffres@[k].inventaire,
            r == old(self).coffres@.len() - nb_coffres_visibles(old(self).coffres@),
    {
        let n = self.coffres.len();
        let mut cpt: u8 = 0;
        let mut i: usize = 0;
        proof {
            assert(self.coffres@.skip(0) =~= self.coffres@);
        }
        while i < n
            invariant
                n == self.coffres@.len(),
                n == old(self).coffres@.len(),
                n <= 255,
                0 <= i <= n,
                cpt <= i,
                self.id == old(self).id,
                self.nom == old(self).nom,
                self.ouvert == old(self).ouvert,
                self.description == old(self).description,
                self.connection == old(self).connection,
                self.objet_zone == old(self).objet_zone,
                self.mob_present == old(self).mob_present,
                self.prix == old(self).prix,
                forall|k: int|
                    i <= k < n ==> (#[trigger] self.coffres@[k]) == old(self).coffres@[k],
                forall|k: int|
                    0 <= k < i ==> (#[trigger] self.coffres@[k]).visible && self.coffres@[k]._id
                        == old(self).coffres@[k]._id && self.coffres@[k]._id_zone == old(self).coffres@[k]._id_zone && self.coffres@[k].ouvert == old(self).coffres@[k].ouvert && self.coffres@[k]._description == old(self).coffres@[k]._description && self.coffres@[k].inventaire == old(self).coffres@[k].inventaire,
                cpt == i - nb_coffres_visibles(old(self).coffres@.take(i as int)),
            decreases n - i,
        {
            proof {
                let s = old(self).coffres@;
                assert(s.take(i + 1).drop_last() =~= s.take(i as int));
                assert(s.take(i + 1).last() == s[i as int]);
                lemma_nb_coffres_visibles_take(s, i as int);
                lemma_nb_coffres_visibles_positif(s.take(i + 1));
            }
            if !self.coffres[i].visible {
                cpt = cpt + 1;
                self.coffres[i].visible = true;
            }
            i = i + 1;
        }
        proof {
            assert(old(self).coffres@.take(n as int) =~= old(self).coffres@);
        }
        cpt
    }

    /// Retire de la zone le coffre d'indice `num`.
    pub fn supprimer_coffre(&mut self, num: usize)
        requires
            num < old(self).coffres@.len(),
        ensures
            final(self).id == old(self).id,
            final(self).nom == old(self).nom,
            final(self).ouvert == old(self).ouvert,
            final(self).description == old(self).description,
            final(self).connection == old(self).connection,
            final(self).objet_zone == old(self).objet_zone,
            final(self).mob_present == old(self).mob_present,
            final(self).prix == old(self).prix,
            final(self).coffres@ == old(self).coffres@.remove(num as int),
    {
        self.coffres.remove(num);
    }
}

/// Le compte des coffres visibles reste entre zero et la longueur.
proof fn lemma_nb_coffres_visibles_positif(s: Seq<Coffre>)
    ensures
        0 <= nb_coffres_visibles(s) <= s.len(),
    decreases s.len(),
{
    if s.len() == 0 {
    } else {
        lemma_nb_coffres_visibles_positif(s.drop_first());
    }
}

/// Le compte des visibles d'un prefixe avance d'un pas a la fois.
proof fn lemma_nb_coffres_visibles_take(s: Seq<Coffre>, i: int)
    requires
        0 <= i < s.len(),
    ensures
        nb_coffres_visibles(s.take(i + 1)) == nb_coffres_visibles(s.take(i)) + (if s[i].visible {
            1int
        } else {
            0int
        }),
    decreases i,
{
    if i == 0 {
        assert(s.take(1).drop_first() =~= s.take(0));
        assert(s.take(1)[0] == s[0]);
    } else {
        assert(s.take(i + 1)[0] == s[0]);
        assert(s.take(i)[0] == s[0]);
        assert(s.take(i + 1).drop_first() =~= s.drop_first().take(i));
        assert(s.take(i).drop_first() =~= s.drop_first().take(i - 1));
        lemma_nb_coffres_visibles_take(s.drop_first(), i - 1);
        assert(s.drop_first()[i - 1] == s[i]);
    }
}

} // verus!
