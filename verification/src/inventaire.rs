//! Inventaires : piles bornees d'objets identifies, ranges par quantite
//! decroissante.

use vstd::prelude::*;

verus! {

broadcast use vstd::seq_lib::group_to_multiset_ensures;

/// Un objet range dans un inventaire : un identifiant et une quantite.
#[derive(Debug, Clone, Copy, PartialEq, Eq, Structural)]
pub struct ObjetInventaire {
    /// Nombre d'exemplaires de l'objet.
    pub nombre: u8,
    /// Identifiant unique de l'objet.
    pub objet_id: u8,
}

/// Un inventaire : une capacite maximale et la liste des objets detenus.
#[derive(Debug, Clone)]
pub struct Inventaire {
    /// Capacite maximale de l'inventaire.
    pub taille: u8,
    /// Les objets presents, chacun avec sa quantite.
    pub objets: Vec<ObjetInventaire>,
}

/// Les entrees sont rangees par quantite decroissante.
pub open spec fn triee_par_nombre(s: Seq<ObjetInventaire>) -> bool {
    forall|i: int, j: int|
        0 <= i < j < s.len() ==> (#[trigger] s[i]).nombre >= (#[trigger] s[j]).nombre
}

/// Une entree au moins porte l'identifiant `id`.
pub open spec fn porte_objet(s: Seq<ObjetInventaire>, id: u8) -> bool {
    exists|j: int| 0 <= j < s.len() && (#[trigger] s[j]).objet_id == id
}

/// `j` est la premiere entree de `s` portant l'identifiant `id`.
pub open spec fn premiere_entree(s: Seq<ObjetInventaire>, id: u8, j: int) -> bool {
    &&& 0 <= j < s.len()
    &&& s[j].objet_id == id
    &&& forall|k: int| 0 <= k < j ==> (#[trigger] s[k]).objet_id != id
}

/// Insere `o` dans la suite `s`, rangee par quantite decroissante, apres
/// toutes les entrees de quantite au moins egale : l'insertion est stable,
/// une entree nouvelle passe apres ses egales.
pub open spec fn insere_par_nombre(s: Seq<ObjetInventaire>, o: ObjetInventaire) -> Seq<
    ObjetInventaire,
>
    decreases s.len(),
{
    if s.len() == 0 {
        seq![o]
    } else if s[0].nombre >= o.nombre {
        seq![s[0]] + insere_par_nombre(s.drop_first(), o)
    } else {
        seq![o] + s
    }
}

/// Le tri stable de `s` par quantite decroissante : les entrees sont
/// inserees une a une, de gauche a droite, chacune apres ses egales, si bien
/// que les entrees de meme quantite gardent leur ordre relatif.
pub open spec fn tri_par_nombre(s: Seq<ObjetInventaire>) -> Seq<ObjetInventaire>
    decreases s.len(),
{
    if s.len() == 0 {
        Seq::empty()
    } else {
        insere_par_nombre(tri_par_nombre(s.drop_last()), s.last())
    }
}

/// La suite `s` ou l'entree `j` a perdu un exemplaire : l'entree est retiree
/// quand c'etait le dernier, sinon sa quantite baisse de un.
pub open spec fn entree_reduite(s: Seq<ObjetInventaire>, j: int) -> Seq<ObjetInventaire> {
    if s[j].nombre == 1 {
        s.remove(j)
    } else {
        s.update(j, ObjetInventaire { nombre: (s[j].nombre - 1) as u8, objet_id: s[j].objet_id })
    }
}

/// Inserer apres toutes les entrees de quantite au moins egale revient a
/// inserer a l'indice qui suit ces entrees.
proof fn lemma_insere_position(s: Seq<ObjetInventaire>, o: ObjetInventaire, k: int)
    requires
        0 <= k <= s.len(),
        forall|j: int| 0 <= j < k ==> (#[trigger] s[j]).nombre >= o.nombre,
        k < s.len() ==> s[k].nombre < o.nombre,
    ensures
        insere_par_nombre(s, o) == s.insert(k, o),
    decreases s.len(),
{
    if s.len() == 0 {
        assert(insere_par_nombre(s, o) =~= s.insert(0, o));
    } else if k == 0 {
        assert(seq![o] + s =~= s.insert(0, o));
    } else {
        lemma_insere_position(s.drop_first(), o, k - 1);
        assert(seq![s[0]] + s.drop_first().insert(k - 1, o) =~= s.insert(k, o));
    }
}

impl Inventaire {
    /// Chaque entree detient au moins un exemplaire.
    pub open spec fn bien_forme(&self) -> bool {
        forall|i: int| 0 <= i < self.objets@.len() ==> (#[trigger] self.objets@[i]).nombre >= 1
    }

    /// Range les objets par quantite decroissante, par un tri par insertion
    /// stable : le resultat est exactement `tri_par_nombre` de l'ancien
    /// contenu.
    pub fn trier_quantite(&mut self)
        ensures
            final(self).taille == old(self).taille,
            final(self).objets@ == tri_par_nombre(old(self).objets@),
            final(self).objets@.len() == old(self).objets@.len(),
            final(self).objets@.to_multiset() == old(self).objets@.to_multiset(),
            triee_par_nombre(final(self).objets@),
            old(self).bien_forme() ==> final(self).bien_forme(),
    {
        let ghost s0 = self.objets@;
        let mut tri: Vec<ObjetInventaire> = Vec::new();
        let n = self.objets.len();
        let mut i: usize = 0;
        while i < n
            invariant
                n == self.objets@.len(),
                self.objets@ == s0,
                0 <= i <= n,
                tri@.len() == i,
                tri@ == tri_par_nombre(s0.take(i as int)),
                tri@.to_multiset() == s0.take(i as int).to_multiset(),
                triee_par_nombre(tri@),
            decreases n - i,
        {
            let o = self.objets[i];
            let ghost avant = tri@;
            let mut k: usize = 0;
            while k < tri.len() && tri[k].nombre >= o.nombre
                invariant
                    tri@ == avant,
                    0 <= k <= tri@.len(),
                    forall|l: int| 0 <= l < k ==> (#[trigger] tri@[l]).nombre >= o.nombre,
                decreases tri@.len() - k,
            {
                k = k + 1;
            }
            tri.insert(k, o);
            proof {
                lemma_insere_position(avant, o, k as int);
                assert(s0.take(i + 1) =~= s0.take(i as int).push(s0[i as int]));
                assert(s0.take(i + 1).drop_last() =~= s0.take(i as int));
                assert(s0.take(i + 1).last() == s0[i as int]);
                assert forall|a: int, b: int| 0 <= a < b < tri@.len() implies (#[trigger]
                tri@[a]).nombre >= (#[trigger] tri@[b]).nombre by {
                    avant.insert_ensures(k as int, o);
                }
            }
            i = i + 1;
        }
        proof {
            assert(s0.take(n as int) =~= s0);
        }
        self.objets = tri;
        proof {
            if old(self).bien_forme() {
                assert forall|l: int| 0 <= l < self.objets@.len() implies (#[trigger]
                self.objets@[l]).nombre >= 1 by {
                    let e = self.objets@[l];
                    assert(self.objets@.to_multiset().count(e) > 0);
                    assert(s0.contains(e));
                }
            }
        }
    }

    /// Ajoute un exemplaire de l'objet `id` : la premiere entree qui le porte
    /// grandit de un; sinon une entree neuve est ajoutee puis l'inventaire est
    /// retrie.
    pub fn ajouter_objet(&mut self, id: u8)
        requires
            forall|j: int|
                0 <= j < old(self).objets@.len() && (#[trigger] old(self).objets@[j]).objet_id
                    == id ==> old(self).objets@[j].nombre < 255,
        ensures
            final(self).taille == old(self).taille,
            porte_objet(old(self).objets@, id) ==> exists|j: int|
                #[trigger] premiere_entree(old(self).objets@, id, j) && final(self).objets@ == old(
                    self,
                ).objets@.update(
                    j,
                    ObjetInventaire { nombre: (old(self).objets@[j].nombre + 1) as u8, objet_id: id },
                ),
            !porte_objet(old(self).objets@, id) ==> final(self).objets@ == tri_par_nombre(
                old(self).objets@.insert(0, ObjetInventaire { nombre: 1, objet_id: id }),
            ) && final(self).objets@.to_multiset() == old(self).objets@.to_multiset().insert(
                ObjetInventaire { nombre: 1, objet_id: id },
            ) && triee_par_nombre(final(self).objets@) && final(self).objets@.len() == old(
                self,
            ).objets@.len() + 1,
            old(self).bien_forme() ==> final(self).bien_forme(),
    {
        let n = self.objets.len();
        let mut i: usize = 0;
        while i < n
            invariant
                n == self.objets@.len(),
                self.objets@ == old(self).objets@,
                self.taille == old(self).taille,
                0 <= i <= n,
                forall|k: int| 0 <= k < i ==> (#[trigger] self.objets@[k]).objet_id != id,
                forall|j: int|
                    0 <= j < self.objets@.len() && (#[trigger] self.objets@[j]).objet_id == id
                        ==> self.objets@[j].nombre < 255,
            decreases n - i,
        {
            if self.objets[i].objet_id == id {
                let nb = self.objets[i].nombre;
                self.objets[i] = ObjetInventaire { nombre: nb + 1, objet_id: id };
                proof {
                    assert(premiere_entree(old(self).objets@, id, i as int));
                }
                return ;
            }
            i = i + 1;
        }
        let neuf = ObjetInventaire { nombre: 1, objet_id: id };
        self.objets.insert(0, neuf);
        proof {
            if old(self).bien_forme() {
                assert forall|l: int| 0 <= l < self.objets@.len() implies (#[trigger]
                self.objets@[l]).nombre >= 1 by {
                    old(self).objets@.insert_ensures(0, neuf);
                }
            }
        }
        self.trier_quantite();
    }

    /// Retire un exemplaire de l'entree `index` et rend l'identifiant de
    /// l'objet retire; l'entree disparait quand c'etait le dernier exemplaire,
    /// et l'inventaire est retrie.
    pub fn recuperer_objet(&mut self, index: usize) -> (r: usize)
        requires
            index < old(self).objets@.len(),
            old(self).bien_forme(),
        ensures
            r == old(self).objets@[index as int].objet_id as usize,
            final(self).taille == old(self).taille,
            final(self).objets@ == tri_par_nombre(entree_reduite(old(self).objets@, index as int)),
            final(self).objets@.to_multiset() == entree_reduite(
                old(self).objets@,
                index as int,
            ).to_multiset(),
            final(self).objets@.len() == entree_reduite(old(self).objets@, index as int).len(),
            triee_par_nombre(final(self).objets@),
            final(self).bien_forme(),
    {
        let obj: usize = self.objets[index].objet_id as usize;
        self.reduire_entree(index);
        obj
    }

    /// Variante de `recuperer_objet` qui rend l'entree entiere, telle qu'elle
    /// etait avant le retrait.
    pub fn recuperer_objet_2(&mut self, index: usize) -> (r: ObjetInventaire)
        requires
            index < old(self).objets@.len(),
            old(self).bien_forme(),
        ensures
            r == old(self).objets@[index as int],
            final(self).taille == old(self).taille,
            final(self).objets@ == tri_par_nombre(entree_reduite(old(self).objets@, index as int)),
            final(self).objets@.to_multiset() == entree_reduite(
                old(self).objets@,
                index as int,
            ).to_multiset(),
            final(self).objets@.len() == entree_reduite(old(self).objets@, index as int).len(),
            triee_par_nombre(final(self).objets@),
            final(self).bien_forme(),
    {
        let objet = ObjetInventaire {
            nombre: self.objets[index].nombre,
            objet_id: self.objets[index].objet_id,
        };
        self.reduire_entree(index);
        objet
    }

    /// Retire un exemplaire de l'entree `index`, puis retrie.
    fn reduire_entree(&mut self, index: usize)
        requires
            index < old(self).objets@.len(),
            old(self).bien_forme(),
        ensures
            final(self).taille == old(self).taille,
            final(self).objets@ == tri_par_nombre(entree_reduite(old(self).objets@, index as int)),
            final(self).objets@.to_multiset() == entree_reduite(
                old(self).objets@,
                index as int,
            ).to_multiset(),
            final(self).objets@.len() == entree_reduite(old(self).objets@, index as int).len(),
            triee_par_nombre(final(self).objets@),
            final(self).bien_forme(),
    {
        let nb = self.objets[index].nombre;
        if nb == 1 {
            self.objets.remove(index);
        } else {
            let id = self.objets[index].objet_id;
            self.objets[index] = ObjetInventaire { nombre: nb - 1, objet_id: id };
        }
        proof {
            assert(self.objets@ == entree_reduite(old(self).objets@, index as int));
        }
        self.trier_quantite();
    }

    /// Retire un exemplaire de l'objet `id` s'il est present : vrai quand une
    /// entree le portait, faux sinon (l'inventaire est alors inchange).
    pub fn retirer_par_id(&mut self, id: u8) -> (r: bool)
        requires
            old(self).bien_forme(),
        ensures
            r == porte_objet(old(self).objets@, id),
            final(self).taille == old(self).taille,
            !r ==> final(self).objets@ == old(self).objets@,
            r ==> exists|j: int|
                #[trigger] premiere_entree(old(self).objets@, id, j) && final(self).objets@
                    == tri_par_nombre(entree_reduite(old(self).objets@, j))
                    && final(self).objets@.to_multiset() == entree_reduite(
                    old(self).objets@,
                    j,
                ).to_multiset() && final(self).objets@.len() == entree_reduite(
                    old(self).objets@,
                    j,
                ).len() && triee_par_nombre(final(self).objets@),
            final(self).bien_forme(),
    {
        let n = self.objets.len();
        let mut i: usize = 0;
        while i < n
            invariant
                n == self.objets@.len(),
                self.objets@ == old(self).objets@,
                self.taille == old(self).taille,
                old(self).bien_forme(),
                0 <= i <= n,
                forall|k: int| 0 <= k < i ==> (#[trigger] self.objets@[k]).objet_id != id,
            decreases n - i,
        {
            if self.objets[i].objet_id == id {
                proof {
                    assert(premiere_entree(old(self).objets@, id, i as int));
                }
                self.reduire_entree(i);
                return true;
            }
            i = i + 1;
        }
        false
    }
}

} // verus!
