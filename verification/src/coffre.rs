//! Coffres : des contenants d'objets poses dans les zones, ouverts avec une
//! cle.

use vstd::prelude::*;

use crate::hasard::entier_aleatoire;
use crate::inventaire::{entree_reduite, porte_objet, premiere_entree, tri_par_nombre, Inventaire, ObjetInventaire};
use crate::objet::Catalogue;

verus! {

/// Identifiant de l'objet qui sert de cle aux coffres.
pub const ID_CLE: u8 = 12;

/// Un coffre pose dans une zone : visible ou non, ouvert ou non, avec son
/// inventaire propre.
#[derive(Debug, Clone)]
pub struct Coffre {
    /// Identifiant unique du coffre.
    pub _id: u8,
    /// Identifiant de la zone qui le contient.
    pub _id_zone: u8,
    /// Le coffre est-il ouvert ?
    pub ouvert: bool,
    /// Description affichee lors de l'interaction.
    pub _description: String,
    /// Les objets qu'il renferme.
    pub inventaire: Inventaire,
    /// Le coffre est-il visible dans la zone ?
    pub visible: bool,
}

impl Coffre {
    /// Deverrouille le coffre avec une cle prise dans l'inventaire donne : un
    /// coffre deja ouvert le reste sans rien consommer; sinon une cle est
    /// consommee et le coffre s'ouvre; sans cle, rien ne change et l'essai
    /// echoue.
    pub fn ouvrir_avec_cle(&mut self, inventaire_joueur: &mut Inventaire) -> (r: bool)
        requires
            old(inventaire_joueur).bien_forme(),
        ensures
            final(inventaire_joueur).bien_forme(),
            final(self)._id == old(self)._id,
            final(self)._id_zone == old(self)._id_zone,
            final(self)._description == old(self)._description,
            final(self).inventaire == old(self).inventaire,
            final(self).visible == old(self).visible,
            old(self).ouvert ==> r && final(self).ouvert && *final(inventaire_joueur) == *old(
                inventaire_joueur,
            ),
            !old(self).ouvert ==> r == porte_objet(old(inventaire_joueur).objets@, ID_CLE)
                && final(self).ouvert == r,
            !old(self).ouvert && r ==> exists|j: int|
                #[trigger] premiere_entree(old(inventaire_joueur).objets@, ID_CLE, j) && final(inventaire_joueur).objets@ == tri_par_nombre(entree_reduite(old(inventaire_joueur).objets@, j)),
            !old(self).ouvert && !r ==> final(inventaire_joueur).objets@ == old(
                inventaire_joueur,
            ).objets@ && final(inventaire_joueur).taille == old(inventaire_joueur).taille,
    {
        if self.ouvert {
            return true;
        }
        if inventaire_joueur.retirer_par_id(ID_CLE) {
            self.ouvert = true;
            true
        } else {
            false
        }
    }
}

/// Chaque entree de `s` detient un ou deux exemplaires d'un objet inscrit au
/// catalogue.
pub open spec fn contenu_tire_du_catalogue(s: Seq<ObjetInventaire>, cat: crate::objet::Catalogue) -> bool {
    forall|j: int|
        0 <= j < s.len() ==> 1 <= (#[trigger] s[j]).nombre <= 2 && exists|c: int|
            0 <= c < cat.objets@.len() && (#[trigger] cat.objets@[c]).id == s[j].objet_id
}

/// Remplit chaque coffre, livre vide, d'un a cinq objets tires au sort dans
/// le catalogue, a raison d'au plus deux exemplaires de chaque objet, puis
/// fixe sa taille a cinq. Le nombre de tirages par coffre est borne, ce qui
/// garantit la terminaison meme quand le catalogue est trop pauvre pour
/// fournir le compte voulu.
pub fn remplir_coffres(coffres: &mut Vec<Coffre>, catalogue: &Catalogue)
    ensures
        final(coffres)@.len() == old(coffres)@.len(),
        forall|k: int|
            0 <= k < old(coffres)@.len() ==> (#[trigger] final(coffres)@[k])._id == old(coffres)@[k]._id && final(coffres)@[k]._id_zone == old(coffres)@[k]._id_zone && final(coffres)@[k].ouvert == old(coffres)@[k].ouvert && final(coffres)@[k]._description == old(coffres)@[k]._description && final(coffres)@[k].visible == old(coffres)@[k].visible,
        forall|k: int|
            0 <= k < final(coffres)@.len() ==> (#[trigger] final(coffres)@[k]).inventaire.taille
                == 5 && final(coffres)@[k].inventaire.bien_forme()
                && final(coffres)@[k].inventaire.objets@.len() <= 5
                && contenu_tire_du_catalogue(final(coffres)@[k].inventaire.objets@, *catalogue)
                && (catalogue.objets@.len() > 0 ==> final(coffres)@[k].inventaire.objets@.len()
                >= 1),
{
    let nb_ids = catalogue.objets.len();
    let n = coffres.len();
    let mut c: usize = 0;
    while c < n
        invariant
            n == coffres@.len(),
            n == old(coffres)@.len(),
            nb_ids == catalogue.objets@.len(),
            0 <= c <= n,
            forall|k: int|
                0 <= k < n ==> (#[trigger] coffres@[k])._id == old(coffres)@[k]._id
                    && coffres@[k]._id_zone == old(coffres)@[k]._id_zone && coffres@[k].ouvert
                    == old(coffres)@[k].ouvert && coffres@[k]._description == old(coffres)@[k]._description && coffres@[k].visible == old(coffres)@[k].visible,
            forall|k: int|
                0 <= k < c ==> (#[trigger] coffres@[k]).inventaire.taille == 5
                    && coffres@[k].inventaire.bien_forme() && coffres@[k].inventaire.objets@.len()
                    <= 5 && contenu_tire_du_catalogue(coffres@[k].inventaire.objets@, *catalogue)
                    && (catalogue.objets@.len() > 0 ==> coffres@[k].inventaire.objets@.len() >= 1),
        decreases n - c,
    {
        let mut contenu: Vec<ObjetInventaire> = Vec::new();
        if nb_ids > 0 {
            let nb_objets = 1 + entier_aleatoire(5);
            let mut total: usize = 0;
            let mut essais: usize = 0;
            while total < nb_objets && essais < 64
                invariant
                    nb_ids == catalogue.objets@.len(),
                    nb_ids > 0,
                    nb_objets <= 5,
                    0 <= total <= nb_objets,
                    contenu@.len() <= total,
                    total >= 1 ==> contenu@.len() >= 1,
                    total >= 1 || essais == 0,
                    contenu_tire_du_catalogue(contenu@, *catalogue),
                decreases 64 - essais,
            {
                essais = essais + 1;
                let id = catalogue.objets[entier_aleatoire(nb_ids)].id;
                let mut j: usize = 0;
                while j < contenu.len() && contenu[j].objet_id != id
                    invariant
                        0 <= j <= contenu@.len(),
                    decreases contenu@.len() - j,
                {
                    j = j + 1;
                }
                if j < contenu.len() {
                    let nombre = contenu[j].nombre;
                    if nombre < 2 {
                        contenu[j] = ObjetInventaire { nombre: nombre + 1, objet_id: id };
                        total = total + 1;
                    }
                } else {
                    if total < nb_objets {
                        contenu.push(ObjetInventaire { nombre: 1, objet_id: id });
                        total = total + 1;
                    }
                }
            }
        }
        coffres[c].inventaire = Inventaire { taille: 5, objets: contenu };
        c = c + 1;
    }
}

} // verus!
