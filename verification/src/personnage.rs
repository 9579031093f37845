//! Personnages et parties du corps : points de vie, etats de blessure,
//! guerison, viabilite au combat et force effective.
//!
//! Le temps est compte en secondes entieres depuis l'epoque Unix; les
//! pourcentages et les multiplicateurs sont des entiers (un multiplicateur de
//! force est compte pour mille, une probabilite pour cent), la ou des valeurs
//! a virgule flottante ne peuvent pas etre verifiees.

use vstd::prelude::*;

use crate::chaine::{en_minuscules, minuscules_de, nom_contient, nom_correspond};
use crate::horloge::{maintenant_secondes, BORNE_HORLOGE, MARGE_GUERISON};
use crate::inventaire::{Inventaire, ObjetInventaire};

verus! {

/// L'etat d'une partie du corps : saine, blessee a un certain pourcentage, ou
/// morte (detruite).
#[derive(Debug, Clone, Copy, PartialEq, Eq, Structural)]
pub enum EtatPartie {
    Saine,
    Blessee(u8),
    Morte,
}

/// Une partie du corps : ses points de vie, son etat, l'instant a partir
/// duquel elle est remise de ses blessures, et son equipement propre.
#[derive(Debug, Clone)]
pub struct PartieDuCorps {
    /// Nom affiche, qui sert aussi a classer la partie (tete, torse, bras,
    /// jambe) par recherche de mot sans tenir compte de la casse.
    pub nom: String,
    /// Points de vie au maximum.
    pub vie_max: u32,
    /// Points de vie restants.
    pub vie_actuelle: u32,
    /// Etat de sante courant.
    pub etat: EtatPartie,
    /// Instant (en secondes depuis l'epoque) ou la guerison est acquise.
    pub guerison: i64,
    /// Equipement porte par cette partie.
    pub equipement: Inventaire,
}

/// Pourcentage de vie restante, par division entiere : `vie * 100 / max`.
pub open spec fn pourcentage_spec(vie: u32, max: u32) -> int {
    if max == 0 {
        0
    } else {
        (vie as int * 100) / (max as int)
    }
}

/// Pourcentage de blessure : le complement a cent de la vie restante.
pub open spec fn blessure_spec(vie: u32, max: u32) -> int {
    100 - pourcentage_spec(vie, max)
}

/// Le nom designe une partie dont la destruction est mortelle (tete ou torse).
pub open spec fn est_nom_letal(nom: Seq<char>) -> bool {
    nom_contient(nom, "tête"@) || nom_contient(nom, "torse"@)
}

impl PartieDuCorps {
    /// Invariant de la partie : la vie reste entre zero et le maximum, l'etat
    /// et la vie se repondent, un pourcentage de blessure reste entre un et
    /// cent, et l'instant de guerison reste dans la plage de l'horloge.
    pub open spec fn est_bien_formee(&self) -> bool {
        &&& 1 <= self.vie_max
        &&& self.vie_actuelle <= self.vie_max
        &&& (self.etat is Morte <==> self.vie_actuelle == 0)
        &&& (self.etat is Saine ==> self.vie_actuelle == self.vie_max)
        &&& (self.etat matches EtatPartie::Blessee(p) ==> 1 <= p <= 100 && 0
            < self.vie_actuelle < self.vie_max)
        &&& -(BORNE_HORLOGE + MARGE_GUERISON) <= self.guerison <= BORNE_HORLOGE + MARGE_GUERISON
        &&& self.equipement.bien_forme()
    }

    /// Vrai quand un coup de `degats` detruirait la partie : elle n'est pas
    /// deja morte et les degats couvrent la vie restante.
    pub open spec fn detruite_par(self, degats: u32) -> bool {
        !(self.etat is Morte) && degats >= self.vie_actuelle
    }

    /// La partie apres un coup de `degats` porte a l'instant `maintenant` :
    /// une partie morte ne change pas; un coup couvrant la vie restante la
    /// detruit; sinon la vie baisse, l'etat devient blesse au pourcentage
    /// perdu et la guerison est due une minute par point de pourcentage.
    pub open spec fn modele_degats(self, degats: u32, maintenant: i64) -> PartieDuCorps {
        if self.etat is Morte {
            self
        } else if degats >= self.vie_actuelle {
            PartieDuCorps { vie_actuelle: 0, etat: EtatPartie::Morte, ..self }
        } else {
            let vie = (self.vie_actuelle - degats) as u32;
            let blessure = blessure_spec(vie, self.vie_max);
            if blessure > 0 {
                PartieDuCorps {
                    vie_actuelle: vie,
                    etat: EtatPartie::Blessee(blessure as u8),
                    guerison: (maintenant + 60 * blessure) as i64,
                    ..self
                }
            } else {
                PartieDuCorps { vie_actuelle: vie, ..self }
            }
        }
    }

    /// La partie apres un soin de `montant` points a l'instant `maintenant` :
    /// une partie morte ne change pas; la vie remonte sans depasser le
    /// maximum; au maximum la partie redevient saine et sa guerison est
    /// acquise, sinon elle reste blessee au pourcentage recalcule.
    pub open spec fn modele_soin(self, montant: u32, maintenant: i64) -> PartieDuCorps {
        if self.etat is Morte {
            self
        } else {
            let vie = if self.vie_actuelle + montant >= self.vie_max {
                self.vie_max
            } else {
                (self.vie_actuelle + montant) as u32
            };
            if vie == self.vie_max {
                PartieDuCorps {
                    vie_actuelle: vie,
                    etat: EtatPartie::Saine,
                    guerison: maintenant,
                    ..self
                }
            } else {
                PartieDuCorps {
                    vie_actuelle: vie,
                    etat: EtatPartie::Blessee(blessure_spec(vie, self.vie_max) as u8),
                    ..self
                }
            }
        }
    }

    /// La partie apres la recuperation de fin de combat : une partie morte
    /// revient a pleine vie, saine, mais sa guerison n'est due qu'une heure
    /// plus tard; une partie entamee revient a pleine vie, saine, guerison
    /// acquise; une partie saine ne change pas.
    pub open spec fn modele_recuperation(self, maintenant: i64) -> PartieDuCorps {
        if self.etat is Morte {
            PartieDuCorps {
                vie_actuelle: self.vie_max,
                etat: EtatPartie::Saine,
                guerison: (maintenant + 3600) as i64,
                ..self
            }
        } else if self.vie_actuelle < self.vie_max {
            PartieDuCorps {
                vie_actuelle: self.vie_max,
                etat: EtatPartie::Saine,
                guerison: maintenant,
                ..self
            }
        } else {
            self
        }
    }

    /// La partie est saine a l'instant donne : etat sain et guerison acquise.
    pub open spec fn saine_spec(self, maintenant: i64) -> bool {
        self.etat is Saine && maintenant >= self.guerison
    }

    /// Cree une partie saine, a pleine vie, sans equipement, dont la guerison
    /// est acquise a l'instant `maintenant`.
    pub fn new_a(nom: String, vie_max: u32, maintenant: i64) -> (r: PartieDuCorps)
        requires
            1 <= vie_max,
            -BORNE_HORLOGE <= maintenant <= BORNE_HORLOGE,
        ensures
            r.nom == nom,
            r.vie_max == vie_max,
            r.vie_actuelle == vie_max,
            r.etat is Saine,
            r.guerison == maintenant,
            r.equipement.taille == 1,
            r.equipement.objets@.len() == 0,
            r.est_bien_formee(),
    {
        PartieDuCorps {
            nom,
            vie_max,
            vie_actuelle: vie_max,
            etat: EtatPartie::Saine,
            guerison: maintenant,
            equipement: Inventaire { taille: 1, objets: Vec::new() },
        }
    }

    /// Cree une partie saine, a pleine vie, dont la guerison est acquise des
    /// l'instant courant.
    pub fn new(nom: String, vie_max: u32) -> (r: PartieDuCorps)
        requires
            1 <= vie_max,
        ensures
            r.nom == nom,
            r.vie_max == vie_max,
            r.vie_actuelle == vie_max,
            r.etat is Saine,
            r.equipement.taille == 1,
            r.equipement.objets@.len() == 0,
            r.est_bien_formee(),
    {
        let maintenant = maintenant_secondes();
        Self::new_a(nom, vie_max, maintenant)
    }

    /// La partie est-elle saine et remise de ses blessures a l'instant
    /// courant de l'horloge ?
    pub fn est_saine(&self) -> (r: bool)
        ensures
            exists|t: i64|
                -BORNE_HORLOGE <= t <= BORNE_HORLOGE && r == self.saine_spec(t),
            r ==> self.etat is Saine,
    {
        let maintenant = maintenant_secondes();
        let r = matches!(self.etat, EtatPartie::Saine) && maintenant >= self.guerison;
        proof {
            assert(r == self.saine_spec(maintenant));
        }
        r
    }

    /// La partie est-elle morte (detruite) ?
    pub fn est_morte(&self) -> (r: bool)
        ensures
            r == (self.etat is Morte),
    {
        matches!(self.etat, EtatPartie::Morte)
    }

    /// La partie est-elle blessee ?
    pub fn est_blessee(&self) -> (r: bool)
        ensures
            r == (self.etat is Blessee),
    {
        matches!(self.etat, EtatPartie::Blessee(_))
    }

    /// Pourcentage de vie restante, entre zero et cent (zero quand le maximum
    /// est nul).
    pub fn pourcentage_vie(&self) -> (r: u32)
        requires
            self.vie_actuelle <= self.vie_max,
        ensures
            r == pourcentage_spec(self.vie_actuelle, self.vie_max),
            r <= 100,
    {
        if self.vie_max == 0 {
            return 0;
        }
        let r = ((self.vie_actuelle as u64) * 100 / (self.vie_max as u64)) as u32;
        proof {
            assert((self.vie_actuelle as int * 100) / (self.vie_max as int) <= 100)
                by (nonlinear_arith)
                requires
                    self.vie_actuelle <= self.vie_max,
                    self.vie_max >= 1,
            ;
        }
        r
    }

    /// Porte `degats` a la partie a l'instant `maintenant`; vrai quand ce
    /// coup la detruit.
    pub fn appliquer_degats(&mut self, degats: u32, maintenant: i64) -> (detruite: bool)
        requires
            old(self).est_bien_formee(),
            -BORNE_HORLOGE <= maintenant <= BORNE_HORLOGE,
        ensures
            *final(self) == old(self).modele_degats(degats, maintenant),
            detruite == old(self).detruite_par(degats),
            final(self).est_bien_formee(),
    {
        if self.est_morte() {
            return false;
        }
        if degats >= self.vie_actuelle {
            self.vie_actuelle = 0;
            self.etat = EtatPartie::Morte;
            return true;
        }
        self.vie_actuelle = self.vie_actuelle - degats;
        let pourcentage_restant = self.pourcentage_vie();
        let blessure = 100 - pourcentage_restant;
        if blessure > 0 {
            proof {
                if self.vie_actuelle == self.vie_max {
                    assert((self.vie_max as int * 100) / (self.vie_max as int) == 100)
                        by (nonlinear_arith)
                        requires
                            self.vie_max >= 1,
                    ;
                }
            }
            self.etat = EtatPartie::Blessee(blessure as u8);
            self.guerison = maintenant + 60 * (blessure as i64);
        } else {
            proof {
                assert((self.vie_actuelle as int * 100) / (self.vie_max as int) >= 100
                    ==> self.vie_actuelle as int * 100 >= 100 * (self.vie_max as int))
                    by (nonlinear_arith)
                    requires
                        self.vie_max >= 1,
                ;
            }
        }
        false
    }

    /// Porte `degats` a la partie, la guerison etant datee par l'horloge;
    /// vrai quand ce coup la detruit.
    pub fn subir_degats(&mut self, degats: u32) -> (detruite: bool)
        requires
            old(self).est_bien_formee(),
        ensures
            exists|t: i64|
                -BORNE_HORLOGE <= t <= BORNE_HORLOGE && *final(self) == old(self).modele_degats(
                    degats,
                    t,
                ),
            detruite == old(self).detruite_par(degats),
            final(self).est_bien_formee(),
    {
        let maintenant = maintenant_secondes();
        let detruite = self.appliquer_degats(degats, maintenant);
        proof {
            assert(-BORNE_HORLOGE <= maintenant <= BORNE_HORLOGE && *self == old(self).modele_degats(degats, maintenant));
        }
        detruite
    }

    /// Soigne la partie de `montant` points a l'instant `maintenant`.
    pub fn appliquer_soin(&mut self, montant: u32, maintenant: i64)
        requires
            old(self).est_bien_formee(),
            -BORNE_HORLOGE <= maintenant <= BORNE_HORLOGE,
        ensures
            *final(self) == old(self).modele_soin(montant, maintenant),
            final(self).est_bien_formee(),
    {
        if self.est_morte() {
            return ;
        }
        if montant >= self.vie_max - self.vie_actuelle {
            self.vie_actuelle = self.vie_max;
            self.etat = EtatPartie::Saine;
            self.guerison = maintenant;
            return ;
        }
        self.vie_actuelle = self.vie_actuelle + montant;
        let pourcentage_restant = self.pourcentage_vie();
        let blessure = 100 - pourcentage_restant;
        proof {
            assert((self.vie_actuelle as int * 100) / (self.vie_max as int) < 100)
                by (nonlinear_arith)
                requires
                    self.vie_actuelle < self.vie_max,
                    self.vie_max >= 1,
            ;
            assert((self.vie_actuelle as int * 100) / (self.vie_max as int) >= 0)
                by (nonlinear_arith)
                requires
                    self.vie_actuelle >= 0,
                    self.vie_max >= 1,
            ;
        }
        self.etat = EtatPartie::Blessee(blessure as u8);
    }

    /// Soigne la partie de `montant` points, l'instant etant lu sur
    /// l'horloge.
    pub fn soigner(&mut self, montant: u32)
        requires
            old(self).est_bien_formee(),
        ensures
            exists|t: i64|
                -BORNE_HORLOGE <= t <= BORNE_HORLOGE && *final(self) == old(self).modele_soin(
                    montant,
                    t,
                ),
            final(self).est_bien_formee(),
    {
        let maintenant = maintenant_secondes();
        self.appliquer_soin(montant, maintenant);
        proof {
            assert(-BORNE_HORLOGE <= maintenant <= BORNE_HORLOGE && *self == old(self).modele_soin(
                montant,
                maintenant,
            ));
        }
    }

    /// Points rendus par un battement de regeneration naturelle du a
    /// l'instant `maintenant` : au moins un point, et un point par tranche de
    /// dix minutes ecoulees depuis que la guerison est due.
    pub open spec fn soin_naturel(self, maintenant: i64) -> u32 {
        let points = (maintenant - self.guerison) / 600;
        if points <= 1 {
            1u32
        } else if points >= u32::MAX {
            u32::MAX
        } else {
            points as u32
        }
    }

    /// La partie apres un battement de regeneration naturelle date de
    /// `maintenant` : sans effet sur une partie morte ou saine, ou tant que
    /// la guerison n'est pas due; sinon la partie est soignee de
    /// `soin_naturel`.
    pub open spec fn modele_regeneration(self, maintenant: i64) -> PartieDuCorps {
        if self.etat is Morte || self.etat is Saine || maintenant < self.guerison {
            self
        } else {
            self.modele_soin(self.soin_naturel(maintenant), maintenant)
        }
    }

    /// Battement de regeneration naturelle a l'instant `maintenant` : sans
    /// effet sur une partie morte ou saine, ou tant que la guerison n'est pas
    /// due; sinon la partie est soignee de `soin_naturel`.
    pub fn regenerer_a(&mut self, maintenant: i64)
        requires
            old(self).est_bien_formee(),
            -BORNE_HORLOGE <= maintenant <= BORNE_HORLOGE,
        ensures
            *final(self) == old(self).modele_regeneration(maintenant),
            final(self).est_bien_formee(),
    {
        match self.etat {
            EtatPartie::Morte => {
                return ;
            },
            EtatPartie::Saine => {
                return ;
            },
            EtatPartie::Blessee(_) => {},
        }
        if maintenant < self.guerison {
            return ;
        }
        let ecart = maintenant - self.guerison;
        let points_i64 = ecart / 600;
        let points: u32 = if points_i64 <= 1 {
            1
        } else if points_i64 >= u32::MAX as i64 {
            u32::MAX
        } else {
            points_i64 as u32
        };
        self.appliquer_soin(points, maintenant);
    }

    /// Battement de regeneration naturelle, l'instant etant lu sur l'horloge.
    pub fn regenerer(&mut self)
        requires
            old(self).est_bien_formee(),
        ensures
            final(self).est_bien_formee(),
            exists|t: i64|
                -BORNE_HORLOGE <= t <= BORNE_HORLOGE && *final(self) == #[trigger] old(
                    self,
                ).modele_regeneration(t),
            old(self).etat is Morte || old(self).etat is Saine ==> *final(self) == *old(self),
    {
        let maintenant = maintenant_secondes();
        self.regenerer_a(maintenant);
        proof {
            assert(-BORNE_HORLOGE <= maintenant <= BORNE_HORLOGE && *self == old(
                self,
            ).modele_regeneration(maintenant));
        }
    }

    /// Nom de la partie.
    pub fn nom(&self) -> (r: &str)
        ensures
            r@ == self.nom@,
    {
        self.nom.as_str()
    }

    /// Equipement porte par la partie.
    pub fn equipement(&self) -> (r: &Inventaire)
        ensures
            *r == self.equipement,
    {
        &self.equipement
    }

    /// Ajoute un objet a l'equipement de la partie.
    pub fn ajouter_equipement(&mut self, objet: u8)
        requires
            forall|j: int|
                0 <= j < old(self).equipement.objets@.len() && (#[trigger] old(self).equipement.objets@[j]).objet_id == objet ==> old(self).equipement.objets@[j].nombre
                    < 255,
        ensures
            final(self).nom == old(self).nom,
            final(self).vie_max == old(self).vie_max,
            final(self).vie_actuelle == old(self).vie_actuelle,
            final(self).etat == old(self).etat,
            final(self).guerison == old(self).guerison,
            final(self).equipement.taille == old(self).equipement.taille,
            crate::inventaire::porte_objet(old(self).equipement.objets@, objet) ==> exists|j: int|
                #[trigger] crate::inventaire::premiere_entree(old(self).equipement.objets@, objet, j)
                    && final(self).equipement.objets@ == old(self).equipement.objets@.update(
                    j,
                    ObjetInventaire {
                        nombre: (old(self).equipement.objets@[j].nombre + 1) as u8,
                        objet_id: objet,
                    },
                ),
            !crate::inventaire::porte_objet(old(self).equipement.objets@, objet) ==> final(self).equipement.objets@ == crate::inventaire::tri_par_nombre(
                old(self).equipement.objets@.insert(
                    0,
                    ObjetInventaire { nombre: 1, objet_id: objet },
                ),
            ) && final(self).equipement.objets@.len() == old(self).equipement.objets@.len() + 1,
            old(self).equipement.bien_forme() ==> final(self).equipement.bien_forme(),
    {
        self.equipement.ajouter_objet(objet);
    }

    /// Retire un exemplaire de l'entree `index` de l'equipement et rend
    /// l'entree telle qu'elle etait.
    pub fn recuperer_objet(&mut self, index: usize) -> (r: ObjetInventaire)
        requires
            index < old(self).equipement.objets@.len(),
            old(self).equipement.bien_forme(),
        ensures
            r == old(self).equipement.objets@[index as int],
            final(self).nom == old(self).nom,
            final(self).vie_max == old(self).vie_max,
            final(self).vie_actuelle == old(self).vie_actuelle,
            final(self).etat == old(self).etat,
            final(self).guerison == old(self).guerison,
            final(self).equipement.taille == old(self).equipement.taille,
            final(self).equipement.objets@.to_multiset() == crate::inventaire::entree_reduite(
                old(self).equipement.objets@,
                index as int,
            ).to_multiset(),
            final(self).equipement.bien_forme(),
    {
        self.equipement.recuperer_objet_2(index)
    }

    /// Vie restante.
    pub fn vie_actuelle(&self) -> (r: u32)
        ensures
            r == self.vie_actuelle,
    {
        self.vie_actuelle
    }

    /// Vie maximale.
    pub fn vie_max(&self) -> (r: u32)
        ensures
            r == self.vie_max,
    {
        self.vie_max
    }

    /// Etat courant.
    pub fn etat(&self) -> (r: &EtatPartie)
        ensures
            *r == self.etat,
    {
        &self.etat
    }

    /// Instant ou la guerison est acquise.
    pub fn guerison(&self) -> (r: i64)
        ensures
            r == self.guerison,
    {
        self.guerison
    }

    /// Recuperation de fin de combat pour cette partie, a l'instant
    /// `maintenant` : toute partie entamee ou morte revient a pleine vie et
    /// saine; une partie morte garde une guerison due une heure plus tard.
    pub fn recuperer_apres_combat(&mut self, maintenant: i64)
        requires
            old(self).est_bien_formee(),
            -BORNE_HORLOGE <= maintenant <= BORNE_HORLOGE,
        ensures
            *final(self) == old(self).modele_recuperation(maintenant),
            final(self).est_bien_formee(),
            final(self).vie_actuelle == final(self).vie_max,
            final(self).etat is Saine,
    {
        if self.est_morte() {
            self.vie_actuelle = self.vie_max;
            self.etat = EtatPartie::Saine;
            self.guerison = maintenant + 3600;
        } else if self.vie_actuelle < self.vie_max {
            self.vie_actuelle = self.vie_max;
            self.etat = EtatPartie::Saine;
            self.guerison = maintenant;
        }
    }
}

/// L'issue d'une blessure infligee a un personnage.
#[derive(Debug, Clone, Copy, PartialEq, Eq, Structural)]
pub enum ResultatBlessure {
    /// Le personnage est mort : une partie letale a ete detruite.
    Mort,
    /// Une partie du corps a ete detruite, sans etre letale.
    PartieDetruite,
    /// La partie visee est blessee, sans etre detruite.
    Blesse,
    /// Rien de grave : aucun degat marquant.
    RienGrave,
}

/// Un personnage : identite, force, inventaire personnel, parties du corps et
/// etat de vie.
#[derive(Debug, Clone)]
pub struct Personnage {
    /// Identifiant unique du personnage.
    pub id: u32,
    /// Nom du personnage.
    pub nom: String,
    /// Breve description du personnage.
    pub description: String,
    /// Force physique de base.
    pub force: u8,
    /// Inventaire personnel, distinct de l'equipement des parties.
    pub inventaire: Inventaire,
    /// Les parties du corps, dans un ordre fixe a la creation.
    pub parties_du_corps: Vec<PartieDuCorps>,
    /// Argent detenu.
    pub argent: u32,
    /// Le personnage est-il en vie ? Ce sous-systeme ne le remet jamais a
    /// vrai.
    pub est_vivant: bool,
}

/// `j` est la premiere partie de `s` dont le nom, en minuscules, egale
/// `nom` en minuscules.
pub open spec fn partie_visee(s: Seq<PartieDuCorps>, nom: Seq<char>, j: int) -> bool {
    &&& 0 <= j < s.len()
    &&& minuscules_de(s[j].nom@) == minuscules_de(nom)
    &&& forall|k: int|
        0 <= k < j ==> minuscules_de((#[trigger] s[k]).nom@) != minuscules_de(nom)
}

/// Une partie au moins porte (en minuscules) le nom `nom`.
pub open spec fn vise_une_partie(s: Seq<PartieDuCorps>, nom: Seq<char>) -> bool {
    exists|j: int| #[trigger] partie_visee(s, nom, j)
}

/// L'issue d'un coup de `degats` sur la partie `partie` a l'instant `t`.
pub open spec fn resultat_du_coup(partie: PartieDuCorps, degats: u32, t: i64) -> ResultatBlessure {
    if partie.detruite_par(degats) {
        if est_nom_letal(partie.nom@) {
            ResultatBlessure::Mort
        } else {
            ResultatBlessure::PartieDetruite
        }
    } else if partie.modele_degats(degats, t).etat is Blessee {
        ResultatBlessure::Blesse
    } else {
        ResultatBlessure::RienGrave
    }
}

/// Ce que `gerer_blessure` fait d'un personnage quand une partie est visee :
/// la premiere partie `j` au nom demande recoit le coup date de `t`, le
/// drapeau de vie tombe si une partie letale est detruite, et l'issue
/// rapportee suit `resultat_du_coup`.
pub open spec fn coup_porte(
    avant: Personnage,
    apres: Personnage,
    r: ResultatBlessure,
    nom: Seq<char>,
    degats: u32,
    j: int,
    t: i64,
) -> bool {
    &&& partie_visee(avant.parties_du_corps@, nom, j)
    &&& -BORNE_HORLOGE <= t <= BORNE_HORLOGE
    &&& apres.parties_du_corps@ == avant.parties_du_corps@.update(
        j,
        avant.parties_du_corps@[j].modele_degats(degats, t),
    )
    &&& apres.est_vivant == (avant.est_vivant && !(avant.parties_du_corps@[j].detruite_par(degats)
        && est_nom_letal(avant.parties_du_corps@[j].nom@)))
    &&& r == resultat_du_coup(avant.parties_du_corps@[j], degats, t)
}

/// La recuperation de fin de combat datee de `t` a ete appliquee a chaque
/// partie.
pub open spec fn recuperation_appliquee(
    avant: Seq<PartieDuCorps>,
    apres: Seq<PartieDuCorps>,
    t: i64,
) -> bool {
    &&& -BORNE_HORLOGE <= t <= BORNE_HORLOGE
    &&& apres.len() == avant.len()
    &&& forall|k: int|
        0 <= k < avant.len() ==> (#[trigger] apres[k]) == avant[k].modele_recuperation(t)
}

/// Une partie au moins de `s` porte le mot `motif` dans son nom et n'est pas
/// detruite.
pub open spec fn partie_fonctionnelle(s: Seq<PartieDuCorps>, motif: Seq<char>) -> bool {
    exists|i: int|
        0 <= i < s.len() && nom_contient((#[trigger] s[i]).nom@, motif) && !(s[i].etat is Morte)
}

/// Multiplicateur de force pour mille apres le passage d'une partie : un bras
/// detruit retient 700 pour mille, une jambe detruite 800 pour mille, une
/// blessure a `p` pour cent retient `(200 - p)` sur 200; une partie saine ne
/// change rien.
pub open spec fn facteur_partie(m: int, p: PartieDuCorps) -> int {
    match p.etat {
        EtatPartie::Morte => if nom_contient(p.nom@, "bras"@) {
            (m * 700) / 1000
        } else if nom_contient(p.nom@, "jambe"@) {
            (m * 800) / 1000
        } else {
            m
        },
        EtatPartie::Blessee(pc) => (m * (200 - pc)) / 200,
        EtatPartie::Saine => m,
    }
}

/// Multiplicateur de force pour mille d'une suite de parties, parties
/// appliquees dans l'ordre en partant de 1000.
pub open spec fn multiplicateur_pour_mille(s: Seq<PartieDuCorps>) -> int
    decreases s.len(),
{
    if s.len() == 0 {
        1000
    } else {
        facteur_partie(multiplicateur_pour_mille(s.drop_last()), s.last())
    }
}

impl Personnage {
    /// Invariant du personnage : toutes ses parties et son inventaire sont
    /// bien formes.
    pub open spec fn bien_forme(&self) -> bool {
        &&& forall|i: int|
            0 <= i < self.parties_du_corps@.len() ==> (#[trigger] self.parties_du_corps@[i]).est_bien_formee()
        &&& self.inventaire.bien_forme()
    }

    /// Le personnage peut se battre : en vie, tete et torse non detruits, au
    /// moins un bras et une jambe fonctionnels.
    pub open spec fn peut_se_battre_spec(&self) -> bool {
        &&& self.est_vivant
        &&& partie_fonctionnelle(self.parties_du_corps@, "tête"@)
        &&& partie_fonctionnelle(self.parties_du_corps@, "torse"@)
        &&& partie_fonctionnelle(self.parties_du_corps@, "bras"@)
        &&& partie_fonctionnelle(self.parties_du_corps@, "jambe"@)
    }

    /// Force effective : nulle pour un mort, sinon la force de base reduite
    /// par le multiplicateur des blessures, en millieme.
    pub open spec fn force_effective_spec(&self) -> int {
        if !self.est_vivant {
            0
        } else {
            (self.force as int * multiplicateur_pour_mille(self.parties_du_corps@)) / 1000
        }
    }

    /// Porte `degats` a la premiere partie du corps dont le nom egale
    /// `nom_partie` sans tenir compte de la casse, et rapporte l'issue; la
    /// destruction d'une partie letale (tete ou torse) tue le personnage.
    pub fn gerer_blessure(&mut self, nom_partie: &str, degats: u32) -> (r: ResultatBlessure)
        requires
            old(self).bien_forme(),
        ensures
            final(self).bien_forme(),
            final(self).id == old(self).id,
            final(self).nom == old(self).nom,
            final(self).description == old(self).description,
            final(self).force == old(self).force,
            final(self).inventaire == old(self).inventaire,
            final(self).argent == old(self).argent,
            final(self).parties_du_corps@.len() == old(self).parties_du_corps@.len(),
            final(self).est_vivant ==> old(self).est_vivant,
            !vise_une_partie(old(self).parties_du_corps@, nom_partie@) ==> *final(self) == *old(self) && r == ResultatBlessure::RienGrave,
            vise_une_partie(old(self).parties_du_corps@, nom_partie@) ==> exists|j: int, t: i64|
                #[trigger] coup_porte(*old(self), *final(self), r, nom_partie@, degats, j, t),
    {
        let n = self.parties_du_corps.len();
        let cible = en_minuscules(nom_partie);
        let mut i: usize = 0;
        while i < n
            invariant
                *self == *old(self),
                old(self).bien_forme(),
                n == self.parties_du_corps@.len(),
                0 <= i <= n,
                cible@ == minuscules_de(nom_partie@),
                forall|k: int|
                    0 <= k < i ==> minuscules_de(
                        (#[trigger] self.parties_du_corps@[k]).nom@,
                    ) != minuscules_de(nom_partie@),
            decreases n - i,
        {
            let bas = en_minuscules(self.parties_du_corps[i].nom.as_str());
            if bas == cible {
                proof {
                    assert(partie_visee(old(self).parties_du_corps@, nom_partie@, i as int));
                }
                let maintenant = maintenant_secondes();
                let ghost partie_avant = self.parties_du_corps@[i as int];
                let detruite = self.parties_du_corps[i].appliquer_degats(degats, maintenant);
                let letale = nom_correspond(self.parties_du_corps[i].nom.as_str(), "tête")
                    || nom_correspond(self.parties_du_corps[i].nom.as_str(), "torse");
                let r: ResultatBlessure = if detruite && letale {
                    self.est_vivant = false;
                    ResultatBlessure::Mort
                } else if detruite {
                    ResultatBlessure::PartieDetruite
                } else if self.parties_du_corps[i].est_blessee() {
                    ResultatBlessure::Blesse
                } else {
                    ResultatBlessure::RienGrave
                };
                proof {
                    assert(coup_porte(
                        *old(self),
                        *self,
                        r,
                        nom_partie@,
                        degats,
                        i as int,
                        maintenant,
                    ));
                }
                return r;
            }
            i = i + 1;
        }
        ResultatBlessure::RienGrave
    }

    /// Une partie au moins porte le mot `motif` dans son nom et n'est pas
    /// detruite.
    fn possede_partie_fonctionnelle(&self, motif: &str) -> (r: bool)
        ensures
            r == partie_fonctionnelle(self.parties_du_corps@, motif@),
    {
        let n = self.parties_du_corps.len();
        let mut i: usize = 0;
        while i < n
            invariant
                n == self.parties_du_corps@.len(),
                0 <= i <= n,
                forall|k: int|
                    0 <= k < i ==> !(nom_contient(
                        (#[trigger] self.parties_du_corps@[k]).nom@,
                        motif@,
                    ) && !(self.parties_du_corps@[k].etat is Morte)),
            decreases n - i,
        {
            let correspond = nom_correspond(self.parties_du_corps[i].nom.as_str(), motif);
            let morte = self.parties_du_corps[i].est_morte();
            if correspond && !morte {
                return true;
            }
            i = i + 1;
        }
        false
    }

    /// Le personnage peut-il encore se battre ?
    pub fn peut_se_battre(&self) -> (r: bool)
        ensures
            r == self.peut_se_battre_spec(),
    {
        if !self.est_vivant {
            return false;
        }
        let tete = self.possede_partie_fonctionnelle("tête");
        let torse = self.possede_partie_fonctionnelle("torse");
        if !tete || !torse {
            return false;
        }
        let bras = self.possede_partie_fonctionnelle("bras");
        let jambe = self.possede_partie_fonctionnelle("jambe");
        bras && jambe
    }

    /// Force effective du personnage, reduite par ses blessures.
    pub fn force_effective(&self) -> (r: u8)
        requires
            self.bien_forme(),
        ensures
            r == self.force_effective_spec(),
            r <= self.force,
            !self.est_vivant ==> r == 0,
    {
        if !self.est_vivant {
            return 0;
        }
        let n = self.parties_du_corps.len();
        let mut m: u32 = 1000;
        let mut i: usize = 0;
        while i < n
            invariant
                self.bien_forme(),
                n == self.parties_du_corps@.len(),
                0 <= i <= n,
                0 <= m <= 1000,
                m == multiplicateur_pour_mille(self.parties_du_corps@.take(i as int)),
            decreases n - i,
        {
            let ghost m_avant = m;
            let partie = &self.parties_du_corps[i];
            match partie.etat {
                EtatPartie::Morte => {
                    if nom_correspond(partie.nom.as_str(), "bras") {
                        m = m * 700 / 1000;
                        proof {
                            assert(m_avant * 700 / 1000 <= m_avant) by (nonlinear_arith)
                                requires
                                    0 <= m_avant,
                            ;
                        }
                    } else if nom_correspond(partie.nom.as_str(), "jambe") {
                        m = m * 800 / 1000;
                        proof {
                            assert(m_avant * 800 / 1000 <= m_avant) by (nonlinear_arith)
                                requires
                                    0 <= m_avant,
                            ;
                        }
                    }
                },
                EtatPartie::Blessee(pc) => {
                    proof {
                        assert(self.parties_du_corps@[i as int].est_bien_formee());
                        assert(1 <= pc <= 100);
                        assert(m as int * (200 - pc as int) <= 200000) by (nonlinear_arith)
                            requires
                                0 <= m <= 1000,
                                1 <= pc <= 100,
                        ;
                    }
                    m = m * (200 - pc as u32) / 200;
                    proof {
                        assert(m_avant * (200 - pc) / 200 <= m_avant) by (nonlinear_arith)
                            requires
                                0 <= m_avant,
                                1 <= pc <= 100,
                        ;
                    }
                },
                EtatPartie::Saine => {},
            }
            proof {
                let s = self.parties_du_corps@;
                assert(s.take(i + 1).drop_last() =~= s.take(i as int));
                assert(s.take(i + 1).last() == s[i as int]);
            }
            i = i + 1;
        }
        proof {
            assert(self.parties_du_corps@.take(n as int) =~= self.parties_du_corps@);
            assert((self.force as int) * (m as int) / 1000 <= self.force) by (nonlinear_arith)
                requires
                    0 <= m <= 1000,
                    0 <= self.force,
            ;
            assert((self.force as int) * (m as int) / 1000 >= 0) by (nonlinear_arith)
                requires
                    0 <= m,
                    0 <= self.force,
            ;
        }
        let brut: u32 = (self.force as u32) * m / 1000;
        brut as u8
    }

    /// Recuperation de fin de combat a l'instant `maintenant` : chaque partie
    /// revient a pleine vie et saine (une partie morte garde une guerison due
    /// une heure plus tard); le drapeau de vie ne change pas.
    pub fn soigner_apres_combat_a(&mut self, maintenant: i64)
        requires
            old(self).bien_forme(),
            -BORNE_HORLOGE <= maintenant <= BORNE_HORLOGE,
        ensures
            final(self).bien_forme(),
            final(self).id == old(self).id,
            final(self).nom == old(self).nom,
            final(self).description == old(self).description,
            final(self).force == old(self).force,
            final(self).inventaire == old(self).inventaire,
            final(self).argent == old(self).argent,
            final(self).est_vivant == old(self).est_vivant,
            final(self).parties_du_corps@.len() == old(self).parties_du_corps@.len(),
            forall|k: int|
                0 <= k < old(self).parties_du_corps@.len() ==> (#[trigger] final(self).parties_du_corps@[k]) == old(self).parties_du_corps@[k].modele_recuperation(
                    maintenant,
                ),
            forall|k: int|
                0 <= k < final(self).parties_du_corps@.len() ==> (#[trigger] final(self).parties_du_corps@[k]).vie_actuelle == final(self).parties_du_corps@[k].vie_max
                    && final(self).parties_du_corps@[k].etat is Saine,
    {
        let n = self.parties_du_corps.len();
        let mut i: usize = 0;
        while i < n
            invariant
                old(self).bien_forme(),
                -BORNE_HORLOGE <= maintenant <= BORNE_HORLOGE,
                n == self.parties_du_corps@.len(),
                n == old(self).parties_du_corps@.len(),
                0 <= i <= n,
                self.id == old(self).id,
                self.nom == old(self).nom,
                self.description == old(self).description,
                self.force == old(self).force,
                self.inventaire == old(self).inventaire,
                self.argent == old(self).argent,
                self.est_vivant == old(self).est_vivant,
                forall|k: int|
                    0 <= k < i ==> (#[trigger] self.parties_du_corps@[k]) == old(self).parties_du_corps@[k].modele_recuperation(maintenant),
                forall|k: int|
                    0 <= k < i ==> (#[trigger] self.parties_du_corps@[k]).vie_actuelle
                        == self.parties_du_corps@[k].vie_max && self.parties_du_corps@[k].etat
                        is Saine,
                forall|k: int|
                    i <= k < n ==> (#[trigger] self.parties_du_corps@[k]) == old(self).parties_du_corps@[k],
            decreases n - i,
        {
            proof {
                assert(old(self).parties_du_corps@[i as int].est_bien_formee());
            }
            self.parties_du_corps[i].recuperer_apres_combat(maintenant);
            i = i + 1;
        }
    }

    /// Recuperation de fin de combat, l'instant etant lu sur l'horloge.
    pub fn soigner_apres_combat(&mut self)
        requires
            old(self).bien_forme(),
        ensures
            final(self).bien_forme(),
            final(self).id == old(self).id,
            final(self).nom == old(self).nom,
            final(self).description == old(self).description,
            final(self).force == old(self).force,
            final(self).inventaire == old(self).inventaire,
            final(self).argent == old(self).argent,
            final(self).est_vivant == old(self).est_vivant,
            final(self).parties_du_corps@.len() == old(self).parties_du_corps@.len(),
            exists|t: i64|
                #[trigger] recuperation_appliquee(
                    old(self).parties_du_corps@,
                    final(self).parties_du_corps@,
                    t,
                ),
            forall|k: int|
                0 <= k < final(self).parties_du_corps@.len() ==> (#[trigger] final(self).parties_du_corps@[k]).vie_actuelle == final(self).parties_du_corps@[k].vie_max
                    && final(self).parties_du_corps@[k].etat is Saine,
    {
        let maintenant = maintenant_secondes();
        self.soigner_apres_combat_a(maintenant);
        proof {
            assert(recuperation_appliquee(
                old(self).parties_du_corps@,
                self.parties_du_corps@,
                maintenant,
            ));
        }
    }

    /// Ajoute de l'argent au personnage.
    pub fn ajouter_argent(&mut self, montant: u32)
        requires
            old(self).argent + montant <= u32::MAX,
        ensures
            final(self).argent == old(self).argent + montant,
            final(self).id == old(self).id,
            final(self).nom == old(self).nom,
            final(self).description == old(self).description,
            final(self).force == old(self).force,
            final(self).inventaire == old(self).inventaire,
            final(self).parties_du_corps == old(self).parties_du_corps,
            final(self).est_vivant == old(self).est_vivant,
    {
        self.argent = self.argent + montant;
    }

    /// Retire de l'argent au personnage; sans effet quand le solde est
    /// insuffisant.
    pub fn retirer_argent(&mut self, montant: u32)
        ensures
            final(self).argent == if old(self).argent < montant {
                old(self).argent
            } else {
                (old(self).argent - montant) as u32
            },
            final(self).id == old(self).id,
            final(self).nom == old(self).nom,
            final(self).description == old(self).description,
            final(self).force == old(self).force,
            final(self).inventaire == old(self).inventaire,
            final(self).parties_du_corps == old(self).parties_du_corps,
            final(self).est_vivant == old(self).est_vivant,
    {
        if self.argent >= montant {
            self.argent = self.argent - montant;
        }
    }
}

/// Cree les six parties du corps d'usage : tete, torse, deux bras, deux
/// jambes, toutes saines et a pleine vie.
pub fn creer_parties_du_corps() -> (r: Vec<PartieDuCorps>)
    ensures
        r@.len() == 6,
        forall|i: int|
            0 <= i < 6 ==> (#[trigger] r@[i]).est_bien_formee() && r@[i].etat is Saine
                && r@[i].vie_actuelle == r@[i].vie_max && r@[i].equipement.objets@.len() == 0,
        r@[0].nom@ == "Tête"@ && r@[0].vie_max == 50,
        r@[1].nom@ == "Torse"@ && r@[1].vie_max == 100,
        r@[2].nom@ == "Bras droit"@ && r@[2].vie_max == 75,
        r@[3].nom@ == "Bras gauche"@ && r@[3].vie_max == 75,
        r@[4].nom@ == "Jambe droite"@ && r@[4].vie_max == 80,
        r@[5].nom@ == "Jambe gauche"@ && r@[5].vie_max == 80,
{
    let mut parties: Vec<PartieDuCorps> = Vec::new();
    parties.push(PartieDuCorps::new("Tête".to_owned(), 50));
    parties.push(PartieDuCorps::new("Torse".to_owned(), 100));
    parties.push(PartieDuCorps::new("Bras droit".to_owned(), 75));
    parties.push(PartieDuCorps::new("Bras gauche".to_owned(), 75));
    parties.push(PartieDuCorps::new("Jambe droite".to_owned(), 80));
    parties.push(PartieDuCorps::new("Jambe gauche".to_owned(), 80));
    parties
}

/// Le plus grand identifiant d'une suite de personnages, zero quand elle est
/// vide.
pub open spec fn id_maximal(s: Seq<Personnage>) -> int
    decreases s.len(),
{
    if s.len() == 0 {
        0
    } else if s.last().id as int >= id_maximal(s.drop_last()) {
        s.last().id as int
    } else {
        id_maximal(s.drop_last())
    }
}

/// Le prochain identifiant libre : le plus grand identifiant present plus un.
pub fn prochain_id_parmi(personnages: &Vec<Personnage>) -> (r: u32)
    requires
        forall|i: int|
            0 <= i < personnages@.len() ==> (#[trigger] personnages@[i]).id < u32::MAX,
    ensures
        r == id_maximal(personnages@) + 1,
{
    let n = personnages.len();
    let mut plus_grand: u32 = 0;
    let mut i: usize = 0;
    while i < n
        invariant
            n == personnages@.len(),
            0 <= i <= n,
            forall|k: int|
                0 <= k < n ==> (#[trigger] personnages@[k]).id < u32::MAX,
            plus_grand == id_maximal(personnages@.take(i as int)),
            plus_grand < u32::MAX,
        decreases n - i,
    {
        if personnages[i].id > plus_grand {
            plus_grand = personnages[i].id;
        }
        proof {
            let s = personnages@;
            assert(s.take(i + 1).drop_last() =~= s.take(i as int));
            assert(s.take(i + 1).last() == s[i as int]);
        }
        i = i + 1;
    }
    proof {
        assert(personnages@.take(n as int) =~= personnages@);
    }
    plus_grand + 1
}

/// Un joueur : le personnage qu'il controle.
#[derive(Debug, Clone)]
pub struct Joueur {
    /// Le personnage associe au joueur.
    pub personnage: Personnage,
}

/// Un personnage non joueur, marchand ou habitant. Son multiplicateur de
/// prix est un entier pour cent : 120 vend un cinquieme plus cher que le prix
/// de base.
#[derive(Debug, Clone)]
pub struct PNJ {
    /// Le personnage associe.
    pub personnage: Personnage,
    /// Repliques que le personnage peut prononcer.
    pub dialogues: Vec<String>,
    /// Zone ou il se trouve.
    pub zone_id: u32,
    /// Multiplicateur applique aux prix, pour cent.
    pub multiplicateur_prix: u32,
}

impl PNJ {
    /// Prix de vente d'un objet : le prix de base passe par le multiplicateur
    /// pour cent du marchand, arrondi vers le bas.
    pub fn calculer_prix_vente(&self, prix_base: u32) -> (r: u32)
        requires
            prix_base as int * self.multiplicateur_prix as int / 100 <= u32::MAX,
        ensures
            r == prix_base as int * self.multiplicateur_prix as int / 100,
    {
        ((prix_base as u64) * (self.multiplicateur_prix as u64) / 100) as u32
    }
}

/// Un monstre ou une creature hostile.
#[derive(Debug, Clone)]
pub struct Mob {
    /// Le personnage associe au monstre.
    pub personnage: Personnage,
}

/// Des qu'une partie au nom demande existe, une premiere partie a ce nom
/// existe aussi.
pub proof fn lemma_premiere_partie_visee(s: Seq<PartieDuCorps>, nom: Seq<char>, i: int)
    requires
        0 <= i < s.len(),
        minuscules_de(s[i].nom@) == minuscules_de(nom),
    ensures
        vise_une_partie(s, nom),
    decreases i,
{
    if forall|k: int| 0 <= k < i ==> minuscules_de((#[trigger] s[k]).nom@) != minuscules_de(nom) {
        assert(partie_visee(s, nom, i));
    } else {
        let k = choose|k: int|
            0 <= k < i && minuscules_de((#[trigger] s[k]).nom@) == minuscules_de(nom);
        lemma_premiere_partie_visee(s, nom, k);
    }
}

/// Loi : une partie detruite ne change plus sous `apply_damage`, quels que
/// soient les degats et l'instant.
pub proof fn lemma_destruction_monotone(p: PartieDuCorps, degats: u32, t: i64)
    requires
        p.etat is Morte,
    ensures
        p.modele_degats(degats, t) == p,
        !p.detruite_par(degats),
{
}

/// Loi : tant que la vie restante `vie` vaut au moins un centieme du maximum,
/// le pourcentage de blessure d'une partie entamee reste entre 1 et 99.
pub proof fn lemma_blessure_bornee(vie: u32, max: u32)
    requires
        1 <= vie < max,
        vie as int * 100 >= max,
    ensures
        1 <= blessure_spec(vie, max) <= 99,
{
    assert((vie as int * 100) / (max as int) < 100) by (nonlinear_arith)
        requires
            vie < max,
            max >= 1,
    ;
    assert((vie as int * 100) / (max as int) >= 1) by (nonlinear_arith)
        requires
            vie as int * 100 >= max,
            max >= 1,
    ;
}

/// Loi : la partie qu'un coup laisse blessee porte un pourcentage entre 1 et
/// 99, tant que la vie restante vaut au moins un centieme du maximum (sous ce
/// seuil, la division entiere rend un pourcentage de 100).
pub proof fn lemma_blessure_apres_coup_bornee(p: PartieDuCorps, degats: u32, t: i64)
    requires
        p.est_bien_formee(),
        degats < p.vie_actuelle,
        (p.vie_actuelle - degats) * 100 >= p.vie_max,
    ensures
        p.modele_degats(degats, t).etat matches EtatPartie::Blessee(pc) ==> 1 <= pc <= 99,
{
    let vie = (p.vie_actuelle - degats) as u32;
    if vie < p.vie_max {
        lemma_blessure_bornee(vie, p.vie_max);
    } else {
        assert((p.vie_max as int * 100) / (p.vie_max as int) == 100) by (nonlinear_arith)
            requires
                p.vie_max >= 1,
        ;
    }
}

/// Loi : un personnage dont le drapeau de vie est tombe n'est jamais viable.
pub proof fn lemma_mort_jamais_viable(c: Personnage)
    requires
        !c.est_vivant,
    ensures
        !c.peut_se_battre_spec(),
{
}

/// Loi : detruire une partie au nom letal (tete ou torse) par
/// `gerer_blessure` rend le personnage mort et non viable, quel que soit
/// l'etat de ses autres parties, et l'issue rapportee est `Mort`.
pub proof fn lemma_letalite(
    avant: Personnage,
    apres: Personnage,
    r: ResultatBlessure,
    nom: Seq<char>,
    degats: u32,
    j: int,
    t: i64,
)
    requires
        coup_porte(avant, apres, r, nom, degats, j, t),
        avant.parties_du_corps@[j].detruite_par(degats),
        est_nom_letal(avant.parties_du_corps@[j].nom@),
    ensures
        !apres.est_vivant,
        !apres.peut_se_battre_spec(),
        r == ResultatBlessure::Mort,
{
}

/// Loi : la viabilite exige chacune des quatre categories; un personnage sans
/// tete fonctionnelle, ou sans torse, ou sans bras, ou sans jambe, n'est
/// jamais viable, meme encore en vie.
pub proof fn lemma_viabilite_exige_categories(c: Personnage)
    ensures
        !partie_fonctionnelle(c.parties_du_corps@, "tête"@) ==> !c.peut_se_battre_spec(),
        !partie_fonctionnelle(c.parties_du_corps@, "torse"@) ==> !c.peut_se_battre_spec(),
        !partie_fonctionnelle(c.parties_du_corps@, "bras"@) ==> !c.peut_se_battre_spec(),
        !partie_fonctionnelle(c.parties_du_corps@, "jambe"@) ==> !c.peut_se_battre_spec(),
{
}

/// Le multiplicateur de force d'une suite de parties bien formees reste entre
/// zero et mille.
pub proof fn lemma_multiplicateur_borne(s: Seq<PartieDuCorps>)
    requires
        forall|i: int| 0 <= i < s.len() ==> (#[trigger] s[i]).est_bien_formee(),
    ensures
        0 <= multiplicateur_pour_mille(s) <= 1000,
    decreases s.len(),
{
    if s.len() == 0 {
    } else {
        assert(forall|i: int|
            0 <= i < s.drop_last().len() ==> (#[trigger] s.drop_last()[i]).est_bien_formee());
        lemma_multiplicateur_borne(s.drop_last());
        let m = multiplicateur_pour_mille(s.drop_last());
        let p = s.last();
        assert(p.est_bien_formee());
        match p.etat {
            EtatPartie::Morte => {
                assert((m * 700) / 1000 <= m && (m * 700) / 1000 >= 0) by (nonlinear_arith)
                    requires
                        0 <= m,
                ;
                assert((m * 800) / 1000 <= m && (m * 800) / 1000 >= 0) by (nonlinear_arith)
                    requires
                        0 <= m,
                ;
            },
            EtatPartie::Blessee(pc) => {
                assert((m * (200 - pc)) / 200 <= m && (m * (200 - pc)) / 200 >= 0)
                    by (nonlinear_arith)
                    requires
                        0 <= m,
                        1 <= pc <= 100,
                ;
            },
            EtatPartie::Saine => {},
        }
    }
}

/// Loi : la force effective ne depasse jamais la force de base, et tombe a
/// zero pour un personnage mort.
pub proof fn lemma_force_effective_bornee(c: Personnage)
    requires
        c.bien_forme(),
    ensures
        0 <= c.force_effective_spec() <= c.force,
        !c.est_vivant ==> c.force_effective_spec() == 0,
{
    if c.est_vivant {
        lemma_multiplicateur_borne(c.parties_du_corps@);
        let m = multiplicateur_pour_mille(c.parties_du_corps@);
        assert((c.force as int * m) / 1000 <= c.force && (c.force as int * m) / 1000 >= 0)
            by (nonlinear_arith)
            requires
                0 <= m <= 1000,
                0 <= c.force,
        ;
    }
}

} // verus!
