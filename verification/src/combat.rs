//! Resolution d'un combat entre deux personnages : tours alternes, choix
//! d'arme, tirage de la partie visee, jet de toucher, protection et degats.
//!
//! Le premier attaquant est tire au sort; chaque tour porte au plus un coup.
//! La boucle s'arrete des qu'un des deux combattants n'est plus viable, et
//! elle est en outre bornee par `TOURS_MAX` tours, ce qui garantit qu'elle
//! rend toujours la main.

use vstd::prelude::*;

use crate::chaine::nom_contient;
use crate::hasard::entier_aleatoire;
use crate::inventaire::ObjetInventaire;
use crate::objet::{entree_catalogue, Catalogue, Objet, TypeObjet};
use crate::personnage::{
    coup_porte, lemma_premiere_partie_visee, recuperation_appliquee, Personnage, PartieDuCorps,
    ResultatBlessure,
};

verus! {

/// Resultat d'un combat : le nom du vainqueur s'il y en a un, et l'etat final
/// des deux personnages.
pub struct CombatResultat {
    /// Nom du vainqueur, ou `None` quand il n'y en a pas.
    pub _vainqueur: Option<String>,
    /// Etat final du premier personnage (le joueur).
    pub etat_final_joueur: Personnage,
    /// Etat final du second personnage (le monstre ou l'adversaire).
    pub _etat_final_mob: Personnage,
}

/// Nombre de tours au-dela duquel le combat est declare sans vainqueur; la
/// boucle de combat rend ainsi toujours la main, meme quand aucun des deux
/// camps ne peut plus entamer l'autre.
pub const TOURS_MAX: u64 = 1_000_000;

/// Plus grands degats d'arme admis au catalogue pour un combat : ils laissent
/// la place du bonus de force dans un entier de 32 bits.
pub const DEGATS_ARME_MAX: u32 = 4_294_967_000;

/// Toutes les armes du catalogue restent sous `DEGATS_ARME_MAX`.
pub open spec fn degats_bornes(cat: Catalogue) -> bool {
    forall|k: int|
        0 <= k < cat.objets@.len() ==> match (#[trigger] cat.objets@[k]).objet_type {
            TypeObjet::Arme { degats, .. } => degats <= DEGATS_ARME_MAX,
            _ => true,
        }
}

/// Chaque partie du corps porte un equipement d'au plus `u32::MAX` entrees.
pub open spec fn equipements_bornes(c: Personnage) -> bool {
    forall|i: int|
        0 <= i < c.parties_du_corps@.len() ==> (#[trigger] c.parties_du_corps@[i]).equipement.objets@.len() <= u32::MAX
}

/// Une partie au moins n'est pas detruite.
pub open spec fn une_partie_vivante(s: Seq<PartieDuCorps>) -> bool {
    exists|i: int| 0 <= i < s.len() && !((#[trigger] s[i]).etat is Morte)
}

/// La premiere arme du catalogue parmi les entrees d'un equipement, dans
/// l'ordre de rangement.
pub open spec fn arme_dans_equipement(objets: Seq<ObjetInventaire>, cat: Catalogue) -> Option<
    Objet,
>
    decreases objets.len(),
{
    if objets.len() == 0 {
        Option::None
    } else {
        match entree_catalogue(cat.objets@, objets[0].objet_id) {
            Option::Some(o) => if o.objet_type is Arme {
                Option::Some(o)
            } else {
                arme_dans_equipement(objets.drop_first(), cat)
            },
            Option::None => arme_dans_equipement(objets.drop_first(), cat),
        }
    }
}

/// L'arme de l'attaquant : la premiere arme trouvee en parcourant, dans
/// l'ordre, l'equipement des parties classees bras.
pub open spec fn arme_du_personnage(parties: Seq<PartieDuCorps>, cat: Catalogue) -> Option<Objet>
    decreases parties.len(),
{
    if parties.len() == 0 {
        Option::None
    } else {
        let premier = if nom_contient(parties[0].nom@, "bras"@) {
            arme_dans_equipement(parties[0].equipement.objets@, cat)
        } else {
            Option::None
        };
        if premier is Some {
            premier
        } else {
            arme_du_personnage(parties.drop_first(), cat)
        }
    }
}

/// Degats et probabilite de toucher (pour cent) d'une arme choisie.
pub open spec fn degats_arme(o: Option<Objet>) -> Option<(u32, u8)> {
    match o {
        Option::Some(ob) => match ob.objet_type {
            TypeObjet::Arme { degats, proba_degats, .. } => Option::Some((degats, proba_degats)),
            _ => Option::None,
        },
        Option::None => Option::None,
    }
}

/// Protection qu'apporte une entree du catalogue : celle d'un equipement,
/// rien pour tout autre objet ou pour un identifiant inconnu.
pub open spec fn protection_de(o: Option<Objet>) -> int {
    match o {
        Option::Some(ob) => match ob.objet_type {
            TypeObjet::Equipement { protection, .. } => protection as int,
            _ => 0,
        },
        Option::None => 0,
    }
}

/// Somme des protections des entrees d'un equipement, au vu du catalogue.
pub open spec fn somme_protection(objets: Seq<ObjetInventaire>, cat: Catalogue) -> int
    decreases objets.len(),
{
    if objets.len() == 0 {
        0
    } else {
        protection_de(entree_catalogue(cat.objets@, objets[0].objet_id)) + somme_protection(
            objets.drop_first(),
            cat,
        )
    }
}

/// Degats finals apres protection : sans protection les degats bruts passent
/// tels quels; sinon ils sont divises par une fois et demie la protection
/// cumulee, le quotient arrondi vers le bas : `(2 * bruts) / (3 *
/// protection)`. (Le plancher de un sur le diviseur ne joue qu'a protection
/// nulle, puisque une fois et demie toute protection non nulle depasse un.)
pub open spec fn degats_finals_spec(bruts: int, protection: int) -> int {
    if protection > 0 {
        (2 * bruts) / (3 * protection)
    } else {
        bruts
    }
}

/// Degats bruts d'un tour : ceux de l'arme choisie augmentes d'un dixieme de
/// la force effective, ou ce dixieme seul a mains nues.
pub open spec fn degats_bruts_du_tour(attaquant: Personnage, cat: Catalogue) -> int {
    match degats_arme(arme_du_personnage(attaquant.parties_du_corps@, cat)) {
        Option::Some(dp) => dp.0 + attaquant.force_effective_spec() / 10,
        Option::None => attaquant.force_effective_spec() / 10,
    }
}

/// Degats finals d'un tour contre la partie `cible`, sa protection comptee.
pub open spec fn degats_du_tour(attaquant: Personnage, cat: Catalogue, cible: PartieDuCorps) -> int {
    degats_finals_spec(
        degats_bruts_du_tour(attaquant, cat),
        somme_protection(cible.equipement.objets@, cat),
    )
}

/// Ce qu'un tour de combat fait du defenseur : une partie non detruite `j` a
/// ete tiree au sort, puis ou bien rien n'a change (coup manque ou sans
/// effet), ou bien la premiere partie portant le nom de la cible a recu les
/// degats du tour.
pub open spec fn tour_resolu(
    avant: Personnage,
    apres: Personnage,
    attaquant: Personnage,
    cat: Catalogue,
    j: int,
    t: i64,
    res: ResultatBlessure,
) -> bool {
    &&& 0 <= j < avant.parties_du_corps@.len()
    &&& !(avant.parties_du_corps@[j].etat is Morte)
    &&& (apres == avant || exists|jj: int|
        #[trigger] coup_porte(
            avant,
            apres,
            res,
            avant.parties_du_corps@[j].nom@,
            degats_du_tour(attaquant, cat, avant.parties_du_corps@[j]) as u32,
            jj,
            t,
        ))
    &&& (arme_du_personnage(attaquant.parties_du_corps@, cat) is None && degats_du_tour(
        attaquant,
        cat,
        avant.parties_du_corps@[j],
    ) > 0 ==> exists|jj: int|
        #[trigger] coup_porte(
            avant,
            apres,
            res,
            avant.parties_du_corps@[j].nom@,
            degats_du_tour(attaquant, cat, avant.parties_du_corps@[j]) as u32,
            jj,
            t,
        ))
}

/// L'arme retenue dans un equipement est toujours une arme.
proof fn lemma_arme_dans_equipement_est_arme(objets: Seq<ObjetInventaire>, cat: Catalogue)
    ensures
        match arme_dans_equipement(objets, cat) {
            Option::Some(o) => o.objet_type is Arme,
            Option::None => true,
        },
    decreases objets.len(),
{
    if objets.len() == 0 {
    } else {
        lemma_arme_dans_equipement_est_arme(objets.drop_first(), cat);
    }
}

/// L'entree rendue par une consultation du catalogue figure dans le
/// catalogue.
proof fn lemma_entree_dans_catalogue(s: Seq<Objet>, id: u8)
    ensures
        match entree_catalogue(s, id) {
            Option::Some(o) => exists|k: int| 0 <= k < s.len() && s[k] == o,
            Option::None => true,
        },
    decreases s.len(),
{
    if s.len() == 0 {
    } else if s[0].id == id {
        assert(s[0] == entree_catalogue(s, id)->Some_0);
    } else {
        lemma_entree_dans_catalogue(s.drop_first(), id);
        if entree_catalogue(s.drop_first(), id) is Some {
            let o = entree_catalogue(s.drop_first(), id)->Some_0;
            let k = choose|k: int| 0 <= k < s.drop_first().len() && s.drop_first()[k] == o;
            assert(s[k + 1] == o);
        }
    }
}

/// Cherche la premiere arme du catalogue dans un equipement; rend ses degats
/// et sa probabilite de toucher.
fn arme_dans(equipement: &Vec<ObjetInventaire>, catalogue: &Catalogue) -> (r: Option<(u32, u8)>)
    ensures
        r == degats_arme(arme_dans_equipement(equipement@, *catalogue)),
        degats_bornes(*catalogue) ==> match r {
            Option::Some(dp) => dp.0 <= DEGATS_ARME_MAX,
            Option::None => true,
        },
{
    let n = equipement.len();
    let mut i: usize = 0;
    proof {
        assert(equipement@.skip(0) =~= equipement@);
    }
    while i < n
        invariant
            n == equipement@.len(),
            0 <= i <= n,
            arme_dans_equipement(equipement@, *catalogue) == arme_dans_equipement(
                equipement@.skip(i as int),
                *catalogue,
            ),
        decreases n - i,
    {
        proof {
            assert(equipement@.skip(i as int)[0] == equipement@[i as int]);
            assert(equipement@.skip(i as int).drop_first() =~= equipement@.skip(i + 1));
        }
        let id = equipement[i].objet_id;
        match catalogue.trouver(id) {
            Some(objet) => {
                match &objet.objet_type {
                    TypeObjet::Arme { degats, proba_degats, .. } => {
                        proof {
                            lemma_entree_dans_catalogue(catalogue.objets@, id);
                        }
                        return Some((*degats, *proba_degats));
                    },
                    _ => {},
                }
            },
            None => {},
        }
        i = i + 1;
    }
    proof {
        assert(equipement@.skip(n as int) =~= Seq::<ObjetInventaire>::empty());
    }
    None
}

/// Choisit l'arme de l'attaquant : la premiere arme equipee sur une partie
/// classee bras, dans l'ordre des parties puis des entrees.
fn choisir_arme(attaquant: &Personnage, catalogue: &Catalogue) -> (r: Option<(u32, u8)>)
    ensures
        r == degats_arme(arme_du_personnage(attaquant.parties_du_corps@, *catalogue)),
        degats_bornes(*catalogue) ==> match r {
            Option::Some(dp) => dp.0 <= DEGATS_ARME_MAX,
            Option::None => true,
        },
{
    let n = attaquant.parties_du_corps.len();
    let mut i: usize = 0;
    proof {
        assert(attaquant.parties_du_corps@.skip(0) =~= attaquant.parties_du_corps@);
    }
    while i < n
        invariant
            n == attaquant.parties_du_corps@.len(),
            0 <= i <= n,
            arme_du_personnage(attaquant.parties_du_corps@, *catalogue) == arme_du_personnage(
                attaquant.parties_du_corps@.skip(i as int),
                *catalogue,
            ),
        decreases n - i,
    {
        proof {
            assert(attaquant.parties_du_corps@.skip(i as int)[0] == attaquant.parties_du_corps@[i as int]);
            assert(attaquant.parties_du_corps@.skip(i as int).drop_first()
                =~= attaquant.parties_du_corps@.skip(i + 1));
        }
        let partie = &attaquant.parties_du_corps[i];
        if crate::chaine::nom_correspond(partie.nom.as_str(), "bras") {
            match arme_dans(&partie.equipement.objets, catalogue) {
                Some(dp) => {
                    proof {
                        lemma_arme_dans_equipement_est_arme(partie.equipement.objets@, *catalogue);
                    }
                    return Some(dp);
                },
                None => {
                    proof {
                        lemma_arme_dans_equipement_est_arme(partie.equipement.objets@, *catalogue);
                    }
                },
            }
        }
        i = i + 1;
    }
    proof {
        assert(attaquant.parties_du_corps@.skip(n as int) =~= Seq::<PartieDuCorps>::empty());
    }
    None
}

/// Tire au sort une partie non detruite du defenseur; `None` quand il n'en
/// reste aucune.
fn choisir_cible(defenseur: &Personnage) -> (r: Option<usize>)
    ensures
        r is None <==> !une_partie_vivante(defenseur.parties_du_corps@),
        match r {
            Option::Some(i) => i < defenseur.parties_du_corps@.len() && !(
            defenseur.parties_du_corps@[i as int].etat is Morte),
            Option::None => true,
        },
{
    let n = defenseur.parties_du_corps.len();
    let mut vivantes: Vec<usize> = Vec::new();
    let mut i: usize = 0;
    while i < n
        invariant
            n == defenseur.parties_du_corps@.len(),
            0 <= i <= n,
            forall|k: int|
                0 <= k < vivantes@.len() ==> (#[trigger] vivantes@[k]) < n && !(
                defenseur.parties_du_corps@[vivantes@[k] as int].etat is Morte),
            vivantes@.len() == 0 ==> forall|j: int|
                0 <= j < i ==> (#[trigger] defenseur.parties_du_corps@[j]).etat is Morte,
        decreases n - i,
    {
        if !matches!(defenseur.parties_du_corps[i].etat, crate::personnage::EtatPartie::Morte) {
            vivantes.push(i);
        }
        i = i + 1;
    }
    if vivantes.len() == 0 {
        return None;
    }
    let tirage = entier_aleatoire(vivantes.len());
    Some(vivantes[tirage])
}

/// Somme des protections qu'apporte l'equipement de la partie `cible`.
fn protection_sur(cible: &PartieDuCorps, catalogue: &Catalogue) -> (r: u64)
    requires
        cible.equipement.objets@.len() <= u32::MAX,
    ensures
        r == somme_protection(cible.equipement.objets@, *catalogue),
        r <= 255 * cible.equipement.objets@.len(),
{
    let objets = &cible.equipement.objets;
    let n = objets.len();
    let mut somme: u64 = 0;
    let mut i: usize = 0;
    proof {
        assert(objets@.skip(0) =~= objets@);
    }
    while i < n
        invariant
            objets == cible.equipement.objets,
            n == objets@.len(),
            n <= u32::MAX,
            0 <= i <= n,
            somme <= 255 * (i as int),
            somme + somme_protection(objets@.skip(i as int), *catalogue) == somme_protection(
                objets@,
                *catalogue,
            ),
        decreases n - i,
    {
        proof {
            assert(objets@.skip(i as int)[0] == objets@[i as int]);
            assert(objets@.skip(i as int).drop_first() =~= objets@.skip(i + 1));
        }
        let id = objets[i].objet_id;
        match catalogue.trouver(id) {
            Some(objet) => {
                match &objet.objet_type {
                    TypeObjet::Equipement { protection, .. } => {
                        somme = somme + (*protection as u64);
                    },
                    _ => {},
                }
            },
            None => {},
        }
        i = i + 1;
    }
    proof {
        assert(objets@.skip(n as int) =~= Seq::<ObjetInventaire>::empty());
    }
    somme
}

/// Un tour de combat : l'attaquant choisit son arme, une partie non detruite
/// du defenseur est tiree au sort, le jet de toucher est lance, la protection
/// de la partie visee amortit les degats, et le coup est porte par
/// `gerer_blessure`. Vrai quand le defenseur avait encore une partie a viser.
fn tour_de_combat(attaquant: &Personnage, defenseur: &mut Personnage, catalogue: &Catalogue) -> (cible_trouvee: bool)
    requires
        attaquant.bien_forme(),
        old(defenseur).bien_forme(),
        equipements_bornes(*old(defenseur)),
        degats_bornes(*catalogue),
    ensures
        final(defenseur).bien_forme(),
        cible_trouvee == une_partie_vivante(old(defenseur).parties_du_corps@),
        !cible_trouvee ==> *final(defenseur) == *old(defenseur),
        final(defenseur).id == old(defenseur).id,
        final(defenseur).nom == old(defenseur).nom,
        final(defenseur).description == old(defenseur).description,
        final(defenseur).force == old(defenseur).force,
        final(defenseur).inventaire == old(defenseur).inventaire,
        final(defenseur).argent == old(defenseur).argent,
        final(defenseur).parties_du_corps@.len() == old(defenseur).parties_du_corps@.len(),
        forall|k: int|
            0 <= k < old(defenseur).parties_du_corps@.len() ==> (#[trigger] final(defenseur).parties_du_corps@[k]).nom == old(defenseur).parties_du_corps@[k].nom && final(defenseur).parties_du_corps@[k].vie_max == old(defenseur).parties_du_corps@[k].vie_max && final(defenseur).parties_du_corps@[k].equipement == old(defenseur).parties_du_corps@[k].equipement,
        final(defenseur).est_vivant ==> old(defenseur).est_vivant,
        cible_trouvee ==> exists|j: int, t: i64, res: ResultatBlessure|
            #[trigger] tour_resolu(
                *old(defenseur),
                *final(defenseur),
                *attaquant,
                *catalogue,
                j,
                t,
                res,
            ),
{
    let cible = choisir_cible(defenseur);
    let ic: usize = match cible {
        None => {
            return false;
        },
        Some(i) => i,
    };
    let arme = choisir_arme(attaquant, catalogue);
    let force_attaquant = attaquant.force_effective();
    let bruts: u64 = match arme {
        Some(dp) => dp.0 as u64 + (force_attaquant / 10) as u64,
        None => (force_attaquant / 10) as u64,
    };
    let proba: u8 = match arme {
        Some(dp) => dp.1,
        None => 100,
    };
    let ghost defenseur_avant = *defenseur;
    let ghost resultat_fictif = ResultatBlessure::RienGrave;
    let tirage = entier_aleatoire(100);
    if tirage < proba as usize {
        let protection = protection_sur(&defenseur.parties_du_corps[ic], catalogue);
        let degats_finals: u64 = if protection > 0 {
            (2 * bruts) / (3 * protection)
        } else {
            bruts
        };
        proof {
            assert(degats_finals
                == degats_du_tour(
                    *attaquant,
                    *catalogue,
                    defenseur_avant.parties_du_corps@[ic as int],
                ));
            assert(bruts <= DEGATS_ARME_MAX + 25);
            assert(degats_finals <= bruts) by {
                lemma_degats_finals_bornes(bruts as int, protection as int);
            }
        }
        if degats_finals > 0 {
            let nom_cible = defenseur.parties_du_corps[ic].nom.clone();
            let res = defenseur.gerer_blessure(nom_cible.as_str(), degats_finals as u32);
            proof {
                lemma_premiere_partie_visee(
                    defenseur_avant.parties_du_corps@,
                    nom_cible@,
                    ic as int,
                );
                let (jj, t) = choose|jj: int, t: i64|
                    #[trigger] coup_porte(
                        defenseur_avant,
                        *defenseur,
                        res,
                        nom_cible@,
                        degats_finals as u32,
                        jj,
                        t,
                    );
                assert(coup_porte(
                    defenseur_avant,
                    *defenseur,
                    res,
                    defenseur_avant.parties_du_corps@[ic as int].nom@,
                    degats_du_tour(
                        *attaquant,
                        *catalogue,
                        defenseur_avant.parties_du_corps@[ic as int],
                    ) as u32,
                    jj,
                    t,
                ));
                assert(tour_resolu(
                    defenseur_avant,
                    *defenseur,
                    *attaquant,
                    *catalogue,
                    ic as int,
                    t,
                    res,
                ));
            }
            return true;
        }
    }
    proof {
        assert(tour_resolu(
            defenseur_avant,
            *defenseur,
            *attaquant,
            *catalogue,
            ic as int,
            0,
            resultat_fictif,
        ));
    }
    true
}

/// Le verdict d'un combat, au vu de la viabilite `v1` et `v2` de chaque camp
/// a la sortie de la boucle de tours : le camp reste seul viable l'emporte,
/// sous son nom, et il est encore en vie; deux camps viables, ou aucun, font
/// un match nul.
pub open spec fn verdict_du_combat(
    r: CombatResultat,
    nom1: Seq<char>,
    nom2: Seq<char>,
    v1: bool,
    v2: bool,
) -> bool {
    &&& (v1 && !v2 ==> r._vainqueur is Some && r._vainqueur->Some_0@ == nom1)
    &&& (v2 && !v1 ==> r._vainqueur is Some && r._vainqueur->Some_0@ == nom2)
    &&& (v1 == v2 ==> r._vainqueur is None)
    &&& (v1 ==> r.etat_final_joueur.est_vivant)
    &&& (v2 ==> r._etat_final_mob.est_vivant)
}

/// Resout un combat entre `p1` et `p2` au vu du catalogue : tours alternes a
/// partir d'un premier attaquant tire au sort, jusqu'a ce qu'un des deux ne
/// soit plus viable (ou que `TOURS_MAX` tours soient passes, auquel cas il
/// n'y a pas de vainqueur). Le vainqueur est celui qui reste seul viable; la
/// recuperation de fin de combat est ensuite appliquee aux deux.
pub fn combattre(p1: Personnage, p2: Personnage, catalogue: &Catalogue) -> (r: CombatResultat)
    requires
        p1.bien_forme(),
        p2.bien_forme(),
        equipements_bornes(p1),
        equipements_bornes(p2),
        degats_bornes(*catalogue),
    ensures
        r.etat_final_joueur.bien_forme(),
        r._etat_final_mob.bien_forme(),
        r.etat_final_joueur.id == p1.id && r.etat_final_joueur.nom == p1.nom
            && r.etat_final_joueur.description == p1.description && r.etat_final_joueur.force
            == p1.force && r.etat_final_joueur.inventaire == p1.inventaire
            && r.etat_final_joueur.argent == p1.argent,
        r._etat_final_mob.id == p2.id && r._etat_final_mob.nom == p2.nom
            && r._etat_final_mob.description == p2.description && r._etat_final_mob.force
            == p2.force && r._etat_final_mob.inventaire == p2.inventaire && r._etat_final_mob.argent
            == p2.argent,
        r.etat_final_joueur.parties_du_corps@.len() == p1.parties_du_corps@.len(),
        r._etat_final_mob.parties_du_corps@.len() == p2.parties_du_corps@.len(),
        forall|k: int|
            0 <= k < p1.parties_du_corps@.len() ==> (#[trigger] r.etat_final_joueur.parties_du_corps@[k]).nom
                == p1.parties_du_corps@[k].nom && r.etat_final_joueur.parties_du_corps@[k].vie_max
                == p1.parties_du_corps@[k].vie_max
                && r.etat_final_joueur.parties_du_corps@[k].equipement
                == p1.parties_du_corps@[k].equipement,
        forall|k: int|
            0 <= k < p2.parties_du_corps@.len() ==> (#[trigger] r._etat_final_mob.parties_du_corps@[k]).nom
                == p2.parties_du_corps@[k].nom && r._etat_final_mob.parties_du_corps@[k].vie_max
                == p2.parties_du_corps@[k].vie_max && r._etat_final_mob.parties_du_corps@[k].equipement
                == p2.parties_du_corps@[k].equipement,
        forall|k: int|
            0 <= k < r.etat_final_joueur.parties_du_corps@.len() ==> (#[trigger] r.etat_final_joueur.parties_du_corps@[k]).vie_actuelle
                == r.etat_final_joueur.parties_du_corps@[k].vie_max
                && r.etat_final_joueur.parties_du_corps@[k].etat is Saine,
        forall|k: int|
            0 <= k < r._etat_final_mob.parties_du_corps@.len() ==> (#[trigger] r._etat_final_mob.parties_du_corps@[k]).vie_actuelle
                == r._etat_final_mob.parties_du_corps@[k].vie_max
                && r._etat_final_mob.parties_du_corps@[k].etat is Saine,
        r.etat_final_joueur.est_vivant ==> p1.est_vivant,
        r._etat_final_mob.est_vivant ==> p2.est_vivant,
        r._vainqueur is Some ==> (r._vainqueur->Some_0@ == p1.nom@ || r._vainqueur->Some_0@
            == p2.nom@),
        r._vainqueur is Some ==> (r.etat_final_joueur.est_vivant || r._etat_final_mob.est_vivant),
        exists|v1: bool, v2: bool| #[trigger] verdict_du_combat(r, p1.nom@, p2.nom@, v1, v2),
        p1.nom@ != p2.nom@ && r._vainqueur is Some && r._vainqueur->Some_0@ == p1.nom@
            ==> r.etat_final_joueur.est_vivant,
        p1.nom@ != p2.nom@ && r._vainqueur is Some && r._vainqueur->Some_0@ == p2.nom@
            ==> r._etat_final_mob.est_vivant,
        !(p1.peut_se_battre_spec() && p2.peut_se_battre_spec())
            ==> r.etat_final_joueur.est_vivant == p1.est_vivant && r._etat_final_mob.est_vivant
            == p2.est_vivant,
        !(p1.peut_se_battre_spec() && p2.peut_se_battre_spec()) ==> exists|t: i64|
            #[trigger] recuperation_appliquee(
                p1.parties_du_corps@,
                r.etat_final_joueur.parties_du_corps@,
                t,
            ),
        !(p1.peut_se_battre_spec() && p2.peut_se_battre_spec()) ==> exists|t: i64|
            #[trigger] recuperation_appliquee(
                p2.parties_du_corps@,
                r._etat_final_mob.parties_du_corps@,
                t,
            ),
        p1.peut_se_battre_spec() && !p2.peut_se_battre_spec() ==> r._vainqueur is Some
            && r._vainqueur->Some_0@ == p1.nom@,
        p2.peut_se_battre_spec() && !p1.peut_se_battre_spec() ==> r._vainqueur is Some
            && r._vainqueur->Some_0@ == p2.nom@,
        !p1.peut_se_battre_spec() && !p2.peut_se_battre_spec() ==> r._vainqueur is None,
{
    let mut j1 = p1;
    let mut j2 = p2;
    let ghost j1_depart = j1;
    let ghost j2_depart = j2;
    let premier = entier_aleatoire(2);
    let mut attaquant: usize = premier;
    let mut fuel: u64 = TOURS_MAX;
    let mut continuer = j1.peut_se_battre() && j2.peut_se_battre();
    while continuer && fuel > 0
        invariant
            j1.bien_forme(),
            j2.bien_forme(),
            degats_bornes(*catalogue),
            equipements_bornes(j1),
            equipements_bornes(j2),
            attaquant <= 1,
            j1.id == j1_depart.id && j1.nom == j1_depart.nom && j1.description
                == j1_depart.description && j1.force == j1_depart.force && j1.inventaire
                == j1_depart.inventaire && j1.argent == j1_depart.argent,
            j2.id == j2_depart.id && j2.nom == j2_depart.nom && j2.description
                == j2_depart.description && j2.force == j2_depart.force && j2.inventaire
                == j2_depart.inventaire && j2.argent == j2_depart.argent,
            j1.parties_du_corps@.len() == j1_depart.parties_du_corps@.len(),
            j2.parties_du_corps@.len() == j2_depart.parties_du_corps@.len(),
            forall|k: int|
                0 <= k < j1_depart.parties_du_corps@.len() ==> (#[trigger] j1.parties_du_corps@[k]).nom
                    == j1_depart.parties_du_corps@[k].nom && j1.parties_du_corps@[k].vie_max
                    == j1_depart.parties_du_corps@[k].vie_max && j1.parties_du_corps@[k].equipement
                    == j1_depart.parties_du_corps@[k].equipement,
            forall|k: int|
                0 <= k < j2_depart.parties_du_corps@.len() ==> (#[trigger] j2.parties_du_corps@[k]).nom
                    == j2_depart.parties_du_corps@[k].nom && j2.parties_du_corps@[k].vie_max
                    == j2_depart.parties_du_corps@[k].vie_max && j2.parties_du_corps@[k].equipement
                    == j2_depart.parties_du_corps@[k].equipement,
            j1.est_vivant ==> j1_depart.est_vivant,
            j2.est_vivant ==> j2_depart.est_vivant,
            continuer ==> j1.peut_se_battre_spec() && j2.peut_se_battre_spec(),
            !(j1_depart.peut_se_battre_spec() && j2_depart.peut_se_battre_spec()) ==> j1
                == j1_depart && j2 == j2_depart && !continuer,
        decreases fuel,
    {
        let cible_trouvee = if attaquant == 0 {
            tour_de_combat(&j1, &mut j2, catalogue)
        } else {
            tour_de_combat(&j2, &mut j1, catalogue)
        };
        attaquant = 1 - attaquant;
        fuel = fuel - 1;
        continuer = cible_trouvee && j1.peut_se_battre() && j2.peut_se_battre();
    }
    let viable1 = j1.peut_se_battre();
    let viable2 = j2.peut_se_battre();
    let vainqueur: Option<String> = if viable1 && !viable2 {
        Some(j1.nom.clone())
    } else if viable2 && !viable1 {
        Some(j2.nom.clone())
    } else {
        None
    };
    j1.soigner_apres_combat();
    j2.soigner_apres_combat();
    let resultat = CombatResultat { _vainqueur: vainqueur, etat_final_joueur: j1, _etat_final_mob: j2 };
    proof {
        assert(verdict_du_combat(resultat, j1_depart.nom@, j2_depart.nom@, viable1, viable2));
    }
    resultat
}

/// Degats finals apres protection, tels que le tour de combat les porte :
/// sans protection les degats bruts passent tels quels, sinon ils sont
/// divises par une fois et demie la protection cumulee.
pub fn degats_finals(bruts: u32, protection: u32) -> (r: u32)
    ensures
        r == degats_finals_spec(bruts as int, protection as int),
{
    if protection > 0 {
        let r = (2 * bruts as u64) / (3 * protection as u64);
        proof {
            lemma_degats_finals_bornes(bruts as int, protection as int);
        }
        r as u32
    } else {
        bruts
    }
}

/// Les degats finals ne depassent jamais les degats bruts.
proof fn lemma_degats_finals_bornes(bruts: int, protection: int)
    requires
        0 <= bruts,
        0 <= protection,
    ensures
        0 <= degats_finals_spec(bruts, protection) <= bruts,
{
    if protection > 0 {
        vstd::arithmetic::div_mod::lemma_div_is_ordered_by_denominator(
            2 * bruts,
            3,
            3 * protection,
        );
        vstd::arithmetic::div_mod::lemma_div_is_ordered(2 * bruts, 3 * bruts, 3);
        vstd::arithmetic::div_mod::lemma_div_multiples_vanish(bruts, 3);
    }
}

/// Loi : a mains nues (aucune arme du catalogue sur une partie classee
/// bras), les degats bruts d'un tour valent le dixieme de la force effective
/// de l'attaquant, et les degats finals suivent la formule de protection
/// telle quelle : entiers sans protection, divises par une fois et demie la
/// protection cumulee sinon.
pub proof fn lemma_degats_tour_mains_nues(
    attaquant: Personnage,
    cat: Catalogue,
    cible: PartieDuCorps,
)
    requires
        arme_du_personnage(attaquant.parties_du_corps@, cat) is None,
    ensures
        degats_bruts_du_tour(attaquant, cat) == attaquant.force_effective_spec() / 10,
        somme_protection(cible.equipement.objets@, cat) <= 0 ==> degats_du_tour(
            attaquant,
            cat,
            cible,
        ) == attaquant.force_effective_spec() / 10,
        somme_protection(cible.equipement.objets@, cat) > 0 ==> degats_du_tour(
            attaquant,
            cat,
            cible,
        ) == (2 * (attaquant.force_effective_spec() / 10)) / (3 * somme_protection(
            cible.equipement.objets@,
            cat,
        )),
{
}

/// Loi : a degats bruts fixes, les degats finals ne croissent jamais quand
/// la protection cumulee croit.
pub proof fn lemma_protection_reduit_degats(bruts: int, protection1: int, protection2: int)
    requires
        0 <= bruts,
        0 <= protection1 <= protection2,
    ensures
        degats_finals_spec(bruts, protection2) <= degats_finals_spec(bruts, protection1),
{
    if protection1 == 0 {
        lemma_degats_finals_bornes(bruts, protection2);
    } else {
        vstd::arithmetic::div_mod::lemma_div_is_ordered_by_denominator(
            2 * bruts,
            3 * protection1,
            3 * protection2,
        );
    }
}

} // verus!
