use rustrpg::combat::{combattre, degats_finals, CombatResultat};
use rustrpg::inventaire::Inventaire;
use rustrpg::objet::{ajouter_objet, Catalogue, TypeObjet};
use rustrpg::personnage::{creer_parties_du_corps, PartieDuCorps, Personnage};

fn personnage(nom: &str, force: u8) -> Personnage {
    Personnage {
        id: 1,
        nom: nom.to_string(),
        description: "desc".to_string(),
        force,
        inventaire: Inventaire { taille: 5, objets: vec![] },
        parties_du_corps: creer_parties_du_corps(),
        argent: 0,
        est_vivant: true,
    }
}

#[test]
fn test_combatresultat_structure() {
    let p1 = Personnage {
        id: 1,
        nom: "A".to_string(),
        description: "desc".to_string(),
        force: 10,
        inventaire: Inventaire { taille: 1, objets: vec![] },
        parties_du_corps: vec![PartieDuCorps::new("Tête".to_string(), 10)],
        argent: 0,
        est_vivant: true,
    };
    let p2 = p1.clone();
    let res = CombatResultat {
        _vainqueur: Some("A".to_string()),
        etat_final_joueur: p1,
        _etat_final_mob: p2,
    };
    assert_eq!(res._vainqueur, Some("A".to_string()));
}

#[test]
fn test_degats_finals_sans_protection() {
    // Attaquant a mains nues de force effective 40 : degats bruts 4; sans
    // protection ils passent tels quels.
    let attaquant = personnage("A", 40);
    assert_eq!(attaquant.force_effective(), 40);
    let bruts = (attaquant.force_effective() / 10) as u32;
    assert_eq!(bruts, 4);
    assert_eq!(degats_finals(bruts, 0), 4);
}

#[test]
fn test_degats_finals_avec_protection() {
    // Les memes 4 points contre une protection cumulee de 2 : divises par
    // trois, il reste 1 point.
    assert_eq!(degats_finals(4, 2), 1);
    // Protection 1 : divises par une fois et demie, il reste 2 points.
    assert_eq!(degats_finals(4, 1), 2);
    // La protection ne fait jamais remonter les degats.
    let mut precedent = degats_finals(10, 0);
    for protection in 1..12u32 {
        let courant = degats_finals(10, protection);
        assert!(courant <= precedent);
        precedent = courant;
    }
}

#[test]
fn test_combat_vainqueur_deterministe() {
    // L'adversaire n'est pas viable des le depart : le combat s'arrete tout
    // de suite et le premier personnage l'emporte.
    let p1 = personnage("Marc", 50);
    let mut p2 = personnage("Gobelin", 50);
    p2.est_vivant = false;
    let catalogue = Catalogue::new();
    let res = combattre(p1, p2, &catalogue);
    assert_eq!(res._vainqueur, Some("Marc".to_string()));
}

#[test]
fn test_combat_sans_viables_est_nul() {
    let mut p1 = personnage("A", 50);
    let mut p2 = personnage("B", 50);
    p1.est_vivant = false;
    p2.est_vivant = false;
    let catalogue = Catalogue::new();
    let res = combattre(p1, p2, &catalogue);
    assert_eq!(res._vainqueur, None);
}

#[test]
fn test_combat_desarme_contre_sans_force() {
    // L'attaquant frappe a mains nues (il touche toujours); le defenseur, de
    // force nulle, ne porte aucun degat : l'attaquant gagne toujours.
    let p1 = personnage("Bourreau", 50);
    let p2 = personnage("Mannequin", 0);
    let catalogue = Catalogue::new();
    let res = combattre(p1, p2, &catalogue);
    assert_eq!(res._vainqueur, Some("Bourreau".to_string()));
    // La recuperation de fin de combat a remis toutes les parties a neuf.
    for partie in &res._etat_final_mob.parties_du_corps {
        assert_eq!(partie.vie_actuelle(), partie.vie_max());
    }
}

#[test]
fn test_combat_avec_arme_du_catalogue() {
    // Une arme au poing ajoute ses degats : l'attaquant arme de force nulle
    // bat un adversaire de force nulle.
    let mut catalogue = Catalogue::new();
    ajouter_objet(
        &mut catalogue,
        1,
        "Épée".to_string(),
        2,
        100,
        TypeObjet::Arme { degats: 10, proba_degats: 100, frequence_degats: 1 },
    );
    let mut p1 = personnage("Chevalier", 0);
    p1.parties_du_corps[2].ajouter_equipement(1);
    let p2 = personnage("Mannequin", 0);
    let res = combattre(p1, p2, &catalogue);
    assert_eq!(res._vainqueur, Some("Chevalier".to_string()));
}

#[test]
fn test_mille_combats_symetriques() {
    // Mille combats entre personnages symetriques, a mains nues (ils
    // touchent toujours), de force non nulle : chacun se termine, avec un
    // vainqueur parmi les deux noms ou un match nul, et les deux corps
    // ressortent remis a neuf.
    for _ in 0..1000 {
        let p1 = personnage("Premier", 50);
        let p2 = personnage("Second", 50);
        let catalogue = Catalogue::new();
        let res = combattre(p1, p2, &catalogue);
        match &res._vainqueur {
            Some(nom) => assert!(nom == "Premier" || nom == "Second"),
            None => {},
        }
        for partie in res
            .etat_final_joueur
            .parties_du_corps
            .iter()
            .chain(res._etat_final_mob.parties_du_corps.iter())
        {
            assert_eq!(partie.vie_actuelle(), partie.vie_max());
        }
    }
}
