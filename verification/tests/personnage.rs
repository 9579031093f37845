use rustrpg::inventaire::Inventaire;
use rustrpg::personnage::{
    creer_parties_du_corps, prochain_id_parmi, EtatPartie, PartieDuCorps, Personnage,
    ResultatBlessure, PNJ,
};

fn personnage_avec(parties: Vec<PartieDuCorps>, force: u8) -> Personnage {
    Personnage {
        id: 1,
        nom: "Test".to_string(),
        description: "desc".to_string(),
        force,
        inventaire: Inventaire { taille: 5, objets: vec![] },
        parties_du_corps: parties,
        argent: 0,
        est_vivant: true,
    }
}

fn partie_morte(nom: &str, vie_max: u32) -> PartieDuCorps {
    PartieDuCorps {
        nom: nom.to_string(),
        vie_max,
        vie_actuelle: 0,
        etat: EtatPartie::Morte,
        guerison: 0,
        equipement: Inventaire { taille: 1, objets: vec![] },
    }
}

#[test]
fn test_partie_du_corps_new_et_etat() {
    let partie = PartieDuCorps::new("Tête".to_string(), 100);
    assert_eq!(partie.nom(), "Tête");
    assert_eq!(partie.vie_actuelle(), 100);
    assert!(partie.est_saine());
    assert!(!partie.est_morte());
}

#[test]
fn test_subir_degats_et_mort() {
    let mut partie = PartieDuCorps::new("Bras".to_string(), 10);
    let detruite = partie.subir_degats(15);
    assert!(detruite);
    assert!(partie.est_morte());
    assert_eq!(partie.vie_actuelle(), 0);
}

#[test]
fn test_personnage_gerer_blessure_et_soigner() {
    let mut p = personnage_avec(vec![PartieDuCorps::new("Tête".to_string(), 10)], 10);
    let res = p.gerer_blessure("Tête", 15);
    assert!(matches!(res, ResultatBlessure::Mort));
    assert!(!p.est_vivant);
}

#[test]
fn test_gerer_blessure_sans_casse() {
    // La partie est retrouvee et classee sans tenir compte de la casse.
    let mut p = personnage_avec(vec![PartieDuCorps::new("Tête".to_string(), 10)], 10);
    let res = p.gerer_blessure("TÊTE", 15);
    assert!(matches!(res, ResultatBlessure::Mort));
    assert!(!p.est_vivant);
}

#[test]
fn test_gerer_blessure_partie_inconnue() {
    let mut p = personnage_avec(vec![PartieDuCorps::new("Tête".to_string(), 10)], 10);
    let res = p.gerer_blessure("Queue", 15);
    assert!(matches!(res, ResultatBlessure::RienGrave));
    assert!(p.est_vivant);
    assert_eq!(p.parties_du_corps[0].vie_actuelle(), 10);
}

#[test]
fn test_destruction_torse_120_degats() {
    // 120 points sur un torse de 100 : detruit, et le personnage meurt.
    let mut p = personnage_avec(vec![PartieDuCorps::new("Torse".to_string(), 100)], 10);
    let res = p.gerer_blessure("Torse", 120);
    assert!(matches!(res, ResultatBlessure::Mort));
    assert_eq!(p.parties_du_corps[0].vie_actuelle(), 0);
    assert!(matches!(p.parties_du_corps[0].etat(), EtatPartie::Morte));
    assert!(!p.est_vivant);
}

#[test]
fn test_blessure_30_pourcent() {
    // 30 points sur une tete de 100 : 70 de vie, blessee a 30 pour cent, et
    // la guerison est due trente minutes plus tard.
    let mut partie = PartieDuCorps::new_a("Tête".to_string(), 100, 1000);
    let detruite = partie.appliquer_degats(30, 1000);
    assert!(!detruite);
    assert_eq!(partie.vie_actuelle(), 70);
    assert!(matches!(partie.etat(), EtatPartie::Blessee(30)));
    assert_eq!(partie.guerison(), 1000 + 30 * 60);
}

#[test]
fn test_degats_sur_partie_morte_sans_effet() {
    // Destruction monotone : une partie detruite ne change plus.
    let mut partie = partie_morte("Bras", 10);
    let detruite = partie.subir_degats(100);
    assert!(!detruite);
    assert!(partie.est_morte());
    assert_eq!(partie.vie_actuelle(), 0);
}

#[test]
fn test_soin_et_regeneration() {
    let mut partie = PartieDuCorps::new_a("Torse".to_string(), 100, 0);
    partie.appliquer_degats(40, 0);
    assert!(matches!(partie.etat(), EtatPartie::Blessee(40)));
    partie.appliquer_soin(10, 0);
    assert_eq!(partie.vie_actuelle(), 70);
    assert!(matches!(partie.etat(), EtatPartie::Blessee(30)));
    partie.appliquer_soin(1000, 7);
    assert_eq!(partie.vie_actuelle(), 100);
    assert!(matches!(partie.etat(), EtatPartie::Saine));
    assert_eq!(partie.guerison(), 7);
    // Un soin ne ressuscite pas une partie morte.
    let mut morte = partie_morte("Bras", 10);
    morte.appliquer_soin(50, 0);
    assert!(morte.est_morte());
    // La regeneration rend un point par tranche de dix minutes ecoulees.
    let mut blessee = PartieDuCorps::new_a("Jambe".to_string(), 100, 0);
    blessee.appliquer_degats(50, 0);
    let due = blessee.guerison();
    blessee.regenerer_a(due + 1200);
    assert_eq!(blessee.vie_actuelle(), 52);
}

#[test]
fn test_peut_se_battre_et_viabilite() {
    // Toutes les parties saines : viable.
    let p = personnage_avec(creer_parties_du_corps(), 50);
    assert!(p.peut_se_battre());
    // Un bras detruit, l'autre intact : encore viable.
    let mut parties = creer_parties_du_corps();
    parties[2] = partie_morte("Bras droit", 75);
    let p = personnage_avec(parties, 50);
    assert!(p.peut_se_battre());
    // Les deux bras detruits : plus viable, meme en vie.
    let mut parties = creer_parties_du_corps();
    parties[2] = partie_morte("Bras droit", 75);
    parties[3] = partie_morte("Bras gauche", 75);
    let p = personnage_avec(parties, 50);
    assert!(p.est_vivant);
    assert!(!p.peut_se_battre());
    // Tete detruite : plus viable.
    let mut parties = creer_parties_du_corps();
    parties[0] = partie_morte("Tête", 50);
    let p = personnage_avec(parties, 50);
    assert!(!p.peut_se_battre());
    // Torse detruit : plus viable.
    let mut parties = creer_parties_du_corps();
    parties[1] = partie_morte("Torse", 100);
    let p = personnage_avec(parties, 50);
    assert!(!p.peut_se_battre());
    // Les deux jambes detruites : plus viable.
    let mut parties = creer_parties_du_corps();
    parties[4] = partie_morte("Jambe droite", 80);
    parties[5] = partie_morte("Jambe gauche", 80);
    let p = personnage_avec(parties, 50);
    assert!(!p.peut_se_battre());
    // Drapeau de vie tombe : plus viable, quel que soit le corps.
    let mut p = personnage_avec(creer_parties_du_corps(), 50);
    p.est_vivant = false;
    assert!(!p.peut_se_battre());
}

#[test]
fn test_force_effective() {
    // Personnage indemne : force effective egale a la force de base.
    let p = personnage_avec(creer_parties_du_corps(), 50);
    assert_eq!(p.force_effective(), 50);
    // Un bras detruit : force retenue a 70 pour cent.
    let mut parties = creer_parties_du_corps();
    parties[2] = partie_morte("Bras droit", 75);
    let p = personnage_avec(parties, 100);
    assert_eq!(p.force_effective(), 70);
    // Une jambe detruite : 80 pour cent.
    let mut parties = creer_parties_du_corps();
    parties[4] = partie_morte("Jambe droite", 80);
    let p = personnage_avec(parties, 100);
    assert_eq!(p.force_effective(), 80);
    // Une partie blessee a 30 pour cent : facteur (200 - 30) / 200.
    let mut parties = creer_parties_du_corps();
    parties[1].appliquer_degats(30, 0);
    let p = personnage_avec(parties, 100);
    assert_eq!(p.force_effective(), 85);
    // Un mort n'a plus de force.
    let mut p = personnage_avec(creer_parties_du_corps(), 100);
    p.est_vivant = false;
    assert_eq!(p.force_effective(), 0);
}

#[test]
fn test_soigner_apres_combat_remet_tout() {
    // Apres la recuperation, chaque partie est a pleine vie et saine, meme
    // pour un personnage mort; le drapeau de vie ne bouge pas.
    let mut parties = creer_parties_du_corps();
    parties[0] = partie_morte("Tête", 50);
    parties[1].appliquer_degats(30, 0);
    let mut p = personnage_avec(parties, 50);
    p.est_vivant = false;
    p.soigner_apres_combat_a(5000);
    for partie in &p.parties_du_corps {
        assert_eq!(partie.vie_actuelle(), partie.vie_max());
        assert!(matches!(partie.etat(), EtatPartie::Saine));
    }
    assert!(!p.est_vivant);
    // La partie qui etait morte garde une guerison due une heure plus tard.
    assert_eq!(p.parties_du_corps[0].guerison(), 5000 + 3600);
    assert_eq!(p.parties_du_corps[1].guerison(), 5000);
}

#[test]
fn test_argent() {
    let mut p = personnage_avec(creer_parties_du_corps(), 50);
    p.ajouter_argent(100);
    assert_eq!(p.argent, 100);
    p.retirer_argent(30);
    assert_eq!(p.argent, 70);
    // Solde insuffisant : rien ne bouge.
    p.retirer_argent(1000);
    assert_eq!(p.argent, 70);
}

#[test]
fn test_prochain_id_parmi() {
    let personnages = vec![
        personnage_avec(creer_parties_du_corps(), 10),
        Personnage { id: 7, ..personnage_avec(creer_parties_du_corps(), 10) },
    ];
    assert_eq!(prochain_id_parmi(&personnages), 8);
    assert_eq!(prochain_id_parmi(&vec![]), 1);
}

#[test]
fn test_calculer_prix_vente() {
    let pnj = PNJ {
        personnage: personnage_avec(creer_parties_du_corps(), 10),
        dialogues: vec!["Bonjour".to_string()],
        zone_id: 1,
        multiplicateur_prix: 120,
    };
    assert_eq!(pnj.calculer_prix_vente(100), 120);
    assert_eq!(pnj.calculer_prix_vente(5), 6);
}

#[test]
fn test_pourcentage_vie() {
    let mut partie = PartieDuCorps::new_a("Torse".to_string(), 100, 0);
    assert_eq!(partie.pourcentage_vie(), 100);
    partie.appliquer_degats(25, 0);
    assert_eq!(partie.pourcentage_vie(), 75);
}
