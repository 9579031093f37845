use rustrpg::objet::{
    ajouter_objet, emplacement_depuis_nom, Catalogue, Emplacement, Objet, TypeObjet,
};

#[test]
fn test_objet_est_arme_equipement_soin() {
    let arme = Objet {
        id: 1,
        nom: "Épée".to_string(),
        poids: 2,
        prix: 100,
        objet_type: TypeObjet::Arme { degats: 10, proba_degats: 100, frequence_degats: 1 },
    };
    assert!(arme.est_arme());
    assert!(!arme.est_equipement());
    assert!(!arme.est_soin());

    let equip = Objet {
        id: 2,
        nom: "Casque".to_string(),
        poids: 1,
        prix: 50,
        objet_type: TypeObjet::Equipement { protection: 5, emplacement: Emplacement::Tete },
    };
    assert!(equip.est_equipement());
    assert!(!equip.est_arme());
    assert!(!equip.est_soin());

    let soin = Objet {
        id: 3,
        nom: "Potion".to_string(),
        poids: 1,
        prix: 20,
        objet_type: TypeObjet::Soin { vie: 10, emplacement: Emplacement::Tous },
    };
    assert!(soin.est_soin());
    assert!(!soin.est_arme());
    assert!(!soin.est_equipement());
}

#[test]
fn test_emplacements() {
    let equip = Objet {
        id: 2,
        nom: "Casque".to_string(),
        poids: 1,
        prix: 50,
        objet_type: TypeObjet::Equipement { protection: 5, emplacement: Emplacement::Tete },
    };
    assert_eq!(equip.emplacement(), Some(Emplacement::Tete));
    assert!(equip.est_pour_emplacement(Emplacement::Tete));
    assert!(!equip.est_pour_emplacement(Emplacement::Bras));
    let partout = Objet {
        id: 3,
        nom: "Baume".to_string(),
        poids: 1,
        prix: 20,
        objet_type: TypeObjet::Soin { vie: 10, emplacement: Emplacement::Tous },
    };
    assert!(partout.est_pour_emplacement(Emplacement::Jambe));
    let nulle_part = Objet {
        id: 4,
        nom: "Plastron casse".to_string(),
        poids: 1,
        prix: 1,
        objet_type: TypeObjet::Equipement { protection: 1, emplacement: Emplacement::Aucun },
    };
    assert!(!nulle_part.est_equipement());
    assert!(!nulle_part.est_pour_emplacement(Emplacement::Torse));
}

#[test]
fn test_emplacement_depuis_nom() {
    assert_eq!(emplacement_depuis_nom("Bras"), Ok(Emplacement::Bras));
    assert_eq!(emplacement_depuis_nom("Jambe"), Ok(Emplacement::Jambe));
    assert_eq!(emplacement_depuis_nom("Tete"), Ok(Emplacement::Tete));
    assert_eq!(emplacement_depuis_nom("Torse"), Ok(Emplacement::Torse));
    assert_eq!(emplacement_depuis_nom("Tous"), Ok(Emplacement::Tous));
    assert_eq!(emplacement_depuis_nom("Aucun"), Ok(Emplacement::Aucun));
    assert_eq!(emplacement_depuis_nom("Chapeau"), Err("Chapeau".to_string()));
}

#[test]
fn test_catalogue_ajout_et_consultation() {
    let mut catalogue = Catalogue::new();
    assert!(catalogue.trouver(1).is_none());
    ajouter_objet(
        &mut catalogue,
        1,
        "Épée".to_string(),
        2,
        100,
        TypeObjet::Arme { degats: 10, proba_degats: 100, frequence_degats: 1 },
    );
    ajouter_objet(
        &mut catalogue,
        2,
        "Casque".to_string(),
        1,
        50,
        TypeObjet::Equipement { protection: 5, emplacement: Emplacement::Tete },
    );
    let epee = catalogue.trouver(1).expect("objet 1 absent");
    assert_eq!(epee.nom, "Épée");
    assert_eq!(epee.prix, 100);
    // Reinscrire le meme identifiant remplace l'entree.
    ajouter_objet(
        &mut catalogue,
        1,
        "Épée affutee".to_string(),
        2,
        150,
        TypeObjet::Arme { degats: 12, proba_degats: 100, frequence_degats: 1 },
    );
    let epee = catalogue.trouver(1).expect("objet 1 absent");
    assert_eq!(epee.nom, "Épée affutee");
    assert_eq!(catalogue.objets.len(), 2);
    assert!(catalogue.trouver(9).is_none());
}
