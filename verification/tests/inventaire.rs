use rustrpg::inventaire::{Inventaire, ObjetInventaire};

#[test]
fn test_ajouter_et_recuperer_objet() {
    let mut inv = Inventaire { taille: 5, objets: vec![] };
    inv.ajouter_objet(1);
    assert_eq!(inv.objets.len(), 1);
    assert_eq!(inv.objets[0].nombre, 1);
    inv.ajouter_objet(1);
    assert_eq!(inv.objets[0].nombre, 2);
    let id = inv.recuperer_objet(0);
    assert_eq!(id, 1);
    assert_eq!(inv.objets[0].nombre, 1);
}

#[test]
fn test_trier_quantite() {
    let mut inv = Inventaire {
        taille: 5,
        objets: vec![
            ObjetInventaire { nombre: 1, objet_id: 2 },
            ObjetInventaire { nombre: 3, objet_id: 1 },
        ],
    };
    inv.trier_quantite();
    assert_eq!(inv.objets[0].objet_id, 1);
    assert_eq!(inv.objets[0].nombre, 3);
}

#[test]
fn test_recuperer_objet_2_rend_l_entree() {
    let mut inv = Inventaire {
        taille: 5,
        objets: vec![ObjetInventaire { nombre: 2, objet_id: 7 }],
    };
    let entree = inv.recuperer_objet_2(0);
    assert_eq!(entree.objet_id, 7);
    assert_eq!(entree.nombre, 2);
    assert_eq!(inv.objets.len(), 1);
    assert_eq!(inv.objets[0].nombre, 1);
    let entree2 = inv.recuperer_objet_2(0);
    assert_eq!(entree2.nombre, 1);
    assert!(inv.objets.is_empty());
}

#[test]
fn test_retirer_par_id() {
    let mut inv = Inventaire {
        taille: 5,
        objets: vec![
            ObjetInventaire { nombre: 1, objet_id: 3 },
            ObjetInventaire { nombre: 2, objet_id: 4 },
        ],
    };
    assert!(inv.retirer_par_id(3));
    assert_eq!(inv.objets.len(), 1);
    assert_eq!(inv.objets[0].objet_id, 4);
    assert!(!inv.retirer_par_id(9));
    assert_eq!(inv.objets.len(), 1);
}

#[test]
fn test_tri_sur_inventaire_vide() {
    let mut inv = Inventaire { taille: 5, objets: vec![] };
    inv.trier_quantite();
    assert!(inv.objets.is_empty());
}
