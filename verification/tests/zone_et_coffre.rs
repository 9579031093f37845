use rustrpg::affichage::{ajouter_notification, ListeNotifications};
use rustrpg::coffre::Coffre;
use rustrpg::inventaire::{Inventaire, ObjetInventaire};
use rustrpg::monde::{temps_deplacement, Comportement, Ennemi};
use rustrpg::zone::Zone;

fn coffre(id: u8, ouvert: bool, visible: bool) -> Coffre {
    Coffre {
        _id: id,
        _id_zone: 1,
        ouvert,
        _description: format!("C{}", id),
        inventaire: Inventaire { taille: 1, objets: vec![] },
        visible,
    }
}

#[test]
fn test_coffre_creation() {
    let coffre = Coffre {
        _id: 1,
        _id_zone: 1,
        ouvert: false,
        _description: "Un coffre".to_string(),
        inventaire: Inventaire { taille: 1, objets: vec![] },
        visible: true,
    };
    assert_eq!(coffre._id, 1);
    assert!(!coffre.ouvert);
}

#[test]
fn test_compter_coffre() {
    let coffres = vec![coffre(1, true, true), coffre(2, true, false)];
    let zone = Zone {
        id: 1,
        nom: "TestZone".to_string(),
        ouvert: true,
        description: "desc".to_string(),
        connection: vec![],
        coffres,
        objet_zone: Inventaire { taille: 1, objets: vec![] },
        mob_present: false,
        prix: 0,
    };
    assert_eq!(zone.compter_coffre(), 1);
}

#[test]
fn test_fouiller_et_supprimer() {
    let mut zone = Zone {
        id: 1,
        nom: "TestZone".to_string(),
        ouvert: true,
        description: "desc".to_string(),
        connection: vec![],
        coffres: vec![coffre(1, true, true), coffre(2, true, false), coffre(3, true, false)],
        objet_zone: Inventaire { taille: 1, objets: vec![] },
        mob_present: false,
        prix: 0,
    };
    let trouves = zone.fouiller_zone();
    assert_eq!(trouves, 2);
    assert_eq!(zone.compter_coffre(), 3);
    zone.supprimer_coffre(1);
    assert_eq!(zone.coffres.len(), 2);
    assert_eq!(zone.coffres[1]._id, 3);
}

#[test]
fn test_ouvrir_coffre_avec_cle() {
    // Sans cle, le coffre reste ferme; avec la cle (objet 12), il s'ouvre et
    // la cle est consommee; un coffre deja ouvert ne consomme rien.
    let mut c = coffre(1, false, true);
    let mut inventaire = Inventaire { taille: 5, objets: vec![] };
    assert!(!c.ouvrir_avec_cle(&mut inventaire));
    assert!(!c.ouvert);
    inventaire.objets.push(ObjetInventaire { nombre: 1, objet_id: 12 });
    assert!(c.ouvrir_avec_cle(&mut inventaire));
    assert!(c.ouvert);
    assert!(inventaire.objets.is_empty());
    assert!(c.ouvrir_avec_cle(&mut inventaire));
}

#[test]
fn test_notifications_plafonnees() {
    let mut liste = ListeNotifications { notifications: vec![] };
    for i in 0..7 {
        ajouter_notification(&mut liste, &format!("message {}", i));
    }
    assert_eq!(liste.notifications.len(), 5);
    assert_eq!(liste.notifications[0], "message 2");
    assert_eq!(liste.notifications[4], "message 6");
}

#[test]
fn test_ennemi_et_temps_deplacement() {
    let mut ennemi = Ennemi {
        nom: "Loup".to_string(),
        points_de_vie: 30,
        attaque: 5,
        comportement: Comportement::Pacifique,
    };
    ennemi.changer_comportement(Comportement::Hostile);
    assert_eq!(ennemi.comportement, Comportement::Hostile);
    assert_eq!(temps_deplacement(10, 70), 130);
    assert_eq!(temps_deplacement(0, 100), 0);
}
