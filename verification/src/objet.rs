//! Objets du jeu et catalogue : armes, equipements de protection et soins,
//! consultes en lecture seule par le combat.
//!
//! Le catalogue est une valeur passee explicitement aux fonctions qui le
//! lisent. La probabilite de toucher d'une arme est un entier pour cent.

use vstd::prelude::*;

use crate::chaine::chaines_egales;

verus! {

/// Emplacements du corps ou un equipement ou un soin peut s'appliquer.
#[derive(Debug, Clone, Copy, PartialEq, Eq, Structural)]
pub enum Emplacement {
    Bras,
    Jambe,
    Tete,
    Torse,
    Tous,
    Aucun,
}

/// Nature d'un objet : arme, equipement de protection, ou soin.
#[derive(Debug, Clone, Copy, PartialEq, Eq, Structural)]
pub enum TypeObjet {
    /// Arme : degats infliges, probabilite de toucher pour cent, frequence
    /// des degats.
    Arme { degats: u32, proba_degats: u8, frequence_degats: u8 },
    /// Equipement : protection apportee et emplacement du corps.
    Equipement { protection: u8, emplacement: Emplacement },
    /// Soin : points de vie rendus et emplacement du corps.
    Soin { vie: u32, emplacement: Emplacement },
}

/// Un objet du catalogue, avec ses caracteristiques generales.
#[derive(Debug, Clone)]
pub struct Objet {
    pub id: u8,
    pub nom: String,
    pub poids: u32,
    pub prix: u32,
    pub objet_type: TypeObjet,
}

/// Le catalogue des objets disponibles, consulte par identifiant.
#[derive(Debug, Clone)]
pub struct Catalogue {
    /// Les objets connus, a identifiants deux a deux distincts quand le
    /// catalogue n'est construit que par `ajouter_objet`.
    pub objets: Vec<Objet>,
}

/// L'entree du catalogue pour `id` : la premiere de la liste qui le porte.
pub open spec fn entree_catalogue(s: Seq<Objet>, id: u8) -> Option<Objet>
    decreases s.len(),
{
    if s.len() == 0 {
        Option::None
    } else if s[0].id == id {
        Option::Some(s[0])
    } else {
        entree_catalogue(s.drop_first(), id)
    }
}

impl Catalogue {
    /// Cree un catalogue vide.
    pub fn new() -> (r: Catalogue)
        ensures
            r.objets@.len() == 0,
            forall|id: u8| entree_catalogue(r.objets@, id) is None,
    {
        Catalogue { objets: Vec::new() }
    }

    /// Consulte le catalogue : l'objet enregistre sous `id`, s'il existe.
    pub fn trouver(&self, id: u8) -> (r: Option<&Objet>)
        ensures
            match r {
                Option::Some(o) => entree_catalogue(self.objets@, id) == Option::Some(*o),
                Option::None => entree_catalogue(self.objets@, id) is None,
            },
    {
        let n = self.objets.len();
        let mut i: usize = 0;
        proof {
            assert(self.objets@.skip(0) =~= self.objets@);
        }
        while i < n
            invariant
                n == self.objets@.len(),
                0 <= i <= n,
                entree_catalogue(self.objets@, id) == entree_catalogue(
                    self.objets@.skip(i as int),
                    id,
                ),
                forall|k: int| 0 <= k < i ==> (#[trigger] self.objets@[k]).id != id,
            decreases n - i,
        {
            proof {
                assert(self.objets@.skip(i as int)[0] == self.objets@[i as int]);
                assert(self.objets@.skip(i as int).drop_first() =~= self.objets@.skip(i + 1));
            }
            if self.objets[i].id == id {
                return Some(&self.objets[i]);
            }
            i = i + 1;
        }
        proof {
            assert(self.objets@.skip(n as int) =~= Seq::<Objet>::empty());
        }
        None
    }
}

/// Enregistre un objet dans le catalogue : l'entree existante sous `id` est
/// remplacee, sinon l'objet est ajoute.
pub fn ajouter_objet(catalogue: &mut Catalogue, id: u8, nom: String, poids: u32, prix: u32, objet_type: TypeObjet)
    ensures
        entree_catalogue(final(catalogue).objets@, id) == Option::Some(
            Objet { id, nom, poids, prix, objet_type },
        ),
        forall|autre: u8|
            autre != id ==> #[trigger] entree_catalogue(final(catalogue).objets@, autre)
                == entree_catalogue(old(catalogue).objets@, autre),
{
    let objet = Objet { id, nom, poids, prix, objet_type };
    let n = catalogue.objets.len();
    let mut i: usize = 0;
    while i < n
        invariant
            n == catalogue.objets@.len(),
            catalogue.objets@ == old(catalogue).objets@,
            0 <= i <= n,
            forall|k: int| 0 <= k < i ==> (#[trigger] catalogue.objets@[k]).id != id,
            objet == (Objet { id, nom, poids, prix, objet_type }),
        decreases n - i,
    {
        if catalogue.objets[i].id == id {
            catalogue.objets[i] = objet;
            proof {
                lemma_entree_apres_mise_a_jour(
                    old(catalogue).objets@,
                    catalogue.objets@,
                    i as int,
                    Objet { id, nom, poids, prix, objet_type },
                );
            }
            return ;
        }
        i = i + 1;
    }
    catalogue.objets.push(objet);
    proof {
        lemma_entree_apres_ajout(old(catalogue).objets@, Objet { id, nom, poids, prix, objet_type });
    }
}

/// Remplacer la premiere entree portant son identifiant laisse toutes les
/// consultations inchangees, sauf celle de cet identifiant.
proof fn lemma_entree_apres_mise_a_jour(avant: Seq<Objet>, apres: Seq<Objet>, j: int, objet: Objet)
    requires
        0 <= j < avant.len(),
        avant[j].id == objet.id,
        forall|k: int| 0 <= k < j ==> (#[trigger] avant[k]).id != objet.id,
        apres == avant.update(j, objet),
    ensures
        entree_catalogue(apres, objet.id) == Option::Some(objet),
        forall|autre: u8|
            autre != objet.id ==> #[trigger] entree_catalogue(apres, autre) == entree_catalogue(
                avant,
                autre,
            ),
    decreases avant.len(),
{
    if j == 0 {
        assert(apres[0] == objet);
        assert(apres.drop_first() =~= avant.drop_first());
        assert forall|autre: u8| autre != objet.id implies #[trigger] entree_catalogue(
            apres,
            autre,
        ) == entree_catalogue(avant, autre) by {
            assert(entree_catalogue(apres, autre) == entree_catalogue(apres.drop_first(), autre));
            assert(entree_catalogue(avant, autre) == entree_catalogue(avant.drop_first(), autre));
        }
    } else {
        assert(apres[0] == avant[0]);
        assert(apres.drop_first() =~= avant.drop_first().update(j - 1, objet));
        lemma_entree_apres_mise_a_jour(avant.drop_first(), apres.drop_first(), j - 1, objet);
        assert forall|autre: u8| autre != objet.id implies #[trigger] entree_catalogue(
            apres,
            autre,
        ) == entree_catalogue(avant, autre) by {
            assert(entree_catalogue(apres.drop_first(), autre) == entree_catalogue(
                avant.drop_first(),
                autre,
            ));
        }
    }
}

/// Ajouter en queue un objet dont l'identifiant est nouveau laisse toutes les
/// autres consultations inchangees.
proof fn lemma_entree_apres_ajout(avant: Seq<Objet>, objet: Objet)
    requires
        forall|k: int| 0 <= k < avant.len() ==> (#[trigger] avant[k]).id != objet.id,
    ensures
        entree_catalogue(avant.push(objet), objet.id) == Option::Some(objet),
        forall|autre: u8|
            autre != objet.id ==> #[trigger] entree_catalogue(avant.push(objet), autre)
                == entree_catalogue(avant, autre),
    decreases avant.len(),
{
    if avant.len() == 0 {
        assert(avant.push(objet)[0] == objet);
        assert(avant.push(objet).drop_first() =~= avant);
    } else {
        assert(avant.push(objet)[0] == avant[0]);
        assert(avant.push(objet).drop_first() =~= avant.drop_first().push(objet));
        lemma_entree_apres_ajout(avant.drop_first(), objet);
        assert forall|autre: u8| autre != objet.id implies #[trigger] entree_catalogue(
            avant.push(objet),
            autre,
        ) == entree_catalogue(avant, autre) by {
            assert(entree_catalogue(avant.drop_first().push(objet), autre) == entree_catalogue(
                avant.drop_first(),
                autre,
            ));
        }
    }
}

impl Objet {
    /// L'objet est un equipement portable : un equipement dont l'emplacement
    /// n'est pas `Aucun`.
    pub open spec fn est_equipement_spec(&self) -> bool {
        match self.objet_type {
            TypeObjet::Equipement { emplacement, .. } => !(emplacement is Aucun),
            _ => false,
        }
    }

    /// L'emplacement declare de l'objet, pour un equipement ou un soin.
    pub open spec fn emplacement_spec(&self) -> Option<Emplacement> {
        match self.objet_type {
            TypeObjet::Equipement { emplacement, .. } => Option::Some(emplacement),
            TypeObjet::Soin { emplacement, .. } => Option::Some(emplacement),
            _ => Option::None,
        }
    }

    /// L'objet est-il un equipement portable ?
    pub fn est_equipement(&self) -> (r: bool)
        ensures
            r == self.est_equipement_spec(),
    {
        match &self.objet_type {
            TypeObjet::Equipement { emplacement, .. } => !matches!(emplacement, Emplacement::Aucun),
            _ => false,
        }
    }

    /// L'objet est-il une arme ?
    pub fn est_arme(&self) -> (r: bool)
        ensures
            r == (self.objet_type is Arme),
    {
        matches!(self.objet_type, TypeObjet::Arme { .. })
    }

    /// L'objet est-il un soin ?
    pub fn est_soin(&self) -> (r: bool)
        ensures
            r == (self.objet_type is Soin),
    {
        matches!(self.objet_type, TypeObjet::Soin { .. })
    }

    /// L'emplacement de l'objet, pour un equipement ou un soin.
    pub fn emplacement(&self) -> (r: Option<Emplacement>)
        ensures
            r == self.emplacement_spec(),
    {
        match &self.objet_type {
            TypeObjet::Equipement { emplacement, .. } => Some(*emplacement),
            TypeObjet::Soin { emplacement, .. } => Some(*emplacement),
            _ => None,
        }
    }

    /// L'objet peut-il se porter ou s'appliquer a l'emplacement `cible` ?
    /// Vrai quand son emplacement est `Tous` ou egale la cible, jamais pour
    /// `Aucun`.
    pub fn est_pour_emplacement(&self, cible: Emplacement) -> (r: bool)
        ensures
            r == match self.emplacement_spec() {
                Option::Some(e) => !(e is Aucun) && (e == cible || e is Tous),
                Option::None => false,
            },
    {
        match self.emplacement() {
            Some(Emplacement::Aucun) => false,
            Some(e) => e == cible || matches!(e, Emplacement::Tous),
            None => false,
        }
    }
}

/// Convertit un nom d'emplacement en emplacement; une chaine inconnue est une
/// erreur portant le nom refuse.
pub fn emplacement_depuis_nom(s: &str) -> (r: Result<Emplacement, String>)
    ensures
        s@ == "Bras"@ ==> r == Result::<Emplacement, String>::Ok(Emplacement::Bras),
        s@ == "Jambe"@ ==> r == Result::<Emplacement, String>::Ok(Emplacement::Jambe),
        s@ == "Tete"@ ==> r == Result::<Emplacement, String>::Ok(Emplacement::Tete),
        s@ == "Torse"@ ==> r == Result::<Emplacement, String>::Ok(Emplacement::Torse),
        s@ == "Tous"@ ==> r == Result::<Emplacement, String>::Ok(Emplacement::Tous),
        s@ == "Aucun"@ ==> r == Result::<Emplacement, String>::Ok(Emplacement::Aucun),
        !(s@ == "Bras"@ || s@ == "Jambe"@ || s@ == "Tete"@ || s@ == "Torse"@ || s@ == "Tous"@ || s@
            == "Aucun"@) ==> (r matches Result::Err(e) && e@ == s@),
    {
    proof {
        reveal_strlit("Bras");
        reveal_strlit("Jambe");
        reveal_strlit("Tete");
        reveal_strlit("Torse");
        reveal_strlit("Tous");
        reveal_strlit("Aucun");
        assert("Bras"@.len() == 4 && "Jambe"@.len() == 5 && "Tete"@.len() == 4);
        assert("Torse"@.len() == 5 && "Tous"@.len() == 4 && "Aucun"@.len() == 5);
        assert("Bras"@[0] == 'B' && "Bras"@[1] == 'r');
        assert("Jambe"@[0] == 'J' && "Jambe"@[1] == 'a');
        assert("Tete"@[0] == 'T' && "Tete"@[1] == 'e');
        assert("Torse"@[0] == 'T' && "Torse"@[1] == 'o');
        assert("Tous"@[0] == 'T' && "Tous"@[1] == 'o');
        assert("Aucun"@[0] == 'A' && "Aucun"@[1] == 'u');
    }
    if chaines_egales(s, "Bras") {
        Ok(Emplacement::Bras)
    } else if chaines_egales(s, "Jambe") {
        Ok(Emplacement::Jambe)
    } else if chaines_egales(s, "Tete") {
        Ok(Emplacement::Tete)
    } else if chaines_egales(s, "Torse") {
        Ok(Emplacement::Torse)
    } else if chaines_egales(s, "Tous") {
        Ok(Emplacement::Tous)
    } else if chaines_egales(s, "Aucun") {
        Ok(Emplacement::Aucun)
    } else {
        Err(s.to_owned())
    }
}

} // verus!
