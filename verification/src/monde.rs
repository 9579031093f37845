//! Monde exterieur : zones de terrain, obstacles et ennemis errants, avec le
//! calcul du temps de deplacement.

use vstd::prelude::*;

use crate::objet::Objet;

verus! {

/// Une zone de terrain : ses obstacles, ses ennemis, ses objets et les zones
/// qu'elle dessert.
#[derive(Debug)]
pub struct Zone {
    pub id: u8,
    pub nom: String,
    pub description: String,
    pub obstacles: Vec<Obstacle>,
    pub ennemis: Vec<Ennemi>,
    pub objets: Vec<Objet>,
    /// Zones accessibles depuis celle-ci.
    pub liaisons: Vec<Zone>,
}

/// Un obstacle a franchir dans une zone.
#[derive(Debug, Clone)]
pub struct Obstacle {
    pub nom: String,
    pub description: String,
    /// Difficulte pour le franchir.
    pub difficulte: u8,
}

/// Le comportement d'un ennemi errant.
#[derive(Debug, Clone, Copy, PartialEq, Eq, Structural)]
pub enum Comportement {
    Pacifique,
    Hostile,
    /// Peut fuir ou se defendre s'il est blesse.
    Fuite,
}

/// Un ennemi errant d'une zone de terrain.
#[derive(Debug, Clone)]
pub struct Ennemi {
    pub nom: String,
    pub points_de_vie: u16,
    pub attaque: u8,
    pub comportement: Comportement,
}

impl Ennemi {
    /// Change le comportement de l'ennemi.
    pub fn changer_comportement(&mut self, comportement: Comportement)
        ensures
            final(self).comportement == comportement,
            final(self).nom == old(self).nom,
            final(self).points_de_vie == old(self).points_de_vie,
            final(self).attaque == old(self).attaque,
    {
        self.comportement = comportement;
    }
}

/// Temps de deplacement sur une distance : dix unites de temps par unite de
/// distance, plus une penalite d'autant que l'agilite manque a cent.
pub fn temps_deplacement(distance: u16, agilite: u8) -> (r: u16)
    requires
        agilite <= 100,
        10 * distance + 100 <= u16::MAX,
    ensures
        r == 10 * distance + (100 - agilite),
{
    let temps_base = distance * 10;
    let penalite_agilite = (100 - agilite) as u16;
    temps_base + penalite_agilite
}

} // verus!
