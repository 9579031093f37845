//! Noyau de combat d'un jeu de role en tour par tour : parties du corps avec
//! points de vie et etats de blessure, personnages, resolution de combat et
//! recuperation apres combat, ainsi que les structures de donnees du monde
//! (inventaires, objets, coffres, zones).

pub mod affichage;
pub mod chaine;
pub mod coffre;
pub mod combat;
pub mod inventaire;
pub mod monde;
pub mod objet;
pub mod personnage;
pub mod zone;
pub mod hasard;
pub mod horloge;
