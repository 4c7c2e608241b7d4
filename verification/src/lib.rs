//! Un pendu en bibliothèque vérifiée : la potence qui avance d'un cran par
//! erreur, les lettres du mot à révéler, la partie qui applique chaque lettre
//! proposée, et le calcul pur de l'affichage.

pub mod affichage;
pub mod jeu;
pub mod lettre_a_trouver;
pub mod potence;
