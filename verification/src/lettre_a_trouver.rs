//! Une lettre du mot à trouver.
//!
//! Seules les majuscules entre `A` et `Z` sont à deviner ; tout autre
//! caractère (espace, tiret, chiffre) est considéré trouvé dès la
//! construction et s'affiche immédiatement.

use vstd::prelude::*;

verus! {

/// Une case du mot : son caractère (code ASCII, déjà en majuscule) et le
/// drapeau « trouvée ». Le caractère ne change jamais après la construction ;
/// le drapeau ne passe que de faux à vrai.
#[derive(Clone, Copy, PartialEq, Eq, Debug, Structural)]
pub struct LettreATrouver {
    pub letter: u8,
    pub found: bool,
}

impl LettreATrouver {
    /// La case construite depuis un caractère brut : hors de `A`–`Z`, elle
    /// est considérée trouvée d'emblée.
    pub open spec fn depuis(c: u8) -> LettreATrouver {
        LettreATrouver { letter: c, found: c < 65 || c > 90 }
    }

    /// Le caractère que la case montre au joueur : la lettre si elle est
    /// trouvée, sinon le tiret bas `_`.
    pub open spec fn affiche(self) -> u8 {
        if self.found {
            self.letter
        } else {
            95
        }
    }

    /// La case est-elle déjà révélée ?
    pub fn is_found(&self) -> (r: bool)
        ensures
            r == self.found,
    {
        self.found
    }

    /// Révèle la case ; révéler une case déjà trouvée ne change rien.
    pub fn set_found(&mut self)
        ensures
            *final(self) == (LettreATrouver { letter: old(self).letter, found: true }),
    {
        self.found = true
    }

    /// Force l'affichage de la case, lettre devinée ou non : employé à la
    /// défaite pour montrer le mot entier.
    pub fn set_force_display(&mut self)
        ensures
            *final(self) == (LettreATrouver { letter: old(self).letter, found: true }),
    {
        self.set_found()
    }

    /// La case correspond-elle au caractère proposé ? Le drapeau « trouvée »
    /// n'entre pas en compte.
    pub fn correspond(&self, c: u8) -> (r: bool)
        ensures
            r == (self.letter == c),
    {
        self.letter == c
    }

    /// Forme exécutable de [`Self::affiche`] : le caractère montré au joueur.
    pub fn caractere(&self) -> (r: u8)
        ensures
            r == self.affiche(),
    {
        if self.found {
            self.letter
        } else {
            95
        }
    }
}

impl From<u8> for LettreATrouver {
    fn from(c: u8) -> (r: LettreATrouver) {
        LettreATrouver { letter: c, found: c < 65 || c > 90 }
    }
}

impl vstd::std_specs::convert::FromSpecImpl<u8> for LettreATrouver {
    open spec fn obeys_from_spec() -> bool {
        true
    }

    open spec fn from_spec(c: u8) -> Self {
        LettreATrouver::depuis(c)
    }
}

} // verus!
