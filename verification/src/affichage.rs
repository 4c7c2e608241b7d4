//! L'affichage : une fonction pure de l'état de la partie vers une suite
//! d'écritures positionnées. Aucune mutation, aucune écriture réelle : le
//! pilote du terminal exécute les écritures telles quelles, et un même état
//! redonne exactement la même suite.

use vstd::prelude::*;

use crate::jeu::Jeu;

verus! {

/// Un texte à poser sur l'écran.
#[derive(Clone, Copy, PartialEq, Eq, Debug)]
pub enum Texte {
    /// Un libellé fixe : titre, bannières, invites, ou une ligne du dessin
    /// de la potence.
    Libelle(&'static str),
    /// Le caractère d'une case du mot, tel que le joueur doit le voir.
    Case(u8),
}

/// Une écriture positionnée : la ligne, la colonne, le passage en gras, et
/// le texte à poser là.
#[derive(Clone, Copy, PartialEq, Eq, Debug)]
pub struct Placement {
    pub ligne: usize,
    pub colonne: usize,
    pub gras: bool,
    pub texte: Texte,
}

/// Le titre du jeu.
pub open spec fn texte_titre() -> Seq<char> {
    "LE PENDU"@
}

/// La bannière de victoire.
pub open spec fn texte_gagne() -> Seq<char> {
    "GAGNE !!"@
}

/// La bannière de défaite.
pub open spec fn texte_perdu() -> Seq<char> {
    "PERDU :("@
}

/// L'invite tant que la partie court.
pub open spec fn texte_invite() -> Seq<char> {
    "Choisi une lettre: "@
}

/// L'invite de relance, une fois la partie close.
pub open spec fn texte_recommencer() -> Seq<char> {
    " Appuie sur R pour recommencer"@
}

/// La colonne qui centre un texte de la longueur donnée dans la largeur
/// donnée ; un texte plus large que l'écran part de la colonne zéro.
pub open spec fn centre_de(largeur: int, longueur: int) -> int {
    if longueur >= largeur {
        0
    } else {
        (largeur - longueur) / 2
    }
}

/// La colonne où le dessin de la potence est ancré : huit colonnes à gauche
/// du milieu de l'écran, jamais avant la colonne zéro.
pub open spec fn colonne_potence(largeur: int) -> int {
    if largeur / 2 >= 8 {
        largeur / 2 - 8
    } else {
        0
    }
}

/// Le placement est-il ce libellé, centré à cette ligne ?
pub open spec fn libelle_centre(
    p: Placement,
    ligne: int,
    largeur: int,
    gras: bool,
    t: Seq<char>,
) -> bool {
    &&& p.ligne == ligne
    &&& p.colonne == centre_de(largeur, t.len() as int)
    &&& p.gras == gras
    &&& p.texte matches Texte::Libelle(s) && s@ == t
}

/// Forme exécutable de [`centre_de`].
pub fn centre(largeur: usize, longueur: usize) -> (r: usize)
    ensures
        r == centre_de(largeur as int, longueur as int),
{
    if longueur >= largeur {
        0
    } else {
        (largeur - longueur) / 2
    }
}

/// L'affichage complet d'une partie, dans l'ordre d'écriture : le titre
/// centré ; une case du mot par colonne paire depuis un départ centré ; le
/// dessin de la potence ancré sous le mot ; puis, partie close, la bannière
/// en gras et l'invite de relance sous le dessin, ou, partie en cours,
/// l'invite de proposition.
#[verifier::loop_isolation(false)]
pub fn rendu(jeu: &Jeu, largeur: usize) -> (r: Vec<Placement>)
    requires
        2 * jeu@.lettres.len() <= usize::MAX,
    ensures
        r@.len() == 1 + jeu@.lettres.len() + jeu@.potence.nb_lignes() + (if jeu@.fini() {
            2int
        } else {
            1int
        }),
        libelle_centre(r@[0], 2, largeur as int, false, texte_titre()),
        forall|i: int|
            0 <= i < jeu@.lettres.len() ==> {
                let p = #[trigger] r@[1 + i];
                &&& p.ligne == 4
                &&& p.colonne == centre_de(largeur as int, 2 * jeu@.lettres.len() as int) + 2 * i
                &&& p.gras == false
                &&& p.texte == Texte::Case(jeu@.lettres[i].affiche())
            },
        forall|k: int|
            0 <= k < jeu@.potence.nb_lignes() ==> {
                let p = #[trigger] r@[1 + jeu@.lettres.len() + k];
                &&& p.ligne == 8 + k
                &&& p.colonne == colonne_potence(largeur as int)
                &&& p.gras == false
                &&& p.texte matches Texte::Libelle(s) && s@ == jeu@.potence.dessin()[k]
            },
        jeu@.fini() ==> libelle_centre(
            r@[1 + jeu@.lettres.len() + jeu@.potence.nb_lignes()],
            6,
            largeur as int,
            true,
            if jeu@.perdu() {
                texte_perdu()
            } else {
                texte_gagne()
            },
        ) && libelle_centre(
            r@[2 + jeu@.lettres.len() + jeu@.potence.nb_lignes()],
            8 + jeu@.potence.nb_lignes(),
            largeur as int,
            false,
            texte_recommencer(),
        ),
        !jeu@.fini() ==> libelle_centre(
            r@[1 + jeu@.lettres.len() + jeu@.potence.nb_lignes()],
            6,
            largeur as int,
            false,
            texte_invite(),
        ),
{
    let mut r: Vec<Placement> = Vec::new();

    proof {
        reveal_strlit("LE PENDU");
    }
    r.push(
        Placement {
            ligne: 2,
            colonne: centre(largeur, 8),
            gras: false,
            texte: Texte::Libelle("LE PENDU"),
        },
    );

    let n = jeu.a_trouver.len();
    let depart = centre(largeur, 2 * n);
    let mut i: usize = 0;
    while i < n
        invariant
            i <= n,
            r@.len() == 1 + i,
            libelle_centre(r@[0], 2, largeur as int, false, texte_titre()),
            forall|j: int|
                0 <= j < i ==> {
                    let p = #[trigger] r@[1 + j];
                    &&& p.ligne == 4
                    &&& p.colonne == depart + 2 * j
                    &&& p.gras == false
                    &&& p.texte == Texte::Case(jeu@.lettres[j].affiche())
                },
        decreases n - i,
    {
        r.push(
            Placement {
                ligne: 4,
                colonne: depart + 2 * i,
                gras: false,
                texte: Texte::Case(jeu.a_trouver[i].caractere()),
            },
        );
        i = i + 1;
    }

    let dessin = jeu.potence.as_strs();
    let col_potence = if largeur / 2 >= 8 {
        largeur / 2 - 8
    } else {
        0
    };
    let g = dessin.len();
    let mut k: usize = 0;
    while k < g
        invariant
            k <= g,
            r@.len() == 1 + n + k,
            libelle_centre(r@[0], 2, largeur as int, false, texte_titre()),
            forall|j: int|
                0 <= j < n ==> {
                    let p = #[trigger] r@[1 + j];
                    &&& p.ligne == 4
                    &&& p.colonne == depart + 2 * j
                    &&& p.gras == false
                    &&& p.texte == Texte::Case(jeu@.lettres[j].affiche())
                },
            forall|j: int|
                0 <= j < k ==> {
                    let p = #[trigger] r@[1 + n + j];
                    &&& p.ligne == 8 + j
                    &&& p.colonne == colonne_potence(largeur as int)
                    &&& p.gras == false
                    &&& p.texte matches Texte::Libelle(s) && s@ == jeu@.potence.dessin()[j]
                },
        decreases g - k,
    {
        r.push(
            Placement {
                ligne: 8 + k,
                colonne: col_potence,
                gras: false,
                texte: Texte::Libelle(dessin[k]),
            },
        );
        k = k + 1;
    }

    if jeu.fini() {
        let bandeau = if jeu.perdu() {
            "PERDU :("
        } else {
            "GAGNE !!"
        };
        proof {
            reveal_strlit("PERDU :(");
            reveal_strlit("GAGNE !!");
            reveal_strlit(" Appuie sur R pour recommencer");
        }
        r.push(
            Placement {
                ligne: 6,
                colonne: centre(largeur, 8),
                gras: true,
                texte: Texte::Libelle(bandeau),
            },
        );
        r.push(
            Placement {
                ligne: 8 + g,
                colonne: centre(largeur, 30),
                gras: false,
                texte: Texte::Libelle(" Appuie sur R pour recommencer"),
            },
        );
    } else {
        proof {
            reveal_strlit("Choisi une lettre: ");
        }
        r.push(
            Placement {
                ligne: 6,
                colonne: centre(largeur, 19),
                gras: false,
                texte: Texte::Libelle("Choisi une lettre: "),
            },
        );
    }
    r
}

} // verus!
