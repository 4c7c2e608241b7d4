//! La potence : une suite fixe d'étapes, du sol nu jusqu'au pendu.

use vstd::prelude::*;

verus! {

/// Le niveau d'avancement de la potence ; `Perdu` est l'étape terminale.
#[derive(Clone, Copy, PartialEq, Eq, Debug, Structural)]
pub enum Potence {
    Debut,
    Etape1,
    Etape2,
    Etape3,
    Etape4,
    Etape5,
    Etape6,
    Etape7,
    Etape8,
    Perdu,
}

impl Potence {
    /// Rang de l'étape dans l'ordre fixe : 0 pour `Debut`, 9 pour `Perdu`.
    pub open spec fn niveau(self) -> int {
        match self {
            Potence::Debut => 0,
            Potence::Etape1 => 1,
            Potence::Etape2 => 2,
            Potence::Etape3 => 3,
            Potence::Etape4 => 4,
            Potence::Etape5 => 5,
            Potence::Etape6 => 6,
            Potence::Etape7 => 7,
            Potence::Etape8 => 8,
            Potence::Perdu => 9,
        }
    }

    /// L'étape qui suit ; `Perdu` n'a pas de successeur et reste `Perdu`.
    pub open spec fn suivant(self) -> Potence {
        match self {
            Potence::Debut => Potence::Etape1,
            Potence::Etape1 => Potence::Etape2,
            Potence::Etape2 => Potence::Etape3,
            Potence::Etape3 => Potence::Etape4,
            Potence::Etape4 => Potence::Etape5,
            Potence::Etape5 => Potence::Etape6,
            Potence::Etape6 => Potence::Etape7,
            Potence::Etape7 => Potence::Etape8,
            Potence::Etape8 => Potence::Perdu,
            Potence::Perdu => Potence::Perdu,
        }
    }

    /// Nombre de lignes du dessin de cette étape : `Debut` ne dessine rien,
    /// toute autre étape occupe dix lignes.
    pub open spec fn nb_lignes(self) -> int {
        if self == Potence::Debut {
            0
        } else {
            10
        }
    }

    /// Le dessin de chaque étape, caractère par caractère : la référence
    /// que [`Self::as_strs`] restitue ligne à ligne.
    pub open spec fn dessin(self) -> Seq<Seq<char>> {
        match self {
            Potence::Debut => seq![],
            Potence::Etape1 => seq![
                "            \n"@,
                "            \n"@,
                "            \n"@,
                "            \n"@,
                "            \n"@,
                "            \n"@,
                "            \n"@,
                "            \n"@,
                "            \n"@,
                "============\n"@,
            ],
            Potence::Etape2 => seq![
                "            \n"@,
                "    ||      \n"@,
                "    ||      \n"@,
                "    ||      \n"@,
                "    ||      \n"@,
                "    ||      \n"@,
                "    ||      \n"@,
                "    ||      \n"@,
                "    ||      \n"@,
                "============\n"@,
            ],
            Potence::Etape3 => seq![
                "    ,=====Y=\n"@,
                "    ||      \n"@,
                "    ||      \n"@,
                "    ||      \n"@,
                "    ||      \n"@,
                "    ||      \n"@,
                "    ||      \n"@,
                "    ||      \n"@,
                "    ||      \n"@,
                "============\n"@,
            ],
            Potence::Etape4 => seq![
                "    ,=====Y=\n"@,
                "    ||   /  \n"@,
                "    ||  /   \n"@,
                "    || /    \n"@,
                "    ||/     \n"@,
                "    ||      \n"@,
                "    ||      \n"@,
                "   /||      \n"@,
                "  //||      \n"@,
                "============\n"@,
            ],
            Potence::Etape5 => seq![
                "    ,=====Y=\n"@,
                "    ||   /| \n"@,
                "    ||  / | \n"@,
                "    || /  | \n"@,
                "    ||/     \n"@,
                "    ||      \n"@,
                "    ||      \n"@,
                "   /||      \n"@,
                "  //||      \n"@,
                "============\n"@,
            ],
            Potence::Etape6 => seq![
                "    ,=====Y=\n"@,
                "    ||   /| \n"@,
                "    ||  / | \n"@,
                "    || /  | \n"@,
                "    ||/   o \n"@,
                "    ||      \n"@,
                "    ||      \n"@,
                "   /||      \n"@,
                "  //||      \n"@,
                "============\n"@,
            ],
            Potence::Etape7 => seq![
                "    ,=====Y=\n"@,
                "    ||   /| \n"@,
                "    ||  / | \n"@,
                "    || /  | \n"@,
                "    ||/   o \n"@,
                "    ||    | \n"@,
                "    ||      \n"@,
                "   /||      \n"@,
                "  //||      \n"@,
                "============\n"@,
            ],
            Potence::Etape8 => seq![
                "    ,=====Y=\n"@,
                "    ||   /| \n"@,
                "    ||  / | \n"@,
                "    || /  | \n"@,
                "    ||/   o \n"@,
                "    ||   /|\\\n"@,
                "    ||      \n"@,
                "   /||      \n"@,
                "  //||      \n"@,
                "============\n"@,
            ],
            Potence::Perdu => seq![
                "    ,=====Y=\n"@,
                "    ||   /| \n"@,
                "    ||  / | \n"@,
                "    || /  | \n"@,
                "    ||/   o \n"@,
                "    ||   /|\\\n"@,
                "    ||   / \\\n"@,
                "   /||      \n"@,
                "  //||      \n"@,
                "============\n"@,
            ],
        }
    }

    /// Avance la potence d'exactement un cran ; sans effet sur `Perdu`.
    pub fn move_forward(&mut self)
        ensures
            *final(self) == old(self).suivant(),
    {
        match self {
            Potence::Debut => *self = Potence::Etape1,
            Potence::Etape1 => *self = Potence::Etape2,
            Potence::Etape2 => *self = Potence::Etape3,
            Potence::Etape3 => *self = Potence::Etape4,
            Potence::Etape4 => *self = Potence::Etape5,
            Potence::Etape5 => *self = Potence::Etape6,
            Potence::Etape6 => *self = Potence::Etape7,
            Potence::Etape7 => *self = Potence::Etape8,
            Potence::Etape8 => *self = Potence::Perdu,
            Potence::Perdu => (),
        }
    }

    /// Un pas de la progression : `None` exactement sur `Perdu`, sinon
    /// avance d'un cran et rend la nouvelle étape.
    pub fn next(&mut self) -> (r: Option<Potence>)
        ensures
            *old(self) == Potence::Perdu ==> r is None && *final(self) == *old(self),
            *old(self) != Potence::Perdu ==> *final(self) == old(self).suivant()
                && r == Some(*final(self)),
    {
        if *self == Potence::Perdu {
            None
        } else {
            self.move_forward();
            Some(*self)
        }
    }

    /// Le dessin de l'étape, ligne par ligne, du haut vers le bas :
    /// exactement les lignes que [`Self::dessin`] donne.
    pub fn as_strs(&self) -> (r: Vec<&'static str>)
        ensures
            r@.len() == self.nb_lignes(),
            forall|k: int| 0 <= k < r@.len() ==> (#[trigger] r@[k])@ == self.dessin()[k],
    {
        match self {
            Potence::Debut => vec![],
            Potence::Etape1 => vec![
                "            \n",
                "            \n",
                "            \n",
                "            \n",
                "            \n",
                "            \n",
                "            \n",
                "            \n",
                "            \n",
                "============\n",
            ],
            Potence::Etape2 => vec![
                "            \n",
                "    ||      \n",
                "    ||      \n",
                "    ||      \n",
                "    ||      \n",
                "    ||      \n",
                "    ||      \n",
                "    ||      \n",
                "    ||      \n",
                "============\n",
            ],
            Potence::Etape3 => vec![
                "    ,=====Y=\n",
                "    ||      \n",
                "    ||      \n",
                "    ||      \n",
                "    ||      \n",
                "    ||      \n",
                "    ||      \n",
                "    ||      \n",
                "    ||      \n",
                "============\n",
            ],
            Potence::Etape4 => vec![
                "    ,=====Y=\n",
                "    ||   /  \n",
                "    ||  /   \n",
                "    || /    \n",
                "    ||/     \n",
                "    ||      \n",
                "    ||      \n",
                "   /||      \n",
                "  //||      \n",
                "============\n",
            ],
            Potence::Etape5 => vec![
                "    ,=====Y=\n",
                "    ||   /| \n",
                "    ||  / | \n",
                "    || /  | \n",
                "    ||/     \n",
                "    ||      \n",
                "    ||      \n",
                "   /||      \n",
                "  //||      \n",
                "============\n",
            ],
            Potence::Etape6 => vec![
                "    ,=====Y=\n",
                "    ||   /| \n",
                "    ||  / | \n",
                "    || /  | \n",
                "    ||/   o \n",
                "    ||      \n",
                "    ||      \n",
                "   /||      \n",
                "  //||      \n",
                "============\n",
            ],
            Potence::Etape7 => vec![
                "    ,=====Y=\n",
                "    ||   /| \n",
                "    ||  / | \n",
                "    || /  | \n",
                "    ||/   o \n",
                "    ||    | \n",
                "    ||      \n",
                "   /||      \n",
                "  //||      \n",
                "============\n",
            ],
            Potence::Etape8 => vec![
                "    ,=====Y=\n",
                "    ||   /| \n",
                "    ||  / | \n",
                "    || /  | \n",
                "    ||/   o \n",
                "    ||   /|\\\n",
                "    ||      \n",
                "   /||      \n",
                "  //||      \n",
                "============\n",
            ],
            Potence::Perdu => vec![
                "    ,=====Y=\n",
                "    ||   /| \n",
                "    ||  / | \n",
                "    || /  | \n",
                "    ||/   o \n",
                "    ||   /|\\\n",
                "    ||   / \\\n",
                "   /||      \n",
                "  //||      \n",
                "============\n",
            ],
        }
    }
}

/// Le rang décrit fidèlement l'ordre des étapes : il va de 0 à 9, vaut 9
/// exactement sur l'étape terminale, et avancer d'un cran l'augmente de un
/// partout ailleurs.
pub proof fn lemme_niveau(p: Potence)
    ensures
        0 <= p.niveau() <= 9,
        p.niveau() == 9 <==> p == Potence::Perdu,
        p == Potence::Perdu ==> p.suivant() == p,
        p != Potence::Perdu ==> p.suivant().niveau() == p.niveau() + 1,
{
}

} // verus!
