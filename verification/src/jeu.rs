//! La partie : l'état courant du jeu et l'algorithme qui applique chaque
//! lettre proposée.
//!
//! L'issue n'est jamais un champ mémorisé : gagné, perdu et fini se déduisent
//! de la potence et des cases, ce qui interdit toute divergence entre un
//! drapeau et la vérité.

use vstd::prelude::*;

use crate::lettre_a_trouver::LettreATrouver;
use crate::potence::Potence;
use crate::potence::lemme_niveau;

verus! {

/// L'état mathématique d'une partie, tel que les contrats en parlent.
#[verifier::ext_equal]
pub struct EtatJeu {
    pub potence: Potence,
    pub lettres: Seq<LettreATrouver>,
    pub tapees: Seq<u8>,
}

/// Toutes les cases sont-elles révélées ?
pub open spec fn tout_revele(ls: Seq<LettreATrouver>) -> bool {
    forall|i: int| 0 <= i < ls.len() ==> ls[i].found
}

/// Le mot contient-il le caractère `c` ?
pub open spec fn contient_lettre(ls: Seq<LettreATrouver>, c: u8) -> bool {
    exists|i: int| 0 <= i < ls.len() && ls[i].letter == c
}

/// Les cases après une proposition juste : chaque case portant `c` est
/// révélée, les autres sont inchangées.
pub open spec fn revele_ou(ls: Seq<LettreATrouver>, c: u8) -> Seq<LettreATrouver> {
    ls.map_values(
        |l: LettreATrouver|
            if l.letter == c {
                LettreATrouver { letter: l.letter, found: true }
            } else {
                l
            },
    )
}

/// Toutes les cases révélées de force : le mot entier devient visible.
pub open spec fn revele_tout(ls: Seq<LettreATrouver>) -> Seq<LettreATrouver> {
    ls.map_values(|l: LettreATrouver| LettreATrouver { letter: l.letter, found: true })
}

impl EtatJeu {
    /// Perdu dès que la potence atteint son étape terminale.
    pub open spec fn perdu(self) -> bool {
        self.potence == Potence::Perdu
    }

    /// Gagné : pas perdu, et toutes les cases révélées.
    pub open spec fn gagne(self) -> bool {
        !self.perdu() && tout_revele(self.lettres)
    }

    /// La partie est close, en victoire ou en défaite.
    pub open spec fn fini(self) -> bool {
        self.gagne() || self.perdu()
    }

    /// L'invariant d'une partie : au moins une case, et à la défaite le mot
    /// entier est révélé.
    pub open spec fn inv(self) -> bool {
        self.lettres.len() > 0 && (self.perdu() ==> tout_revele(self.lettres))
    }

    /// La transition de la partie : l'état après la proposition de `c`.
    ///
    /// Partie close ou lettre déjà tentée : aucun effet. Sinon la lettre est
    /// retenue ; si elle figure dans le mot, ses cases sont révélées et la
    /// potence ne bouge pas ; sinon la potence avance d'exactement un cran,
    /// et si ce cran est le dernier, le mot entier est révélé de force.
    pub open spec fn apres(self, c: u8) -> EtatJeu {
        if self.fini() || self.tapees.contains(c) {
            self
        } else {
            let tapees = self.tapees.push(c);
            if contient_lettre(self.lettres, c) {
                EtatJeu { potence: self.potence, lettres: revele_ou(self.lettres, c), tapees }
            } else {
                let potence = self.potence.suivant();
                if potence == Potence::Perdu {
                    EtatJeu { potence, lettres: revele_tout(self.lettres), tapees }
                } else {
                    EtatJeu { potence, lettres: self.lettres, tapees }
                }
            }
        }
    }
}

/// Le caractère ramené en majuscule ASCII ; tout autre caractère, majuscule
/// comprise, est rendu tel quel.
pub open spec fn majuscule_de(c: u8) -> u8 {
    if 97 <= c <= 122 {
        (c - 32) as u8
    } else {
        c
    }
}

/// Les cases d'un mot : chaque caractère mis en majuscule puis changé en case.
pub open spec fn cases_du_mot(mot: Seq<u8>) -> Seq<LettreATrouver> {
    mot.map_values(|c: u8| LettreATrouver::depuis(majuscule_de(c)))
}

/// Forme exécutable de [`majuscule_de`].
pub fn majuscule(c: u8) -> (r: u8)
    ensures
        r == majuscule_de(c),
{
    if 97 <= c && c <= 122 {
        c - 32
    } else {
        c
    }
}

/// S'en remet à `rand::random` : un entier machine tiré du générateur du fil
/// d'exécution ; rien n'est promis de sa valeur.
#[verifier::external_body]
fn tirage() -> usize {
    rand::random::<usize>()
}

/// Le jeu et son état courant : la potence, les cases du mot choisi, et les
/// lettres déjà tentées (seule l'appartenance compte, pas l'ordre).
#[derive(Clone, PartialEq, Debug)]
pub struct Jeu {
    pub potence: Potence,
    pub a_trouver: Vec<LettreATrouver>,
    pub deja_tapee: Vec<u8>,
}

impl View for Jeu {
    type V = EtatJeu;

    open spec fn view(&self) -> EtatJeu {
        EtatJeu { potence: self.potence, lettres: self.a_trouver@, tapees: self.deja_tapee@ }
    }
}

impl Jeu {
    /// Une partie neuve sur le mot donné : la potence au départ, une case
    /// par caractère du mot mis en majuscules, aucune lettre tentée. Le
    /// choix du mot appartient à l'appelant, ce qui rend la construction
    /// déterministe.
    pub fn avec_mot(mot: &Vec<u8>) -> (r: Jeu)
        requires
            mot@.len() > 0,
        ensures
            r@.potence == Potence::Debut,
            r@.lettres == cases_du_mot(mot@),
            r@.tapees == Seq::<u8>::empty(),
            r@.inv(),
    {
        let mut cases: Vec<LettreATrouver> = Vec::new();
        let n = mot.len();
        for i in 0..n
            invariant
                n == mot@.len(),
                cases@.len() == i,
                forall|j: int|
                    0 <= j < i ==> cases@[j] == LettreATrouver::depuis(majuscule_de(mot@[j])),
        {
            let c = majuscule(mot[i]);
            cases.push(LettreATrouver::from(c));
        }
        proof {
            assert(cases@ =~= cases_du_mot(mot@));
        }
        Jeu { potence: Potence::Debut, a_trouver: cases, deja_tapee: Vec::new() }
    }

    /// Une partie neuve : un mot tiré au hasard, à indice quelconque, dans
    /// une liste jamais vide de mots jamais vides.
    pub fn new(mots: &Vec<Vec<u8>>) -> (r: Jeu)
        requires
            mots@.len() > 0,
            forall|i: int| 0 <= i < mots@.len() ==> #[trigger] mots@[i]@.len() > 0,
        ensures
            r@.potence == Potence::Debut,
            r@.tapees == Seq::<u8>::empty(),
            exists|i: int| 0 <= i < mots@.len() && r@.lettres == cases_du_mot(#[trigger] mots@[i]@),
            r@.inv(),
    {
        let rnd = tirage() % mots.len();
        let r = Jeu::avec_mot(&mots[rnd]);
        proof {
            assert(r@.lettres == cases_du_mot(mots@[rnd as int]@));
        }
        r
    }

    /// Rejoue : ne vaut que partie close ; l'état est jeté et reconstruit
    /// entier, nouveau tirage compris. Le même mot peut ressortir, le
    /// tirage est sans mémoire.
    pub fn recommencer(&mut self, mots: &Vec<Vec<u8>>)
        requires
            old(self)@.fini(),
            mots@.len() > 0,
            forall|i: int| 0 <= i < mots@.len() ==> #[trigger] mots@[i]@.len() > 0,
        ensures
            final(self)@.potence == Potence::Debut,
            final(self)@.tapees == Seq::<u8>::empty(),
            exists|i: int|
                0 <= i < mots@.len() && final(self)@.lettres == cases_du_mot(#[trigger] mots@[i]@),
            final(self)@.inv(),
    {
        *self = Jeu::new(mots);
    }

    /// La partie est-elle perdue ? Vrai exactement sur la potence terminale.
    pub fn perdu(&self) -> (r: bool)
        ensures
            r == self@.perdu(),
    {
        match self.potence {
            Potence::Perdu => true,
            _ => false,
        }
    }

    /// La partie est-elle gagnée ? Pas perdue, et plus une case voilée.
    pub fn gagne(&self) -> (r: bool)
        ensures
            r == self@.gagne(),
    {
        if self.perdu() {
            return false;
        }
        let mut i: usize = 0;
        while i < self.a_trouver.len()
            invariant
                i <= self.a_trouver@.len(),
                forall|j: int| 0 <= j < i ==> self.a_trouver@[j].found,
            decreases self.a_trouver@.len() - i,
        {
            if !self.a_trouver[i].is_found() {
                return false;
            }
            i = i + 1;
        }
        true
    }

    /// La partie est-elle close, victoire ou défaite ?
    pub fn fini(&self) -> (r: bool)
        ensures
            r == self@.fini(),
    {
        self.perdu() || self.gagne()
    }

    /// La lettre a-t-elle déjà été tentée dans cette partie ?
    fn deja_essayee(&self, c: u8) -> (r: bool)
        ensures
            r == self.deja_tapee@.contains(c),
    {
        let mut i: usize = 0;
        while i < self.deja_tapee.len()
            invariant
                i <= self.deja_tapee@.len(),
                forall|j: int| 0 <= j < i ==> self.deja_tapee@[j] != c,
            decreases self.deja_tapee@.len() - i,
        {
            if self.deja_tapee[i] == c {
                return true;
            }
            i = i + 1;
        }
        false
    }

    /// L'algorithme principal : applique la lettre proposée `c`, exactement
    /// comme [`EtatJeu::apres`] le décrit. Partie close ou lettre déjà vue :
    /// aucun effet. Lettre présente : ses cases sont révélées, la potence ne
    /// bouge pas. Lettre absente : la potence avance d'un cran, et si ce
    /// cran est le dernier le mot entier est révélé de force.
    pub fn lettre(&mut self, c: u8)
        requires
            old(self)@.inv(),
        ensures
            final(self)@ == old(self)@.apres(c),
            final(self)@.inv(),
            old(self)@.potence.niveau() <= final(self)@.potence.niveau(),
            forall|i: int|
                0 <= i < old(self)@.lettres.len() && old(self)@.lettres[i].found
                    ==> final(self)@.lettres[i].found,
            forall|i: int|
                0 <= i < old(self)@.lettres.len()
                    ==> final(self)@.lettres[i].letter == old(self)@.lettres[i].letter,
            old(self)@.tapees.is_prefix_of(final(self)@.tapees),
    {
        proof {
            lemme_conservation_invariant(old(self)@, c);
            lemme_monotonie(old(self)@, c);
        }
        if self.perdu() || self.gagne() {
            // Partie close : la proposition est ignorée sans bruit.
            return;
        }
        if self.deja_essayee(c) {
            // Lettre déjà tentée : sans effet, la proposition est idempotente.
            return;
        }
        self.deja_tapee.push(c);

        let ghost avant = self.a_trouver@;
        let mut compte: usize = 0;
        let mut i: usize = 0;
        while i < self.a_trouver.len()
            invariant
                i <= avant.len(),
                self.a_trouver@.len() == avant.len(),
                compte <= i,
                (compte == 0) <==> (forall|j: int| 0 <= j < i ==> avant[j].letter != c),
                forall|j: int|
                    0 <= j < i ==> self.a_trouver@[j] == (if avant[j].letter == c {
                        LettreATrouver { letter: avant[j].letter, found: true }
                    } else {
                        avant[j]
                    }),
                forall|j: int| i <= j < avant.len() ==> self.a_trouver@[j] == avant[j],
                self.potence == old(self).potence,
                self.deja_tapee@ == old(self)@.tapees.push(c),
                avant == old(self)@.lettres,
            decreases avant.len() - i,
        {
            if self.a_trouver[i].correspond(c) {
                self.a_trouver[i].set_found();
                compte = compte + 1;
            }
            i = i + 1;
        }

        if compte == 0 {
            // Aucune case ne porte la lettre : la potence avance d'un cran.
            proof {
                assert(self.a_trouver@ =~= avant);
            }
            match self.potence.next() {
                Some(Potence::Perdu) => {
                    // La défaite révèle le mot entier au joueur.
                    let mut k: usize = 0;
                    while k < self.a_trouver.len()
                        invariant
                            k <= avant.len(),
                            self.a_trouver@.len() == avant.len(),
                            forall|j: int|
                                0 <= j < k ==> self.a_trouver@[j] == (LettreATrouver {
                                    letter: avant[j].letter,
                                    found: true,
                                }),
                            forall|j: int| k <= j < avant.len() ==> self.a_trouver@[j] == avant[j],
                            self.potence == old(self)@.potence.suivant(),
                            self.deja_tapee@ == old(self)@.tapees.push(c),
                            avant == old(self)@.lettres,
                        decreases avant.len() - k,
                    {
                        self.a_trouver[k].set_force_display();
                        k = k + 1;
                    }
                    proof {
                        assert(self.a_trouver@ =~= revele_tout(avant));
                        assert(self@ =~= old(self)@.apres(c));
                    }
                }
                _ => {
                    proof {
                        assert(self@ =~= old(self)@.apres(c));
                    }
                }
            }
        } else {
            proof {
                assert(contient_lettre(avant, c));
                assert(self.a_trouver@ =~= revele_ou(avant, c));
                assert(self@ =~= old(self)@.apres(c));
            }
        }
    }
}

/// Une partie close l'est d'une seule façon : gagnée ou perdue, jamais les
/// deux, jamais ni l'une ni l'autre.
pub proof fn lemme_fini_exclusif(e: EtatJeu)
    ensures
        !(e.gagne() && e.perdu()),
        e.fini() ==> (e.gagne() || e.perdu()),
{
}

/// Proposer deux fois de suite la même lettre revient à la proposer une
/// fois : la seconde proposition ne change rien.
pub proof fn lemme_idempotence(e: EtatJeu, c: u8)
    ensures
        e.apres(c).apres(c) == e.apres(c),
{
    let e1 = e.apres(c);
    if !(e.fini() || e.tapees.contains(c)) {
        assert(e1.tapees[e.tapees.len() as int] == c);
        assert(e1.tapees.contains(c));
    }
}

/// La partie n'avance que dans un sens : la potence ne recule jamais, une
/// case révélée le reste, aucun caractère ne change, et les lettres tentées
/// ne font que s'ajouter.
pub proof fn lemme_monotonie(e: EtatJeu, c: u8)
    ensures
        e.potence.niveau() <= e.apres(c).potence.niveau(),
        e.apres(c).lettres.len() == e.lettres.len(),
        forall|i: int|
            0 <= i < e.lettres.len() && e.lettres[i].found ==> e.apres(c).lettres[i].found,
        forall|i: int|
            0 <= i < e.lettres.len() ==> e.apres(c).lettres[i].letter == e.lettres[i].letter,
        e.tapees.is_prefix_of(e.apres(c).tapees),
{
    lemme_niveau(e.potence);
    if e.fini() || e.tapees.contains(c) {
        assert(e.tapees =~= e.tapees.subrange(0, e.tapees.len() as int));
    } else {
        assert(e.tapees =~= e.tapees.push(c).subrange(0, e.tapees.len() as int));
    }
}

/// L'invariant de partie traverse toute transition : en particulier, quand
/// la potence atteint l'étape terminale, le mot entier est révélé.
pub proof fn lemme_conservation_invariant(e: EtatJeu, c: u8)
    requires
        e.inv(),
    ensures
        e.apres(c).inv(),
{
}

/// Complétude de la défaite : dans toute partie qui respecte l'invariant,
/// la potence terminale s'accompagne d'un mot entièrement révélé, même si
/// chaque lettre n'a pas été devinée une à une.
pub proof fn lemme_perte_revele(e: EtatJeu)
    requires
        e.inv(),
        e.perdu(),
    ensures
        tout_revele(e.lettres),
{
}

/// Pureté de la victoire : une partie gagnée a sa potence strictement sous
/// l'étape terminale.
pub proof fn lemme_victoire(e: EtatJeu)
    ensures
        e.gagne() ==> e.potence.niveau() < 9,
{
    lemme_niveau(e.potence);
}

} // verus!
