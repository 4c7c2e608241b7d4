use pendu::jeu::Jeu;
use pendu::lettre_a_trouver::LettreATrouver;
use pendu::potence::Potence;

fn mot(s: &str) -> Vec<u8> {
    s.bytes().collect()
}

#[test]
fn construction_met_en_majuscules() {
    let jeu = Jeu::avec_mot(&mot("cat"));
    assert_eq!(jeu.a_trouver.len(), 3);
    assert_eq!(jeu.a_trouver[0].letter, b'C');
    assert_eq!(jeu.a_trouver[1].letter, b'A');
    assert_eq!(jeu.a_trouver[2].letter, b'T');
    assert!(jeu.a_trouver.iter().all(|l| !l.is_found()));
    assert_eq!(jeu.potence, Potence::Debut);
    assert!(jeu.deja_tapee.is_empty());
}

#[test]
fn hors_alphabet_revele_des_la_construction() {
    let jeu = Jeu::avec_mot(&mot("A-B"));
    assert!(!jeu.a_trouver[0].is_found());
    assert!(jeu.a_trouver[1].is_found());
    assert_eq!(jeu.a_trouver[1].caractere(), b'-');
    assert!(!jeu.a_trouver[2].is_found());
    assert_eq!(jeu.a_trouver[0].caractere(), b'_');
}

#[test]
fn tirage_sur_liste_d_un_seul_mot() {
    let jeu = Jeu::new(&vec![mot("cat")]);
    assert_eq!(jeu.a_trouver.len(), 3);
    assert_eq!(jeu.a_trouver[0].letter, b'C');
    assert_eq!(jeu.a_trouver[1].letter, b'A');
    assert_eq!(jeu.a_trouver[2].letter, b'T');
}

#[test]
fn scenario_gagnant_cat() {
    // Mot "CAT", lettres 'C', 'A', 'T' dans l'ordre : une case trouvée à
    // chaque fois, la potence ne bouge pas, et après 'T' la partie est
    // gagnée et close.
    let mut jeu = Jeu::avec_mot(&mot("CAT"));
    for (idx, c) in [b'C', b'A', b'T'].into_iter().enumerate() {
        jeu.lettre(c);
        assert_eq!(jeu.potence, Potence::Debut);
        assert!(jeu.a_trouver[idx].is_found());
    }
    assert!(jeu.gagne());
    assert!(jeu.fini());
    assert!(!jeu.perdu());
}

#[test]
fn scenario_perdant_neuf_erreurs() {
    // Neuf lettres fausses distinctes : la potence atteint l'étape
    // terminale au neuvième cran, la partie est perdue, et les trois cases
    // sont toutes révélées de force.
    let mut jeu = Jeu::avec_mot(&mot("CAT"));
    let fausses = [b'X', b'Y', b'Z', b'Q', b'W', b'R', b'S', b'M', b'N'];
    for (i, c) in fausses.into_iter().enumerate() {
        assert!(!jeu.fini());
        jeu.lettre(c);
        assert_eq!(jeu.deja_tapee.len(), i + 1);
    }
    assert_eq!(jeu.potence, Potence::Perdu);
    assert!(jeu.perdu());
    assert!(jeu.fini());
    assert!(!jeu.gagne());
    assert!(jeu.a_trouver.iter().all(|l| l.is_found()));
    assert_eq!(jeu.a_trouver[0].caractere(), b'C');
    assert_eq!(jeu.a_trouver[1].caractere(), b'A');
    assert_eq!(jeu.a_trouver[2].caractere(), b'T');
}

#[test]
fn fini_exclusif_dans_les_deux_issues() {
    // Partie close : gagnée ou perdue, jamais les deux.
    let mut victoire = Jeu::avec_mot(&mot("A"));
    victoire.lettre(b'A');
    assert!(victoire.fini());
    assert!(victoire.gagne() ^ victoire.perdu());

    let mut defaite = Jeu::avec_mot(&mot("A"));
    for c in [b'B', b'C', b'D', b'E', b'F', b'G', b'H', b'I', b'J'] {
        defaite.lettre(c);
    }
    assert!(defaite.fini());
    assert!(defaite.gagne() ^ defaite.perdu());
}

#[test]
fn relancer_la_meme_lettre_est_idempotent() {
    // 'X' proposé deux fois de suite : le second appel ne change rien.
    let mut jeu = Jeu::avec_mot(&mot("CAT"));
    jeu.lettre(b'X');
    let apres_un = jeu.clone();
    jeu.lettre(b'X');
    assert_eq!(jeu, apres_un);
}

#[test]
fn scenario_double_c() {
    // 'C' puis 'C' : une seule entrée retenue, la case révélée une fois,
    // la potence immobile entre les deux appels.
    let mut jeu = Jeu::avec_mot(&mot("CAT"));
    jeu.lettre(b'C');
    assert_eq!(jeu.deja_tapee.len(), 1);
    assert!(jeu.a_trouver[0].is_found());
    let potence_avant = jeu.potence;
    jeu.lettre(b'C');
    assert_eq!(jeu.deja_tapee.len(), 1);
    assert!(jeu.a_trouver[0].is_found());
    assert_eq!(jeu.potence, potence_avant);
}

#[test]
fn monotonie_des_revelations_et_de_la_potence() {
    // Une case révélée le reste, et la potence n'avance que d'un cran par
    // erreur, sans jamais reculer.
    let mut jeu = Jeu::avec_mot(&mot("CAT"));
    jeu.lettre(b'C');
    assert!(jeu.a_trouver[0].is_found());
    jeu.lettre(b'X');
    assert!(jeu.a_trouver[0].is_found());
    assert_eq!(jeu.potence, Potence::Etape1);
    jeu.lettre(b'A');
    assert!(jeu.a_trouver[0].is_found());
    assert!(jeu.a_trouver[1].is_found());
    assert_eq!(jeu.potence, Potence::Etape1);
}

#[test]
fn proposition_apres_la_fin_sans_aucun_effet() {
    // Partie close : une proposition de plus laisse l'état identique
    // octet pour octet.
    let mut jeu = Jeu::avec_mot(&mot("A"));
    jeu.lettre(b'A');
    assert!(jeu.fini());
    let fige = jeu.clone();
    jeu.lettre(b'Z');
    assert_eq!(jeu, fige);
    assert_eq!(jeu.deja_tapee, fige.deja_tapee);
}

#[test]
fn recommencer_repart_a_neuf() {
    let mut jeu = Jeu::avec_mot(&mot("A"));
    jeu.lettre(b'A');
    assert!(jeu.fini());
    jeu.recommencer(&vec![mot("be")]);
    assert_eq!(jeu.potence, Potence::Debut);
    assert!(jeu.deja_tapee.is_empty());
    assert_eq!(jeu.a_trouver.len(), 2);
    assert_eq!(jeu.a_trouver[0].letter, b'B');
    assert!(!jeu.fini());
}

#[test]
fn lettre_juste_en_derniere_erreur_possible() {
    // Huit erreurs, puis une lettre juste : la potence reste à un cran de
    // la fin, la partie se gagne encore.
    let mut jeu = Jeu::avec_mot(&mot("A"));
    for c in [b'B', b'C', b'D', b'E', b'F', b'G', b'H', b'I'] {
        jeu.lettre(c);
    }
    assert_eq!(jeu.potence, Potence::Etape8);
    assert!(!jeu.fini());
    jeu.lettre(b'A');
    assert_eq!(jeu.potence, Potence::Etape8);
    assert!(jeu.gagne());
    assert!(!jeu.perdu());
}

#[test]
fn correspond_ignore_le_drapeau() {
    let trouvee = LettreATrouver::from(b'C');
    assert!(trouvee.correspond(b'C'));
    assert!(!trouvee.correspond(b'A'));
    let mut revelee = trouvee;
    revelee.set_found();
    assert!(revelee.correspond(b'C'));
}
