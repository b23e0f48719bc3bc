//! Tests of the match engine: clock and periods, goals and saves,
//! substitutions, reconciliation, and the event log.

use sfm_core::alea::GenerateurAlea;
use sfm_core::domaine::ScientificDomain;
use sfm_core::effectif::creer_joueurs_reels;
use sfm_core::equipe::{Equipe, ErreurSubstitution};
use sfm_core::joueur::{Joueur, PlayerStats, Position, TraitPersonnalite};
use sfm_core::moteur::{EvenementMatch, MoteurMatch, PeriodeMatch};

const GRAND: u64 = 999_999_999;

fn joueur(id: u32, nom: &str, position: Position, sur_terrain: bool) -> Joueur {
    let mut j = Joueur::new(
        id,
        nom,
        ScientificDomain::PhysiqueChimie,
        position,
        PlayerStats::new(70_000, 70_000, 70_000, 70_000, 70_000, 70_000, 70_000, 70_000, 70_000),
    );
    j.sur_le_terrain = sur_terrain;
    j
}

/// A five-a-side team around rating 70 with keeper, defender, two
/// midfielders and a forward on the pitch, plus one substitute.
fn equipe_test(id: u32, nom: &str, base: u32) -> Equipe {
    let mut e = Equipe::new(id, nom);
    let _ = e.ajouter_joueur(joueur(base, "G", Position::Gardien, true));
    let _ = e.ajouter_joueur(joueur(base + 1, "D", Position::Defenseur, true));
    let _ = e.ajouter_joueur(joueur(base + 2, "M1", Position::Milieu, true));
    let _ = e.ajouter_joueur(joueur(base + 3, "M2", Position::Milieu, true));
    let _ = e.ajouter_joueur(joueur(base + 4, "A", Position::Attaquant, true));
    let _ = e.ajouter_joueur(joueur(base + 5, "R", Position::Milieu, false));
    e.chimie = 500;
    e
}

fn moteur_test() -> MoteurMatch {
    MoteurMatch::nouveau(1, equipe_test(1, "Rouges", 10), equipe_test(2, "Bleus", 20))
}

/// The eleven draws of one tick that scores a goal without an assist.
/// `equipe` is 0 for the home side and GRAND for the away side.
fn tick_de_but(equipe: u64) -> Vec<u64> {
    vec![1000, 1000, 0, equipe, 0, 0, 999, 0, GRAND, GRAND, GRAND]
}

#[test]
fn test_moteur_match() {
    let tous_joueurs = creer_joueurs_reels();
    let mut equipe1 = Equipe::new(1, "Test Rouge");
    let mut equipe2 = Equipe::new(2, "Test Bleu");

    for (i, mut j) in tous_joueurs.into_iter().enumerate() {
        j.sur_le_terrain = if i < 5 { i < 5 } else { i < 10 };
        if i < 8 {
            let _ = equipe1.ajouter_joueur(j);
        } else {
            let _ = equipe2.ajouter_joueur(j);
        }
    }

    let mut moteur = MoteurMatch::nouveau(1, equipe1, equipe2);
    moteur.demarrer();
    moteur.mise_a_jour(1000);
    assert!(moteur.en_jeu, "Le match doit être en cours");
}

#[test]
fn test_mi_temps_apres_600_secondes() {
    // Two teams around rating 70, chemistry 0.5; exactly 600 s of play
    // ends the first half with the clock frozen.
    let mut m = moteur_test();
    assert_eq!(m.equipe_domicile.chimie, 500);
    m.demarrer();
    let mut temps_precedent = 0u64;
    for _ in 0..600 {
        m.mise_a_jour(1000);
        assert!(m.temps_ecoule >= temps_precedent, "le temps ne recule jamais");
        temps_precedent = m.temps_ecoule;
    }
    assert_eq!(m.temps_ecoule, 600_000);
    assert!(matches!(m.periode, PeriodeMatch::MiTemps));
    assert!(!m.en_jeu, "la pause de mi-temps gele le match");
}

#[test]
fn test_pause_gele_le_temps() {
    let mut m = moteur_test();
    m.demarrer();
    m.mise_a_jour(5_000);
    let temps = m.temps_ecoule;
    m.pause();
    m.mise_a_jour(10_000);
    assert_eq!(m.temps_ecoule, temps, "une mise a jour en pause ne change rien");
    m.reprendre();
    m.mise_a_jour(1_000);
    assert_eq!(m.temps_ecoule, temps + 1_000);
}

#[test]
fn test_fin_de_match_et_reconciliation() {
    // Score 2-1 for the home side at exactly 1200 s of the second half:
    // the match finishes, the home side takes the win, the away side the
    // loss, and the goal tallies are reconciled exactly once.
    let mut m = moteur_test();
    m.demarrer();
    m.mise_a_jour(600_000);
    assert!(matches!(m.periode, PeriodeMatch::MiTemps));
    m.reprendre();
    assert!(matches!(m.periode, PeriodeMatch::DeuxiemeMitemps));
    assert!(m.en_jeu);

    let mut tirages: Vec<u64> = Vec::new();
    tirages.extend(tick_de_but(0));
    tirages.extend(tick_de_but(0));
    tirages.extend(tick_de_but(GRAND));
    m.alea = GenerateurAlea::Sequence(tirages, 0);

    m.mise_a_jour(1000);
    m.mise_a_jour(1000);
    m.mise_a_jour(1000);
    assert_eq!(m.score_domicile, 2);
    assert_eq!(m.score_exterieur, 1);
    assert_eq!(m.temps_ecoule, 603_000);

    m.mise_a_jour(597_000);
    assert_eq!(m.temps_ecoule, 1_200_000);
    assert!(matches!(m.periode, PeriodeMatch::Termine));
    assert!(!m.en_jeu);
    assert_eq!(m.get_vainqueur(), Some(1));
    assert_eq!(m.equipe_domicile.victoires, 1);
    assert_eq!(m.equipe_domicile.defaites, 0);
    assert_eq!(m.equipe_domicile.nuls, 0);
    assert_eq!(m.equipe_exterieur.victoires, 0);
    assert_eq!(m.equipe_exterieur.defaites, 1);
    assert_eq!(m.equipe_exterieur.nuls, 0);
    assert_eq!(m.equipe_domicile.buts_marques, 2);
    assert_eq!(m.equipe_domicile.buts_encaisses, 1);
    assert_eq!(m.equipe_exterieur.buts_marques, 1);
    assert_eq!(m.equipe_exterieur.buts_encaisses, 2);

    // A finished match is immutable: further ticks change nothing.
    let score = (m.score_domicile, m.score_exterieur);
    let victoires = m.equipe_domicile.victoires;
    m.mise_a_jour(50_000);
    assert_eq!(m.temps_ecoule, 1_200_000);
    assert_eq!((m.score_domicile, m.score_exterieur), score);
    assert_eq!(m.equipe_domicile.victoires, victoires, "la reconciliation n'a lieu qu'une fois");
}

#[test]
fn test_match_nul_compte_deux_nuls() {
    let mut m = moteur_test();
    m.demarrer();
    m.mise_a_jour(600_000);
    m.reprendre();
    m.mise_a_jour(600_000);
    assert!(matches!(m.periode, PeriodeMatch::Termine));
    if m.score_domicile == m.score_exterieur {
        assert_eq!(m.equipe_domicile.nuls, 1);
        assert_eq!(m.equipe_exterieur.nuls, 1);
        assert_eq!(m.get_vainqueur(), None);
    } else {
        assert_eq!(m.equipe_domicile.victoires + m.equipe_exterieur.victoires, 1);
        assert_eq!(m.equipe_domicile.defaites + m.equipe_exterieur.defaites, 1);
    }
}

#[test]
fn test_score_egal_nombre_de_buts() {
    // The score always equals the number of goal events per team.
    let mut m = moteur_test();
    m.demarrer();
    m.mise_a_jour(600_000);
    m.reprendre();
    let mut tirages: Vec<u64> = Vec::new();
    tirages.extend(tick_de_but(0));
    tirages.extend(tick_de_but(GRAND));
    m.alea = GenerateurAlea::Sequence(tirages, 0);
    m.mise_a_jour(1000);
    m.mise_a_jour(1000);

    let buts_domicile = m
        .evenements
        .iter()
        .filter(|e| matches!(e, EvenementMatch::But { equipe_id, .. } if *equipe_id == 1))
        .count() as u64;
    let buts_exterieur = m
        .evenements
        .iter()
        .filter(|e| matches!(e, EvenementMatch::But { equipe_id, .. } if *equipe_id == 2))
        .count() as u64;
    assert_eq!(m.score_domicile, buts_domicile);
    assert_eq!(m.score_exterieur, buts_exterieur);
    assert_eq!(m.score_domicile, 1);
    assert_eq!(m.score_exterieur, 1);
}

#[test]
fn test_gardien_arrete_le_tir() {
    // A failed attempt against a present keeper logs only a save: the
    // scores do not move and no goal event appears.
    let mut m = moteur_test();
    m.demarrer();
    // one tick: goal check fires, home attacks, shot roll 999 >= chance
    m.alea = GenerateurAlea::Sequence(vec![1000, 1000, 0, 0, 0, 999, GRAND, GRAND, GRAND], 0);
    m.mise_a_jour(1000);
    assert_eq!(m.score_domicile, 0);
    assert_eq!(m.score_exterieur, 0);
    assert_eq!(m.evenements.len(), 1);
    assert!(matches!(m.evenements[0], EvenementMatch::SauvetageGardien { gardien_id: 20, .. }));
    assert!(!m.evenements.iter().any(|e| matches!(e, EvenementMatch::But { .. })));
}

#[test]
fn test_periodes_en_ordre() {
    // The sequence of periods of a full run is exactly first half,
    // half-time, second half, finished; it never regresses.
    let mut m = moteur_test();
    assert!(matches!(m.periode, PeriodeMatch::PremiereMitemps));
    m.demarrer();
    let mut rangs: Vec<u8> = vec![0];
    for _ in 0..1300 {
        m.mise_a_jour(1000);
        if matches!(m.periode, PeriodeMatch::MiTemps) {
            rangs.push(1);
            m.reprendre();
        }
        let rang = match m.periode {
            PeriodeMatch::PremiereMitemps => 0,
            PeriodeMatch::MiTemps => 1,
            PeriodeMatch::DeuxiemeMitemps => 2,
            PeriodeMatch::Termine => 3,
        };
        assert!(*rangs.last().unwrap() <= rang, "la periode ne regresse jamais");
        if rang > *rangs.last().unwrap() {
            rangs.push(rang);
        }
    }
    assert_eq!(rangs, vec![0, 1, 2, 3]);
}

#[test]
fn test_ballon_dans_les_limites() {
    let mut m = moteur_test();
    m.demarrer();
    for _ in 0..200 {
        m.mise_a_jour(3000);
        assert!(m.ballon_x >= -50_000 && m.ballon_x <= 50_000);
        assert!(m.ballon_z >= -25_000 && m.ballon_z <= 25_000);
    }
}

#[test]
fn test_stamina_jamais_au_dela_des_bornes() {
    let mut m = moteur_test();
    m.demarrer();
    for _ in 0..300 {
        m.mise_a_jour(2000);
        for j in m.equipe_domicile.joueurs.iter().chain(m.equipe_exterieur.joueurs.iter()) {
            assert!(j.stamina <= j.stamina_max);
        }
        if matches!(m.periode, PeriodeMatch::MiTemps) {
            m.reprendre();
        }
    }
}

#[test]
fn test_substitution_sortant_pas_sur_terrain() {
    // Asking to take off a benched player returns the dedicated error
    // and leaves both rosters' on-field flags untouched.
    let mut m = moteur_test();
    m.demarrer();
    let avant_dom: Vec<bool> = m.equipe_domicile.joueurs.iter().map(|j| j.sur_le_terrain).collect();
    let avant_ext: Vec<bool> = m.equipe_exterieur.joueurs.iter().map(|j| j.sur_le_terrain).collect();
    let r = m.faire_substitution(1, 15, 10);
    assert_eq!(r, Err(ErreurSubstitution::SortantPasSurTerrain));
    let apres_dom: Vec<bool> = m.equipe_domicile.joueurs.iter().map(|j| j.sur_le_terrain).collect();
    let apres_ext: Vec<bool> = m.equipe_exterieur.joueurs.iter().map(|j| j.sur_le_terrain).collect();
    assert_eq!(avant_dom, apres_dom);
    assert_eq!(avant_ext, apres_ext);
}

#[test]
fn test_substitution_erreurs_et_succes() {
    let mut m = moteur_test();
    m.demarrer();
    assert_eq!(m.faire_substitution(9, 10, 15), Err(ErreurSubstitution::EquipeNonTrouvee));
    assert_eq!(m.faire_substitution(1, 99, 15), Err(ErreurSubstitution::SortantNonTrouve));
    assert_eq!(m.faire_substitution(1, 10, 99), Err(ErreurSubstitution::EntrantNonTrouve));
    assert_eq!(m.faire_substitution(1, 10, 11), Err(ErreurSubstitution::EntrantDejaSurTerrain));
    m.equipe_domicile.joueurs[5].blesse = true;
    assert_eq!(m.faire_substitution(1, 10, 15), Err(ErreurSubstitution::EntrantIndisponible));
    m.equipe_domicile.joueurs[5].blesse = false;
    let n_evenements = m.evenements.len();
    assert_eq!(m.faire_substitution(1, 10, 15), Ok(()));
    assert!(!m.equipe_domicile.joueurs[0].sur_le_terrain);
    assert!(m.equipe_domicile.joueurs[5].sur_le_terrain);
    assert_eq!(m.evenements.len(), n_evenements + 1);
    assert!(matches!(
        m.evenements.last().unwrap(),
        EvenementMatch::Substitution { equipe_id: 1, sortant_id: 10, entrant_id: 15, .. }
    ));
}

#[test]
fn test_carton_jaune() {
    let mut m = moteur_test();
    m.demarrer();
    // goal check misses; card check fires on the first fielded home
    // player with a roll under the plain threshold.
    m.alea = GenerateurAlea::Sequence(vec![1000, 1000, GRAND, 0, 0, 0, 0, 0, GRAND, GRAND], 0);
    m.mise_a_jour(1000);
    assert_eq!(m.equipe_domicile.joueurs[0].cartons_jaunes, 1);
    assert_eq!(m.evenements.len(), 1);
    match &m.evenements[0] {
        EvenementMatch::CartonJaune { joueur_id, raison, .. } => {
            assert_eq!(*joueur_id, 10);
            assert_eq!(raison, "Tacle trop appuyé");
        },
        autre => panic!("evenement inattendu: {:?}", autre),
    }
}

#[test]
fn test_charmeur_evite_le_carton() {
    let mut m = moteur_test();
    m.equipe_domicile.joueurs[0].traits.push(TraitPersonnalite {
        nom: "Charmeur d'Arbitre".to_string(),
        description: "Tellement sympa que l'arbitre lui pardonne tout".to_string(),
        effet: "Chances carton jaune -30%".to_string(),
    });
    m.demarrer();
    // The same roll of 300 books an ordinary player (threshold 700) but
    // not the charmer (threshold 210).
    m.alea = GenerateurAlea::Sequence(vec![1000, 1000, GRAND, 0, 0, 0, 300, GRAND, GRAND], 0);
    m.mise_a_jour(1000);
    assert_eq!(m.equipe_domicile.joueurs[0].cartons_jaunes, 0);
    assert!(m.evenements.is_empty());
}

#[test]
fn test_decouverte_scientifique() {
    let mut m = moteur_test();
    m.demarrer();
    let formes_avant: Vec<u64> = m.equipe_domicile.joueurs.iter().map(|j| j.forme).collect();
    // only the discovery check fires, for the home side, first finding.
    m.alea = GenerateurAlea::Sequence(vec![1000, 1000, GRAND, GRAND, 0, 0, 0, GRAND], 0);
    m.mise_a_jour(1000);
    assert_eq!(m.evenements.len(), 1);
    match &m.evenements[0] {
        EvenementMatch::DecouverteScientifique { equipe_id, bonus, .. } => {
            assert_eq!(*equipe_id, 1);
            assert_eq!(*bonus, 100);
        },
        autre => panic!("evenement inattendu: {:?}", autre),
    }
    for (j, avant) in m.equipe_domicile.joueurs.iter().zip(formes_avant.iter()) {
        if j.sur_le_terrain {
            assert_eq!(j.forme, (avant + 100).min(1500), "la forme des titulaires monte");
        } else {
            assert_eq!(j.forme, *avant);
        }
    }
}

#[test]
fn test_belle_action() {
    let mut m = moteur_test();
    m.demarrer();
    m.alea = GenerateurAlea::Sequence(vec![1000, 1000, GRAND, GRAND, GRAND, 0, 0, 0, 0], 0);
    let score = (m.score_domicile, m.score_exterieur);
    m.mise_a_jour(1000);
    assert_eq!(m.evenements.len(), 1);
    assert!(matches!(
        m.evenements[0],
        EvenementMatch::BelleAction { joueur_id: 10, .. }
    ));
    assert_eq!((m.score_domicile, m.score_exterieur), score, "une belle action n'a aucun effet");
}

#[test]
fn test_affichage_temps_et_score() {
    let mut m = moteur_test();
    assert_eq!(m.get_temps_affichage(), "00:00");
    assert_eq!(m.get_score_affichage(), "0 - 0");
    m.demarrer();
    m.mise_a_jour(65_000);
    assert_eq!(m.get_minute_actuelle(), 1);
    assert_eq!(m.get_temps_affichage(), "01:05");
}

#[test]
fn test_evenements_recents() {
    let mut m = moteur_test();
    m.demarrer();
    let _ = m.faire_substitution(1, 10, 15);
    let _ = m.faire_substitution(2, 20, 25);
    let recents = m.get_evenements_recents(1);
    assert_eq!(recents.len(), 1);
    assert!(matches!(recents[0], EvenementMatch::Substitution { equipe_id: 2, .. }));
    let tous = m.get_evenements_recents(10);
    assert_eq!(tous.len(), 2);
    assert!(matches!(tous[1], EvenementMatch::Substitution { equipe_id: 1, .. }));
    assert!(m.get_evenements_recents(0).is_empty());
}

#[test]
fn test_minutes_croissantes() {
    let mut m = moteur_test();
    m.demarrer();
    for _ in 0..650 {
        m.mise_a_jour(1000);
        if matches!(m.periode, PeriodeMatch::MiTemps) {
            m.reprendre();
        }
    }
    let minutes: Vec<u64> = m.evenements.iter().map(|e| e.get_minute()).collect();
    for paire in minutes.windows(2) {
        assert!(paire[0] <= paire[1], "les minutes du journal ne reculent pas");
    }
}

#[test]
fn test_source_aleatoire_bornee() {
    let mut alea = GenerateurAlea::Systeme;
    assert_eq!(alea.suivant(1), 0);
    for m in 1..100u64 {
        let r = alea.suivant(m);
        assert!(r < m, "un tirage sous {} a donne {}", m, r);
    }
    let mut fixe = GenerateurAlea::Sequence(vec![7, 12], 0);
    assert_eq!(fixe.suivant(5), 2);
    assert_eq!(fixe.suivant(5), 2);
    assert_eq!(fixe.suivant(5), 4, "une sequence epuisee sert m - 1");
}

#[test]
fn test_chance_de_but_exacte() {
    // quality (70 + 70) / 2 read over 200 gives 700 out of 1000; a
    // resistance of 0.4 leaves a factor of 760; the chance is 0.532.
    assert_eq!(sfm_core::moteur::chance_de_but(70_000, 70_000, 400), 532);
    assert_eq!(sfm_core::moteur::resistance_gardien(70_000, 70_000), 700);
    // even a perfect keeper leaves the formula short of certainty
    assert_eq!(sfm_core::moteur::resistance_gardien(99_000, 99_000), 990);
    assert!(sfm_core::moteur::chance_de_but(99_000, 99_000, 990) < 1000);
}

#[test]
fn test_facteur_bonus_et_drain() {
    let mut m = moteur_test();
    // chemistry 0.5 gives the neutral scientific factor of one
    assert_eq!(m.facteur_bonus_domicile, 1000);
    assert_eq!(m.facteur_bonus_exterieur, 1000);
    m.demarrer();
    let stamina_avant = m.equipe_domicile.joueurs[0].stamina;
    m.mise_a_jour(1000);
    // the drain of one second at intensity 1.0 is exactly 1.5 points
    assert_eq!(m.equipe_domicile.joueurs[0].stamina, stamina_avant - 1500);
    assert_eq!(m.equipe_exterieur.joueurs[5].stamina, m.equipe_exterieur.joueurs[5].stamina_max,
        "un remplacant ne se fatigue pas");
}

#[test]
fn test_description_courte() {
    let mut m = moteur_test();
    m.demarrer();
    let _ = m.faire_substitution(1, 10, 15);
    let texte = m.evenements[0].get_description_courte();
    assert_eq!(texte, "0' 🔄 Substitution");
}
