//! Tests of the squad catalogue and of the player model.

use sfm_core::effectif::creer_joueurs_reels;
use sfm_core::domaine::ScientificDomain;
use sfm_core::joueur::{Joueur, PlayerStats, Position};

fn note_en_points(n: u64) -> f64 {
    n as f64 / 1000.0
}

#[test]
fn test_creation_tous_joueurs() {
    let joueurs = creer_joueurs_reels();
    assert_eq!(joueurs.len(), 15, "Doit avoir 15 joueurs");
}

#[test]
fn test_joueurs_equilibres() {
    let joueurs = creer_joueurs_reels();
    let notes: Vec<f64> = joueurs.iter().map(|j| note_en_points(j.note_globale())).collect();
    let min = notes.iter().cloned().fold(f64::INFINITY, f64::min);
    let max = notes.iter().cloned().fold(f64::NEG_INFINITY, f64::max);
    assert!(min > 30.0, "Note minimum trop basse: {}", min);
    assert!(max < 100.0, "Note maximum trop haute: {}", max);
    println!("Notes joueurs: min={:.1}, max={:.1}", min, max);
}

#[test]
fn test_prenoms_correct() {
    let joueurs = creer_joueurs_reels();
    let prenoms: Vec<&str> = joueurs.iter().map(|j| j.prenom.as_str()).collect();
    for prenom in &["Roland", "Loïc", "David", "Thibault", "Henry",
                    "Romain", "Théo", "Franck", "Aurélien", "Lucien",
                    "Joffrey", "Yacine", "Djilani", "Médéric", "Guillaume"] {
        assert!(prenoms.contains(prenom), "Joueur manquant: {}", prenom);
    }
}

#[test]
fn test_djilani_meilleur_defenseur() {
    let joueurs = creer_joueurs_reels();
    let djilani = joueurs.iter().find(|j| j.prenom == "Djilani").unwrap();
    let defense_djilani = note_en_points(djilani.stats_effectives.defense);
    assert!(defense_djilani > 80.0, "Djilani doit avoir une excellente défense: {}", defense_djilani);
}

#[test]
fn test_loic_bon_finisseur() {
    let joueurs = creer_joueurs_reels();
    let loic = joueurs.iter().find(|j| j.prenom == "Loïc").unwrap();
    let attaque = note_en_points(loic.stats_effectives.attaque);
    assert!(attaque > 80.0, "Loïc doit être un bon finisseur: {}", attaque);
}

#[test]
fn test_creation_joueurs() {
    let joueurs = creer_joueurs_reels();
    assert_eq!(joueurs.len(), 15, "Il doit y avoir exactement 15 joueurs");
}

#[test]
fn test_notes_equilibrees() {
    let joueurs = creer_joueurs_reels();
    let notes: Vec<f64> = joueurs.iter().map(|j| note_en_points(j.note_globale())).collect();
    let min = notes.iter().cloned().fold(f64::INFINITY, f64::min);
    let max = notes.iter().cloned().fold(f64::NEG_INFINITY, f64::max);
    let ecart = max - min;
    println!("Notes: min={:.1}, max={:.1}, écart={:.1}", min, max, ecart);
    assert!(ecart <= 35.0, "Les joueurs doivent être équilibrés (écart: {:.1})", ecart);
}

#[test]
fn test_noms_joueurs() {
    let joueurs = creer_joueurs_reels();
    let prenoms: Vec<&str> = joueurs.iter().map(|j| j.prenom.as_str()).collect();
    assert!(prenoms.contains(&"Roland"));
    assert!(prenoms.contains(&"Loïc"));
    assert!(prenoms.contains(&"David"));
    assert!(prenoms.contains(&"Thibault"));
    assert!(prenoms.contains(&"Henry"));
    assert!(prenoms.contains(&"Romain"));
    assert!(prenoms.contains(&"Théo"));
    assert!(prenoms.contains(&"Franck"));
    assert!(prenoms.contains(&"Aurélien"));
    assert!(prenoms.contains(&"Lucien"));
    assert!(prenoms.contains(&"Joffrey"));
    assert!(prenoms.contains(&"Yacine"));
    assert!(prenoms.contains(&"Djilani"));
    assert!(prenoms.contains(&"Médéric"));
    assert!(prenoms.contains(&"Guillaume"));
}

fn joueur_type() -> Joueur {
    Joueur::new(
        42,
        "Test",
        ScientificDomain::PhysiqueChimie,
        Position::Milieu,
        PlayerStats::new(70_000, 70_000, 70_000, 70_000, 70_000, 70_000, 70_000, 70_000, 70_000),
    )
}

#[test]
fn test_bonus_domaine_plafonne() {
    // 96.0 of base defense with the 1.6 multiplier of Cyberscurite caps at 99.0.
    let stats = PlayerStats::new(72_000, 88_000, 50_000, 76_000, 82_000, 60_000, 96_000, 38_000, 84_000);
    let effectives = stats.appliquer_bonus_domaine(&ScientificDomain::Cyberscurite);
    assert_eq!(effectives.defense, 99_000);
    // 38.0 of base attack with the 0.6 multiplier gives exactly 22.8.
    assert_eq!(effectives.attaque, 22_800);
}

#[test]
fn test_stamina_plancher_et_forme() {
    let mut j = joueur_type();
    j.stamina = 10_000;
    j.forme = 1000;
    j.consommer_stamina(20_000);
    assert_eq!(j.stamina, 0);
    assert_eq!(j.forme, 998, "la fatigue profonde erode la forme");
    j.recuperer_stamina(u64::MAX);
    assert_eq!(j.stamina, j.stamina_max, "la recuperation plafonne au maximum");
}

#[test]
fn test_montee_de_niveau() {
    let mut j = joueur_type();
    let vitesse_avant = j.stats_base.vitesse;
    for _ in 0..9 {
        j.marquer_but();
    }
    assert_eq!(j.niveau, 1);
    assert_eq!(j.experience, 900);
    assert_eq!(j.buts, 9);
    j.marquer_but();
    assert_eq!(j.niveau, 2, "1000 points d'experience font monter de niveau");
    assert_eq!(j.experience, 0);
    assert_eq!(j.stats_base.vitesse, vitesse_avant + 300);
}

#[test]
fn test_passe_decisive() {
    let mut j = joueur_type();
    j.faire_passe_decisive();
    assert_eq!(j.passes_decisives, 1);
    assert_eq!(j.experience, 50);
}

#[test]
fn test_moral_plafonne() {
    let mut j = joueur_type();
    j.moral = 1480;
    j.marquer_but();
    assert_eq!(j.moral, 1500, "le moral plafonne a 1.5");
}

#[test]
fn test_disponibilite() {
    let mut j = joueur_type();
    assert!(j.est_disponible());
    j.blesse = true;
    assert!(!j.est_disponible());
    j.blesse = false;
    j.suspendu = true;
    assert!(!j.est_disponible());
}

#[test]
fn test_compatibilites_domaines() {
    assert_eq!(ScientificDomain::Informatique.compatibility_with(&ScientificDomain::Mathematiques), 1000);
    assert_eq!(ScientificDomain::Mathematiques.compatibility_with(&ScientificDomain::Informatique), 1000);
    assert_eq!(ScientificDomain::Chimie.compatibility_with(&ScientificDomain::Chimie), 600);
    assert_eq!(ScientificDomain::Electronique.compatibility_with(&ScientificDomain::BiologieMedecine), 500);
    assert_eq!(ScientificDomain::PhysiqueChimie.compatibility_with(&ScientificDomain::Chimie), 850);
}

#[test]
fn test_note_globale_exacte() {
    // A uniform 70.0 player of PhysiqueChimie: every attribute scales
    // within the cap, full stamina, neutral form and morale.
    let j = joueur_type();
    // effective stats: 70.0 scaled per attribute, capped at 99.0
    // speed 77.0, strength 80.5, precision 87.5, endurance 77.0,
    // intelligence 84.0, creativity 84.0, defense 84.0, attack 84.0,
    // heading 70.0 -> sum 728_000, mean 80_888
    assert_eq!(j.note_globale(), 80_888);
}
