//! Tests of the lobby state, the automatic line-up, the power-ups and
//! the small accessors.

use sfm_core::alea::GenerateurAlea;
use sfm_core::domaine::ScientificDomain;
use sfm_core::etat::{ErreurCreationMatch, ErreurRecrutement, EtatJeu};
use sfm_core::equipe::{Equipe, Formation};
use sfm_core::joueur::{CapaciteSpeciale, Joueur, PlayerStats, Position};
use sfm_core::moteur::PeriodeMatch;
use sfm_core::power_up::{InventairePowerUp, PowerUpActif, Rarete, TypePowerUp};

#[test]
fn test_etat_defaut() {
    let etat = EtatJeu::default();
    assert_eq!(etat.equipes.len(), 2);
    assert_eq!(etat.joueurs_disponibles.len(), 15);
    assert!(etat.match_actuel.is_none());
    assert_eq!(etat.match_compteur, 1);
    assert_eq!(etat.saison, 1);
}

#[test]
fn test_initialiser_equipes_demo() {
    let mut etat = EtatJeu::default();
    etat.initialiser_equipes_demo();
    assert_eq!(etat.equipes.len(), 2);
    assert!(etat.joueurs_disponibles.is_empty());
    assert_eq!(etat.equipes[0].joueurs.len(), 8);
    assert_eq!(etat.equipes[1].joueurs.len(), 7);
    assert_eq!(etat.equipes[0].get_titulaires().len(), 5);
    assert_eq!(etat.equipes[1].get_titulaires().len(), 5);
}

#[test]
fn test_creer_match_et_erreurs() {
    let mut etat = EtatJeu::default();
    assert_eq!(etat.creer_match(1, 1), Err(ErreurCreationMatch::EquipesIdentiques));
    assert_eq!(etat.creer_match(9, 2), Err(ErreurCreationMatch::Equipe1NonTrouvee));
    assert_eq!(etat.creer_match(1, 9), Err(ErreurCreationMatch::Equipe2NonTrouvee));
    assert_eq!(etat.creer_match(1, 2), Err(ErreurCreationMatch::TitulairesInsuffisants));
    etat.initialiser_equipes_demo();
    assert_eq!(etat.creer_match(1, 2), Ok(()));
    let m = etat.match_actuel.as_ref().unwrap();
    assert_eq!(m.equipe_domicile.id, 1);
    assert_eq!(m.equipe_exterieur.id, 2);
    assert_eq!(etat.match_compteur, 2);
}

#[test]
fn test_synchronisation_apres_match() {
    let mut etat = EtatJeu::default();
    etat.initialiser_equipes_demo();
    assert_eq!(etat.creer_match(1, 2), Ok(()));
    {
        let m = etat.match_actuel.as_mut().unwrap();
        m.demarrer();
        m.mise_a_jour(600_000);
        m.reprendre();
        m.mise_a_jour(600_000);
        assert!(matches!(m.periode, PeriodeMatch::Termine));
    }
    // the stored teams have no result yet; the copy-back writes it once
    assert_eq!(etat.equipes[0].nuls + etat.equipes[0].victoires + etat.equipes[0].defaites, 0);
    etat.synchroniser_match_vers_equipes();
    let jouees_1 = etat.equipes[0].victoires + etat.equipes[0].nuls + etat.equipes[0].defaites;
    let jouees_2 = etat.equipes[1].victoires + etat.equipes[1].nuls + etat.equipes[1].defaites;
    assert_eq!(jouees_1, 1);
    assert_eq!(jouees_2, 1);
}

#[test]
fn test_ajouter_joueur_a_equipe() {
    let mut etat = EtatJeu::default();
    assert_eq!(etat.ajouter_joueur_a_equipe(0, 1), Ok(()));
    assert_eq!(etat.joueurs_disponibles.len(), 14);
    assert_eq!(etat.equipes[0].joueurs.len(), 1);
    assert_eq!(etat.ajouter_joueur_a_equipe(99, 1), Err(ErreurRecrutement::JoueurIntrouvable));
    assert_eq!(etat.ajouter_joueur_a_equipe(0, 9), Err(ErreurRecrutement::EquipeIntrouvable));
}

#[test]
fn test_selection_titulaires_auto() {
    let mut equipe = Equipe::new(7, "Septieme");
    let mut blesse_id = 0;
    for (i, j) in sfm_core::effectif::creer_joueurs_reels().into_iter().enumerate() {
        if i < 8 {
            let mut j = j;
            if i == 0 {
                j.blesse = true;
                blesse_id = j.id;
            }
            let _ = equipe.ajouter_joueur(j);
        }
    }
    equipe.selectionner_titulaires_auto();
    let titulaires = equipe.get_titulaires();
    assert_eq!(titulaires.len(), 5);
    assert!(titulaires.iter().all(|j| !j.blesse && !j.suspendu));
    assert!(titulaires.iter().all(|j| j.id != blesse_id), "un blesse n'entre jamais");
    assert_eq!(
        titulaires.iter().filter(|j| matches!(j.position_actuelle, Position::Gardien)).count(),
        1,
        "exactement un gardien"
    );
}

#[test]
fn test_points_et_difference() {
    let mut e = Equipe::new(3, "Trois");
    e.victoires = 4;
    e.nuls = 2;
    e.defaites = 1;
    e.buts_marques = 9;
    e.buts_encaisses = 12;
    assert_eq!(e.points(), 14);
    assert_eq!(e.difference_buts(), -3);
}

#[test]
fn test_entrainement_et_repos() {
    let mut e = Equipe::new(4, "Quatre");
    let mut j = Joueur::new(
        1,
        "Cobaye",
        ScientificDomain::Chimie,
        Position::Milieu,
        PlayerStats::new(50_000, 50_000, 50_000, 50_000, 50_000, 50_000, 50_000, 50_000, 50_000),
    );
    j.stamina = 10_000;
    j.forme = 900;
    j.moral = 900;
    let _ = e.ajouter_joueur(j);
    e.entrainement();
    assert_eq!(e.joueurs[0].forme, 930);
    assert_eq!(e.joueurs[0].stamina, 30_000);
    e.repos_equipe();
    assert_eq!(e.joueurs[0].stamina, e.joueurs[0].stamina_max);
    assert_eq!(e.joueurs[0].moral, 950);
}

#[test]
fn test_formations() {
    assert_eq!(Formation::F121.get_positions_requises().len(), 5);
    assert_eq!(Formation::F112.get_positions_requises()[4], Position::Attaquant);
    assert_eq!(Formation::F211.get_positions_requises()[2], Position::Defenseur);
    assert_eq!(Formation::F1111.get_positions_requises()[0], Position::Gardien);
}

#[test]
fn test_retirer_joueur() {
    let mut e = Equipe::new(5, "Cinq");
    let j = Joueur::new(
        77,
        "Partant",
        ScientificDomain::Chimie,
        Position::Milieu,
        PlayerStats::new(50_000, 50_000, 50_000, 50_000, 50_000, 50_000, 50_000, 50_000, 50_000),
    );
    let _ = e.ajouter_joueur(j);
    assert!(e.retirer_joueur(99).is_none());
    let retire = e.retirer_joueur(77);
    assert_eq!(retire.unwrap().id, 77);
    assert!(e.joueurs.is_empty());
}

#[test]
fn test_inventaire_power_ups() {
    let mut inv = InventairePowerUp::new(2);
    assert!(!inv.est_plein());
    assert!(inv.ajouter(TypePowerUp::VitesseQuantique));
    assert!(inv.ajouter(TypePowerUp::TrouNoir));
    assert!(!inv.ajouter(TypePowerUp::EMC2), "l'inventaire plein refuse");
    assert!(inv.est_plein());
    assert_eq!(inv.utiliser(5), None);
    assert_eq!(inv.utiliser(0), Some(TypePowerUp::VitesseQuantique));
    assert_eq!(inv.disponibles.len(), 1);
}

#[test]
fn test_power_up_actif() {
    let mut actif = PowerUpActif::new(TypePowerUp::TheorieDuTout, 3);
    assert_eq!(actif.temps_restant, 10_000);
    assert!(actif.est_actif());
    assert!(actif.mise_a_jour(4_000));
    assert_eq!(actif.temps_restant, 6_000);
    assert!(!actif.mise_a_jour(9_000));
    assert_eq!(actif.temps_restant, 0);
    assert!(!actif.est_actif());
}

#[test]
fn test_raretes_et_durees() {
    assert_eq!(TypePowerUp::VitesseQuantique.get_rarete(), Rarete::Commun);
    assert_eq!(TypePowerUp::TrouNoir.get_rarete(), Rarete::PeuCommun);
    assert_eq!(TypePowerUp::EMC2.get_rarete(), Rarete::Epique);
    assert_eq!(TypePowerUp::TheorieDuTout.get_rarete(), Rarete::Legendaire);
    assert_eq!(TypePowerUp::Photosynthese.get_duree(), 60_000);
}

#[test]
fn test_power_up_aleatoire() {
    let mut fixe = GenerateurAlea::Sequence(vec![0, 0], 0);
    assert_eq!(TypePowerUp::generer_aleatoire(&mut fixe), TypePowerUp::VitesseQuantique);
    let mut rare = GenerateurAlea::Sequence(vec![999_999, 1], 0);
    assert_eq!(TypePowerUp::generer_aleatoire(&mut rare), TypePowerUp::TheorieDuTout);
    let mut vrai = GenerateurAlea::Systeme;
    let _ = TypePowerUp::generer_aleatoire(&mut vrai);
}

#[test]
fn test_capacite_speciale() {
    let mut c = CapaciteSpeciale::new("Essai", "Une capacite d'essai", 10_000);
    assert!(c.est_disponible());
    assert!(c.utiliser());
    assert!(!c.est_disponible());
    assert!(!c.utiliser());
    c.mise_a_jour(10_000);
    assert!(c.est_disponible());
    assert!(!c.actif);
}

#[test]
fn test_chimie_paires() {
    // Two fielded players of perfectly compatible domains reach the
    // chemistry cap; two of the same domain sit at 0.72.
    let mut parfaits = Equipe::new(11, "Synergie");
    let mut a = Joueur::new(1, "A", ScientificDomain::Informatique, Position::Milieu,
        PlayerStats::new(50_000, 50_000, 50_000, 50_000, 50_000, 50_000, 50_000, 50_000, 50_000));
    a.sur_le_terrain = true;
    let mut b = Joueur::new(2, "B", ScientificDomain::Mathematiques, Position::Milieu,
        PlayerStats::new(50_000, 50_000, 50_000, 50_000, 50_000, 50_000, 50_000, 50_000, 50_000));
    b.sur_le_terrain = true;
    let _ = parfaits.ajouter_joueur(a);
    let _ = parfaits.ajouter_joueur(b);
    assert_eq!(parfaits.chimie, 1000);

    let mut memes = Equipe::new(12, "Concurrence");
    let mut c = Joueur::new(1, "C", ScientificDomain::Chimie, Position::Milieu,
        PlayerStats::new(50_000, 50_000, 50_000, 50_000, 50_000, 50_000, 50_000, 50_000, 50_000));
    c.sur_le_terrain = true;
    let mut d = Joueur::new(2, "D", ScientificDomain::Chimie, Position::Milieu,
        PlayerStats::new(50_000, 50_000, 50_000, 50_000, 50_000, 50_000, 50_000, 50_000, 50_000));
    d.sur_le_terrain = true;
    let _ = memes.ajouter_joueur(c);
    let _ = memes.ajouter_joueur(d);
    assert_eq!(memes.chimie, 720);
}

#[test]
fn test_note_equipe_vide() {
    let e = Equipe::new(13, "Vide");
    assert_eq!(e.note_equipe(), 0);
}

#[test]
fn test_equipe_complete_refuse() {
    let mut etat = EtatJeu::default();
    for _ in 0..10 {
        assert_eq!(etat.ajouter_joueur_a_equipe(0, 1), Ok(()));
    }
    assert_eq!(etat.ajouter_joueur_a_equipe(0, 1), Err(ErreurRecrutement::EquipeComplete));
}

#[test]
fn test_effectif_complet_refuse() {
    let mut e = Equipe::new(6, "Six");
    for id in 0..15u32 {
        let j = Joueur::new(id, "N", ScientificDomain::Chimie, Position::Milieu,
            PlayerStats::new(50_000, 50_000, 50_000, 50_000, 50_000, 50_000, 50_000, 50_000, 50_000));
        assert_eq!(e.ajouter_joueur(j), Ok(()));
    }
    let de_trop = Joueur::new(16, "Trop", ScientificDomain::Chimie, Position::Milieu,
        PlayerStats::new(50_000, 50_000, 50_000, 50_000, 50_000, 50_000, 50_000, 50_000, 50_000));
    assert_eq!(e.ajouter_joueur(de_trop), Err(sfm_core::equipe::ErreurEffectif::EffectifComplet));
    assert_eq!(e.joueurs.len(), 15);
}
