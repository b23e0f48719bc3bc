//! The real fifteen-player squad, with each player's base attributes
//! (in thousandths of a point) and personality traits.

use vstd::prelude::*;
use crate::domaine::ScientificDomain;
use crate::joueur::{Joueur, PlayerStats, Position, TraitPersonnalite};

verus! {

fn trait_simple(nom: &str, description: &str, effet: &str) -> (r: TraitPersonnalite)
    ensures
        r.nom@ == nom@,
{
    TraitPersonnalite { nom: nom.to_owned(), description: description.to_owned(), effet: effet.to_owned() }
}

/// Build the full squad of fifteen players, each with a distinct
/// identifier from 1 to 15 and a well-formed state.
pub fn creer_joueurs_reels() -> (r: Vec<Joueur>)
    ensures
        r@.len() == 15,
        forall|k: int| 0 <= k < 15 ==> r@[k].valide(),
        forall|k: int| 0 <= k < 15 ==> r@[k].id == k + 1,
        r@[0].prenom@ == "Roland"@,
        r@[1].prenom@ == "Loïc"@,
        r@[2].prenom@ == "David"@,
        r@[3].prenom@ == "Thibault"@,
        r@[4].prenom@ == "Henry"@,
        r@[5].prenom@ == "Romain"@,
        r@[6].prenom@ == "Théo"@,
        r@[7].prenom@ == "Franck"@,
        r@[8].prenom@ == "Aurélien"@,
        r@[9].prenom@ == "Lucien"@,
        r@[10].prenom@ == "Joffrey"@,
        r@[11].prenom@ == "Yacine"@,
        r@[12].prenom@ == "Djilani"@,
        r@[13].prenom@ == "Médéric"@,
        r@[14].prenom@ == "Guillaume"@,
{
    let mut joueurs: Vec<Joueur> = Vec::new();

    let mut roland = Joueur::new(
        1,
        "Roland",
        ScientificDomain::Informatique,
        Position::Defenseur,
        PlayerStats::new(72_000, 82_000, 58_000, 74_000, 78_000, 65_000, 76_000, 52_000, 75_000),
    );
    roland.traits.push(
        trait_simple(
            "Jeu Physique",
            "Utilise sa stature pour dominer physiquement",
            "Force +10%",
        ),
    );
    roland.traits.push(
        trait_simple(
            "Frappe Approximative",
            "Peut rater des occasions devant le but",
            "Précision tir -15%",
        ),
    );
    joueurs.push(roland);

    let mut loic = Joueur::new(
        2,
        "Loïc",
        ScientificDomain::PhysiqueMecanique,
        Position::Attaquant,
        PlayerStats::new(76_000, 78_000, 88_000, 82_000, 74_000, 68_000, 52_000, 90_000, 72_000),
    );
    loic.traits.push(
        trait_simple("Finisseur Net", "Excellente précision devant le gardien", "Précision tir +20%"),
    );
    loic.traits.push(trait_simple("Droitier Dominant", "Pied droit exceptionnel", "Tirs droite +15%"));
    joueurs.push(loic);

    let mut david = Joueur::new(
        3,
        "David",
        ScientificDomain::BiologieChimie,
        Position::Attaquant,
        PlayerStats::new(82_000, 68_000, 78_000, 58_000, 72_000, 88_000, 62_000, 80_000, 65_000),
    );
    david.traits.push(
        trait_simple("Ailier Virtuose", "Maître du dribble et des petits ponts", "Dribble +25%"),
    );
    david.traits.push(
        trait_simple("Cardio Limité", "S'essouffle rapidement après les efforts", "Stamina -20%"),
    );
    david.stamina_max = david.stamina_max * 8 / 10;
    if david.stamina_max == 0 {
        david.stamina_max = 1;
    }
    david.stamina = david.stamina_max;
    joueurs.push(david);

    let mut thibault = Joueur::new(
        4,
        "Thibault",
        ScientificDomain::PhysiqueChimie,
        Position::Milieu,
        PlayerStats::new(78_000, 76_000, 82_000, 76_000, 80_000, 80_000, 79_000, 79_000, 74_000),
    );
    thibault.traits.push(
        trait_simple(
            "Joueur Complet",
            "Excelle aussi bien en défense qu'en attaque",
            "Équilibre +10%",
        ),
    );
    joueurs.push(thibault);

    let mut henry = Joueur::new(
        5,
        "Henry",
        ScientificDomain::Informatique,
        Position::Defenseur,
        PlayerStats::new(68_000, 84_000, 52_000, 72_000, 80_000, 66_000, 86_000, 50_000, 90_000),
    );
    henry.traits.push(
        trait_simple("Très Grand", "Stature imposante, domine les airs", "Jeu de tête +20%"),
    );
    henry.traits.push(
        trait_simple("Présence Défensive", "Gêne physiquement les adversaires", "Défense +15%"),
    );
    henry.traits.push(
        trait_simple("Frappe Imprécise", "Difficultés à viser juste", "Précision tir -20%"),
    );
    joueurs.push(henry);

    let mut romain = Joueur::new(
        6,
        "Romain",
        ScientificDomain::Electronique,
        Position::Milieu,
        PlayerStats::new(74_000, 78_000, 74_000, 82_000, 78_000, 74_000, 68_000, 78_000, 84_000),
    );
    romain.traits.push(
        trait_simple("Très Grand", "Grande stature, jeu de tête impressionnant", "Jeu de tête +15%"),
    );
    romain.traits.push(
        trait_simple(
            "Réactivité Électronique",
            "Réactions ultrarapides comme un circuit",
            "Vitesse réaction +10%",
        ),
    );
    joueurs.push(romain);

    let mut theo = Joueur::new(
        7,
        "Théo",
        ScientificDomain::Mathematiques,
        Position::Milieu,
        PlayerStats::new(88_000, 74_000, 62_000, 84_000, 82_000, 58_000, 82_000, 68_000, 70_000),
    );
    theo.traits.push(
        trait_simple(
            "Runner Infatigable",
            "Court sans cesse, couvre tout le terrain",
            "Vitesse +10%, Endurance +15%",
        ),
    );
    theo.traits.push(
        trait_simple(
            "Charmeur d'Arbitre",
            "Tellement sympa que l'arbitre lui pardonne tout",
            "Chances carton jaune -30%",
        ),
    );
    joueurs.push(theo);

    let mut franck = Joueur::new(
        8,
        "Franck",
        ScientificDomain::BiologieMedecine,
        Position::Attaquant,
        PlayerStats::new(62_000, 86_000, 82_000, 82_000, 74_000, 74_000, 68_000, 84_000, 74_000),
    );
    franck.traits.push(
        trait_simple(
            "Frappe Médicale",
            "Puissance et précision anatomiquement calculées",
            "Puissance tir +20%, Précision +10%",
        ),
    );
    franck.traits.push(
        trait_simple("Manque de Vitesse", "La puissance prime sur la vitesse", "Vitesse -15%"),
    );
    joueurs.push(franck);

    let mut aurelien = Joueur::new(
        9,
        "Aurélien",
        ScientificDomain::Chimie,
        Position::Attaquant,
        PlayerStats::new(64_000, 72_000, 74_000, 72_000, 78_000, 86_000, 76_000, 80_000, 68_000),
    );
    aurelien.traits.push(
        trait_simple(
            "Provocateur Dosé",
            "Déstabilise les adversaires avec des provocations calculées",
            "Intelligence adversaire -10%",
        ),
    );
    aurelien.traits.push(
        trait_simple(
            "Appel en Profondeur",
            "Crée des espaces et exploite les ailes",
            "Placement offensif +15%",
        ),
    );
    joueurs.push(aurelien);

    let mut lucien = Joueur::new(
        10,
        "Lucien",
        ScientificDomain::Informatique,
        Position::Defenseur,
        PlayerStats::new(70_000, 82_000, 76_000, 74_000, 84_000, 72_000, 88_000, 54_000, 76_000),
    );
    lucien.traits.push(
        trait_simple(
            "Passeur Distribué",
            "Expert en systèmes distribués de passes de qualité",
            "Précision passes +20%",
        ),
    );
    lucien.traits.push(
        trait_simple(
            "Défenseur Fiable",
            "Efficace en défense, évite les remontées risquées",
            "Défense +15%, Retours défensifs -10%",
        ),
    );
    joueurs.push(lucien);

    let mut joffrey = Joueur::new(
        11,
        "Joffrey",
        ScientificDomain::MathematiquesBancaire,
        Position::Attaquant,
        PlayerStats::new(76_000, 62_000, 80_000, 82_000, 84_000, 82_000, 70_000, 82_000, 70_000),
    );
    joffrey.traits.push(
        trait_simple(
            "Créatif Stratégique",
            "Solutions inattendues et gestion optimale des ressources",
            "Créativité +15%",
        ),
    );
    joffrey.traits.push(
        trait_simple(
            "Léger Physiquement",
            "Difficultés à s'imposer face aux défenseurs costauds",
            "Force -15% face défenseurs puissants",
        ),
    );
    joueurs.push(joffrey);

    let mut yacine = Joueur::new(
        12,
        "Yacine",
        ScientificDomain::AidesSubventions,
        Position::Attaquant,
        PlayerStats::new(60_000, 76_000, 80_000, 74_000, 74_000, 88_000, 78_000, 86_000, 82_000),
    );
    yacine.traits.push(
        trait_simple(
            "Joueur Flamboyant",
            "Spectaculaire et imprévisible, l'artiste du terrain",
            "Reprises de volée +30%",
        ),
    );
    yacine.traits.push(
        trait_simple(
            "Présence en Défense",
            "Gêne efficacement les adversaires même en défense",
            "Défense -20% vs vitesse",
        ),
    );
    joueurs.push(yacine);

    let mut djilani = Joueur::new(
        13,
        "Djilani",
        ScientificDomain::Cyberscurite,
        Position::Defenseur,
        PlayerStats::new(72_000, 88_000, 50_000, 76_000, 82_000, 60_000, 96_000, 38_000, 84_000),
    );
    djilani.traits.push(
        trait_simple("Mur Défensif", "Défenseur d'élite, tacle net et sûr", "Défense +25%"),
    );
    djilani.traits.push(
        trait_simple("Attaque Limitée", "Ne monte pas facilement en attaque", "Attaque -20%"),
    );
    djilani.traits.push(
        trait_simple(
            "Gardien de Sécurité",
            "Aussi efficace entre les poteaux",
            "Peut jouer Gardien avec bonus",
        ),
    );
    joueurs.push(djilani);

    let mut mederic = Joueur::new(
        14,
        "Médéric",
        ScientificDomain::ElectroniqueBancaire,
        Position::Milieu,
        PlayerStats::new(88_000, 76_000, 62_000, 76_000, 74_000, 84_000, 74_000, 78_000, 72_000),
    );
    mederic.traits.push(
        trait_simple(
            "Explosivité Pure",
            "Sprints foudroyants digne d'un court-circuit",
            "Vitesse sprint +30%",
        ),
    );
    mederic.traits.push(
        trait_simple(
            "Mental Fragile",
            "Peut perdre ses moyens sous pression",
            "Moral peut baisser rapidement",
        ),
    );
    mederic.traits.push(
        trait_simple(
            "Frappe Imprécise",
            "Puissant mais imprecis sur les grosses frappes",
            "Precision tir puissant -20%",
        ),
    );
    joueurs.push(mederic);

    let mut guillaume = Joueur::new(
        15,
        "Guillaume",
        ScientificDomain::AgroalimentaireGeologie,
        Position::Milieu,
        PlayerStats::new(86_000, 74_000, 62_000, 84_000, 64_000, 70_000, 82_000, 62_000, 70_000),
    );
    guillaume.traits.push(
        trait_simple(
            "Machine à Courir",
            "Court sans relâche, couvre le terrain à la manière d'un tracteur",
            "Endurance +15%, Récupération de balle +20%",
        ),
    );
    guillaume.traits.push(
        trait_simple(
            "Vision Limitée",
            "Manque de vision du jeu, perd parfois le fil",
            "Intelligence de jeu -15%",
        ),
    );
    guillaume.traits.push(
        trait_simple(
            "Imprécis Devant le But",
            "La finition n'est pas son fort",
            "Précision tir -15%",
        ),
    );
    joueurs.push(guillaume);

    joueurs
}

} // verus!
