//! Scientific domains of the players: per-attribute multipliers and the
//! pairwise compatibility that drives team chemistry.
//!
//! Multipliers and compatibilities are fixed-point values in thousandths:
//! 1000 stands for a neutral factor of one.

use vstd::prelude::*;

verus! {

/// Scientific domain a player belongs to.
#[derive(Debug, Clone, Copy, PartialEq, Eq, Hash, Structural)]
pub enum ScientificDomain {
    Informatique,
    PhysiqueMecanique,
    BiologieChimie,
    PhysiqueChimie,
    Mathematiques,
    Electronique,
    BiologieMedecine,
    Chimie,
    MathematiquesBancaire,
    AidesSubventions,
    Cyberscurite,
    ElectroniqueBancaire,
    AgroalimentaireGeologie,
}

/// Multipliers a domain applies to the base attributes, in thousandths.
#[derive(Debug, Clone, Copy, PartialEq, Eq, Structural)]
pub struct DomainBonus {
    pub speed: u64,
    pub strength: u64,
    pub precision: u64,
    pub endurance: u64,
    pub intelligence: u64,
    pub creativity: u64,
    pub defense: u64,
    pub attack: u64,
    pub heading: u64,
}

impl DomainBonus {
    /// Every multiplier of the table lies between 0.6 and 1.6.
    pub open spec fn borne(&self) -> bool {
        &&& 600 <= self.speed <= 1600
        &&& 600 <= self.strength <= 1600
        &&& 600 <= self.precision <= 1600
        &&& 600 <= self.endurance <= 1600
        &&& 600 <= self.intelligence <= 1600
        &&& 600 <= self.creativity <= 1600
        &&& 600 <= self.defense <= 1600
        &&& 600 <= self.attack <= 1600
        &&& 600 <= self.heading <= 1600
    }
}

/// Compatibility of two domains, in thousandths: perfect synergies reach
/// 1000, the same domain competes at 600, anything else sits at 500.
pub open spec fn compatibilite(a: ScientificDomain, b: ScientificDomain) -> u64 {
    if (a is Informatique && b is Mathematiques) || (a is Mathematiques && b is Informatique) {
        1000
    } else if (a is BiologieChimie && b is Chimie) || (a is Chimie && b is BiologieChimie) {
        1000
    } else if (a is PhysiqueMecanique && b is PhysiqueChimie) || (a is PhysiqueChimie
        && b is PhysiqueMecanique) {
        1000
    } else if (a is Electronique && b is ElectroniqueBancaire) || (a is ElectroniqueBancaire
        && b is Electronique) {
        1000
    } else if (a is MathematiquesBancaire && b is ElectroniqueBancaire) || (
    a is ElectroniqueBancaire && b is MathematiquesBancaire) {
        950
    } else if (a is BiologieMedecine && b is BiologieChimie) || (a is BiologieChimie
        && b is BiologieMedecine) {
        900
    } else if (a is Cyberscurite && b is Informatique) || (a is Informatique
        && b is Cyberscurite) {
        900
    } else if (a is PhysiqueChimie && b is Chimie) || (a is Chimie && b is PhysiqueChimie) {
        850
    } else if (a is AgroalimentaireGeologie && b is BiologieChimie) || (a is BiologieChimie
        && b is AgroalimentaireGeologie) {
        800
    } else if (a is AidesSubventions && b is MathematiquesBancaire) || (
    a is MathematiquesBancaire && b is AidesSubventions) {
        850
    } else if a == b {
        600
    } else {
        500
    }
}

/// The compatibility of two domains does not depend on their order.
pub proof fn lemma_compatibilite_symetrique(a: ScientificDomain, b: ScientificDomain)
    ensures
        compatibilite(a, b) == compatibilite(b, a),
{
}

/// Attribute multipliers of each domain, in thousandths.
pub open spec fn domain_bonus_spec(d: ScientificDomain) -> DomainBonus {
    match d {
            ScientificDomain::Informatique => DomainBonus {
                speed: 1100,
                strength: 1200,
                precision: 850,
                endurance: 1050,
                intelligence: 1400,
                creativity: 1200,
                defense: 1150,
                attack: 950,
                heading: 1100,
            },
            ScientificDomain::PhysiqueMecanique => DomainBonus {
                speed: 1100,
                strength: 1300,
                precision: 1350,
                endurance: 1250,
                intelligence: 1100,
                creativity: 1000,
                defense: 750,
                attack: 1400,
                heading: 1000,
            },
            ScientificDomain::BiologieChimie => DomainBonus {
                speed: 1200,
                strength: 900,
                precision: 1200,
                endurance: 750,
                intelligence: 1100,
                creativity: 1400,
                defense: 900,
                attack: 1200,
                heading: 900,
            },
            ScientificDomain::PhysiqueChimie => DomainBonus {
                speed: 1100,
                strength: 1150,
                precision: 1250,
                endurance: 1100,
                intelligence: 1200,
                creativity: 1200,
                defense: 1200,
                attack: 1200,
                heading: 1000,
            },
            ScientificDomain::Mathematiques => DomainBonus {
                speed: 1300,
                strength: 1000,
                precision: 900,
                endurance: 1200,
                intelligence: 1500,
                creativity: 850,
                defense: 1300,
                attack: 900,
                heading: 1000,
            },
            ScientificDomain::Electronique => DomainBonus {
                speed: 1150,
                strength: 1100,
                precision: 1200,
                endurance: 1250,
                intelligence: 1200,
                creativity: 1100,
                defense: 900,
                attack: 1100,
                heading: 1300,
            },
            ScientificDomain::BiologieMedecine => DomainBonus {
                speed: 800,
                strength: 1300,
                precision: 1250,
                endurance: 1300,
                intelligence: 1100,
                creativity: 1000,
                defense: 1000,
                attack: 1200,
                heading: 1000,
            },
            ScientificDomain::Chimie => DomainBonus {
                speed: 850,
                strength: 1000,
                precision: 1100,
                endurance: 1000,
                intelligence: 1200,
                creativity: 1400,
                defense: 1150,
                attack: 1250,
                heading: 1000,
            },
            ScientificDomain::MathematiquesBancaire => DomainBonus {
                speed: 1100,
                strength: 850,
                precision: 1200,
                endurance: 1250,
                intelligence: 1350,
                creativity: 1300,
                defense: 1000,
                attack: 1300,
                heading: 1000,
            },
            ScientificDomain::AidesSubventions => DomainBonus {
                speed: 800,
                strength: 1100,
                precision: 1200,
                endurance: 1000,
                intelligence: 1100,
                creativity: 1500,
                defense: 1150,
                attack: 1350,
                heading: 1200,
            },
            ScientificDomain::Cyberscurite => DomainBonus {
                speed: 1000,
                strength: 1400,
                precision: 750,
                endurance: 1100,
                intelligence: 1300,
                creativity: 900,
                defense: 1600,
                attack: 600,
                heading: 1300,
            },
            ScientificDomain::ElectroniqueBancaire => DomainBonus {
                speed: 1400,
                strength: 1100,
                precision: 750,
                endurance: 1000,
                intelligence: 1100,
                creativity: 1350,
                defense: 1100,
                attack: 1200,
                heading: 1000,
            },
            ScientificDomain::AgroalimentaireGeologie => DomainBonus {
                speed: 1350,
                strength: 1100,
                precision: 800,
                endurance: 1300,
                intelligence: 850,
                creativity: 1000,
                defense: 1300,
                attack: 850,
                heading: 1000,
            },
        }
}

impl ScientificDomain {
    pub fn get_name(&self) -> &'static str {
        match self {
            ScientificDomain::Informatique => "Informatique",
            ScientificDomain::PhysiqueMecanique => "Physique & Mécanique",
            ScientificDomain::BiologieChimie => "Biologie & Chimie",
            ScientificDomain::PhysiqueChimie => "Physique & Chimie",
            ScientificDomain::Mathematiques => "Mathématiques",
            ScientificDomain::Electronique => "Électronique",
            ScientificDomain::BiologieMedecine => "Biologie & Médecine",
            ScientificDomain::Chimie => "Chimie",
            ScientificDomain::MathematiquesBancaire => "Mathématiques & Bancaire",
            ScientificDomain::AidesSubventions => "Aides directes & Subventions",
            ScientificDomain::Cyberscurite => "Cybersécurité",
            ScientificDomain::ElectroniqueBancaire => "Électronique & Bancaire",
            ScientificDomain::AgroalimentaireGeologie => "Agroalimentaire & Géologie",
        }
    }

    pub fn get_description(&self) -> &'static str {
        match self {
            ScientificDomain::Informatique => "Algorithmes et traitement de l'information. Anticipation et jeu collectif.",
            ScientificDomain::PhysiqueMecanique => "Maîtrise des forces et lois du mouvement. Puissance balistique.",
            ScientificDomain::BiologieChimie => "Agilité cellulaire et réactions précises. Dribbles et contrôle.",
            ScientificDomain::PhysiqueChimie => "Équilibre parfait entre puissance et précision. Polyvalence totale.",
            ScientificDomain::Mathematiques => "Calculs tactiques parfaits. Géométrie du jeu.",
            ScientificDomain::Electronique => "Réactivité des circuits. Précision et coordination.",
            ScientificDomain::BiologieMedecine => "Endurance biologique et récupération rapide. Puissance organique.",
            ScientificDomain::Chimie => "Réactions catalytiques. Créativité et déstabilisation.",
            ScientificDomain::MathematiquesBancaire => "Analyse stratégique et gestion du risque. Jeu créatif.",
            ScientificDomain::AidesSubventions => "Distribution de ressources. Jeu flamboyant et généreux.",
            ScientificDomain::Cyberscurite => "Défense impénétrable et contre-mesures actives.",
            ScientificDomain::ElectroniqueBancaire => "Explosivité et optimisation des ressources.",
            ScientificDomain::AgroalimentaireGeologie => "Endurance terrestre et récupération des ressources.",
        }
    }

    /// Attribute multipliers of the domain, in thousandths.
    pub fn get_domain_bonus(&self) -> (r: DomainBonus)
        ensures
            r == domain_bonus_spec(*self),
            r.borne(),
    {
        match self {
            ScientificDomain::Informatique => DomainBonus {
                speed: 1100,
                strength: 1200,
                precision: 850,
                endurance: 1050,
                intelligence: 1400,
                creativity: 1200,
                defense: 1150,
                attack: 950,
                heading: 1100,
            },
            ScientificDomain::PhysiqueMecanique => DomainBonus {
                speed: 1100,
                strength: 1300,
                precision: 1350,
                endurance: 1250,
                intelligence: 1100,
                creativity: 1000,
                defense: 750,
                attack: 1400,
                heading: 1000,
            },
            ScientificDomain::BiologieChimie => DomainBonus {
                speed: 1200,
                strength: 900,
                precision: 1200,
                endurance: 750,
                intelligence: 1100,
                creativity: 1400,
                defense: 900,
                attack: 1200,
                heading: 900,
            },
            ScientificDomain::PhysiqueChimie => DomainBonus {
                speed: 1100,
                strength: 1150,
                precision: 1250,
                endurance: 1100,
                intelligence: 1200,
                creativity: 1200,
                defense: 1200,
                attack: 1200,
                heading: 1000,
            },
            ScientificDomain::Mathematiques => DomainBonus {
                speed: 1300,
                strength: 1000,
                precision: 900,
                endurance: 1200,
                intelligence: 1500,
                creativity: 850,
                defense: 1300,
                attack: 900,
                heading: 1000,
            },
            ScientificDomain::Electronique => DomainBonus {
                speed: 1150,
                strength: 1100,
                precision: 1200,
                endurance: 1250,
                intelligence: 1200,
                creativity: 1100,
                defense: 900,
                attack: 1100,
                heading: 1300,
            },
            ScientificDomain::BiologieMedecine => DomainBonus {
                speed: 800,
                strength: 1300,
                precision: 1250,
                endurance: 1300,
                intelligence: 1100,
                creativity: 1000,
                defense: 1000,
                attack: 1200,
                heading: 1000,
            },
            ScientificDomain::Chimie => DomainBonus {
                speed: 850,
                strength: 1000,
                precision: 1100,
                endurance: 1000,
                intelligence: 1200,
                creativity: 1400,
                defense: 1150,
                attack: 1250,
                heading: 1000,
            },
            ScientificDomain::MathematiquesBancaire => DomainBonus {
                speed: 1100,
                strength: 850,
                precision: 1200,
                endurance: 1250,
                intelligence: 1350,
                creativity: 1300,
                defense: 1000,
                attack: 1300,
                heading: 1000,
            },
            ScientificDomain::AidesSubventions => DomainBonus {
                speed: 800,
                strength: 1100,
                precision: 1200,
                endurance: 1000,
                intelligence: 1100,
                creativity: 1500,
                defense: 1150,
                attack: 1350,
                heading: 1200,
            },
            ScientificDomain::Cyberscurite => DomainBonus {
                speed: 1000,
                strength: 1400,
                precision: 750,
                endurance: 1100,
                intelligence: 1300,
                creativity: 900,
                defense: 1600,
                attack: 600,
                heading: 1300,
            },
            ScientificDomain::ElectroniqueBancaire => DomainBonus {
                speed: 1400,
                strength: 1100,
                precision: 750,
                endurance: 1000,
                intelligence: 1100,
                creativity: 1350,
                defense: 1100,
                attack: 1200,
                heading: 1000,
            },
            ScientificDomain::AgroalimentaireGeologie => DomainBonus {
                speed: 1350,
                strength: 1100,
                precision: 800,
                endurance: 1300,
                intelligence: 850,
                creativity: 1000,
                defense: 1300,
                attack: 850,
                heading: 1000,
            },
        }
    }

    /// Compatibility of two domains for team chemistry, in thousandths.
    pub fn compatibility_with(&self, other: &ScientificDomain) -> (r: u64)
        ensures
            r == compatibilite(*self, *other),
            500 <= r <= 1000,
    {
        let a = *self;
        let b = *other;
        match (a, b) {
            (ScientificDomain::Informatique, ScientificDomain::Mathematiques)
            | (ScientificDomain::Mathematiques, ScientificDomain::Informatique) => 1000,
            (ScientificDomain::BiologieChimie, ScientificDomain::Chimie)
            | (ScientificDomain::Chimie, ScientificDomain::BiologieChimie) => 1000,
            (ScientificDomain::PhysiqueMecanique, ScientificDomain::PhysiqueChimie)
            | (ScientificDomain::PhysiqueChimie, ScientificDomain::PhysiqueMecanique) => 1000,
            (ScientificDomain::Electronique, ScientificDomain::ElectroniqueBancaire)
            | (ScientificDomain::ElectroniqueBancaire, ScientificDomain::Electronique) => 1000,
            (ScientificDomain::MathematiquesBancaire, ScientificDomain::ElectroniqueBancaire)
            | (ScientificDomain::ElectroniqueBancaire, ScientificDomain::MathematiquesBancaire) => 950,
            (ScientificDomain::BiologieMedecine, ScientificDomain::BiologieChimie)
            | (ScientificDomain::BiologieChimie, ScientificDomain::BiologieMedecine) => 900,
            (ScientificDomain::Cyberscurite, ScientificDomain::Informatique)
            | (ScientificDomain::Informatique, ScientificDomain::Cyberscurite) => 900,
            (ScientificDomain::PhysiqueChimie, ScientificDomain::Chimie)
            | (ScientificDomain::Chimie, ScientificDomain::PhysiqueChimie) => 850,
            (ScientificDomain::AgroalimentaireGeologie, ScientificDomain::BiologieChimie)
            | (ScientificDomain::BiologieChimie, ScientificDomain::AgroalimentaireGeologie) => 800,
            (ScientificDomain::AidesSubventions, ScientificDomain::MathematiquesBancaire)
            | (ScientificDomain::MathematiquesBancaire, ScientificDomain::AidesSubventions) => 850,
            _ => {
                if a == b {
                    600
                } else {
                    500
                }
            },
        }
    }
}

} // verus!
