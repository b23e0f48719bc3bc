//! Players: attributes, physical state and career counters.
//!
//! Attributes, stamina, form and morale are fixed-point values in
//! thousandths: an attribute lies in [0, 99000] (0.0 to 99.0 points),
//! form and morale in [500, 1500] (0.5 to 1.5).

use vstd::prelude::*;
use crate::domaine::{DomainBonus, ScientificDomain, domain_bonus_spec};

verus! {

/// Highest value an attribute can take, in thousandths (99 points).
pub const STAT_MAX: u64 = 99_000;

/// Highest value a player's overall rating can take, in thousandths.
pub const NOTE_MAX: u64 = 250_000;

/// Numeric attributes of a player, in thousandths of a point.
#[derive(Debug, Clone, Copy, PartialEq, Eq, Structural)]
pub struct PlayerStats {
    pub vitesse: u64,
    pub force: u64,
    pub precision: u64,
    pub endurance: u64,
    pub intelligence: u64,
    pub creativite: u64,
    pub defense: u64,
    pub attaque: u64,
    pub jeu_de_tete: u64,
}

/// One attribute after a multiplier in thousandths, capped at `STAT_MAX`.
pub open spec fn stat_ajustee(v: u64, facteur: u64) -> u64 {
    if v * facteur / 1000 > STAT_MAX {
        STAT_MAX
    } else {
        (v * facteur / 1000) as u64
    }
}

/// All attributes after the multipliers of a domain, each capped.
pub open spec fn stats_ajustees(s: PlayerStats, b: DomainBonus) -> PlayerStats {
    PlayerStats {
        vitesse: stat_ajustee(s.vitesse, b.speed),
        force: stat_ajustee(s.force, b.strength),
        precision: stat_ajustee(s.precision, b.precision),
        endurance: stat_ajustee(s.endurance, b.endurance),
        intelligence: stat_ajustee(s.intelligence, b.intelligence),
        creativite: stat_ajustee(s.creativite, b.creativity),
        defense: stat_ajustee(s.defense, b.defense),
        attaque: stat_ajustee(s.attaque, b.attack),
        jeu_de_tete: stat_ajustee(s.jeu_de_tete, b.heading),
    }
}

impl PlayerStats {
    /// Every attribute is at most `b`.
    pub open spec fn bornees(&self, b: u64) -> bool {
        &&& self.vitesse <= b
        &&& self.force <= b
        &&& self.precision <= b
        &&& self.endurance <= b
        &&& self.intelligence <= b
        &&& self.creativite <= b
        &&& self.defense <= b
        &&& self.attaque <= b
        &&& self.jeu_de_tete <= b
    }

    /// Sum of the nine attributes.
    pub open spec fn somme(&self) -> int {
        self.vitesse + self.force + self.precision + self.endurance + self.intelligence
            + self.creativite + self.defense + self.attaque + self.jeu_de_tete
    }

    pub fn new(
        vitesse: u64,
        force: u64,
        precision: u64,
        endurance: u64,
        intelligence: u64,
        creativite: u64,
        defense: u64,
        attaque: u64,
        jeu_de_tete: u64,
    ) -> (r: Self)
        ensures
            r == (PlayerStats {
                vitesse,
                force,
                precision,
                endurance,
                intelligence,
                creativite,
                defense,
                attaque,
                jeu_de_tete,
            }),
    {
        Self { vitesse, force, precision, endurance, intelligence, creativite, defense, attaque, jeu_de_tete }
    }

    /// Overall rating: the mean of the nine attributes, in thousandths.
    pub fn note_globale(&self) -> (r: u64)
        requires
            self.bornees(STAT_MAX),
        ensures
            r == self.somme() / 9,
            r <= STAT_MAX,
    {
        (self.vitesse + self.force + self.precision + self.endurance + self.intelligence
            + self.creativite + self.defense + self.attaque + self.jeu_de_tete) / 9
    }

    /// Attributes after the multipliers of a scientific domain, each
    /// capped at `STAT_MAX`.
    pub fn appliquer_bonus_domaine(&self, domaine: &ScientificDomain) -> (r: Self)
        requires
            self.bornees(STAT_MAX),
        ensures
            r == stats_ajustees(*self, domain_bonus_spec(*domaine)),
            r.bornees(STAT_MAX),
    {
        let bonus = domaine.get_domain_bonus();
        Self {
            vitesse: ajuster(self.vitesse, bonus.speed),
            force: ajuster(self.force, bonus.strength),
            precision: ajuster(self.precision, bonus.precision),
            endurance: ajuster(self.endurance, bonus.endurance),
            intelligence: ajuster(self.intelligence, bonus.intelligence),
            creativite: ajuster(self.creativite, bonus.creativity),
            defense: ajuster(self.defense, bonus.defense),
            attaque: ajuster(self.attaque, bonus.attack),
            jeu_de_tete: ajuster(self.jeu_de_tete, bonus.heading),
        }
    }
}

fn ajuster(v: u64, facteur: u64) -> (r: u64)
    requires
        v <= STAT_MAX,
        facteur <= 1600,
    ensures
        r == stat_ajustee(v, facteur),
        r <= STAT_MAX,
{
    proof {
        borne_mul_div(v as int, facteur as int, STAT_MAX as int, 1600, 1000);
    }
    let produit = (v * facteur) / 1000;
    if produit > STAT_MAX {
        STAT_MAX
    } else {
        produit
    }
}

/// Position of a player on the pitch.
#[derive(Debug, Clone, Copy, PartialEq, Eq, Structural)]
pub enum Position {
    Gardien,
    Defenseur,
    Milieu,
    Attaquant,
}

impl Position {
    pub fn get_name(&self) -> (r: &'static str)
        ensures
            *self is Gardien ==> r@ == "Gardien"@,
            *self is Defenseur ==> r@ == "Défenseur"@,
            *self is Milieu ==> r@ == "Milieu"@,
            *self is Attaquant ==> r@ == "Attaquant"@,
    {
        match self {
            Position::Gardien => "Gardien",
            Position::Defenseur => "Défenseur",
            Position::Milieu => "Milieu",
            Position::Attaquant => "Attaquant",
        }
    }

    /// Positional multiplier, in thousandths: neutral for every position.
    pub fn get_bonus_multiplicateur(&self) -> (r: u64)
        ensures
            r == 1000,
    {
        match self {
            Position::Gardien => 1000,
            Position::Defenseur => 1000,
            Position::Milieu => 1000,
            Position::Attaquant => 1000,
        }
    }
}

/// Special ability tied to a player's domain; cooldown in milliseconds.
#[derive(Debug)]
pub struct CapaciteSpeciale {
    pub nom: String,
    pub description: String,
    pub cooldown_max: u64,
    pub cooldown_actuel: u64,
    pub actif: bool,
}

impl CapaciteSpeciale {
    pub fn new(nom: &str, description: &str, cooldown: u64) -> (r: Self)
        ensures
            r.nom@ == nom@,
            r.description@ == description@,
            r.cooldown_max == cooldown,
            r.cooldown_actuel == 0,
            !r.actif,
    {
        Self {
            nom: nom.to_owned(),
            description: description.to_owned(),
            cooldown_max: cooldown,
            cooldown_actuel: 0,
            actif: false,
        }
    }

    pub fn est_disponible(&self) -> (r: bool)
        ensures
            r == (self.cooldown_actuel == 0),
    {
        self.cooldown_actuel == 0
    }

    /// Trigger the ability if off cooldown; says whether it fired.
    pub fn utiliser(&mut self) -> (r: bool)
        ensures
            r == (old(self).cooldown_actuel == 0),
            r ==> *final(self) == (CapaciteSpeciale {
                cooldown_actuel: old(self).cooldown_max,
                actif: true,
                ..*old(self)
            }),
            !r ==> *final(self) == *old(self),
    {
        if self.cooldown_actuel == 0 {
            self.cooldown_actuel = self.cooldown_max;
            self.actif = true;
            true
        } else {
            false
        }
    }

    /// Advance the cooldown by `delta` milliseconds; the ability switches
    /// off once the cooldown runs out.
    pub fn mise_a_jour(&mut self, delta: u64)
        ensures
            final(self).cooldown_actuel == if delta >= old(self).cooldown_actuel {
                0u64
            } else {
                (old(self).cooldown_actuel - delta) as u64
            },
            final(self).actif == (final(self).cooldown_actuel > 0 && old(self).actif),
            final(self).nom == old(self).nom,
            final(self).description == old(self).description,
            final(self).cooldown_max == old(self).cooldown_max,
    {
        if delta >= self.cooldown_actuel {
            self.cooldown_actuel = 0;
        } else {
            self.cooldown_actuel = self.cooldown_actuel - delta;
        }
        if self.cooldown_actuel == 0 {
            self.actif = false;
        }
    }
}

/// Personality trait of a player: a named effect on the simulation.
#[derive(Debug)]
pub struct TraitPersonnalite {
    pub nom: String,
    pub description: String,
    pub effet: String,
}

/// A player: identity, attributes, physical state, career counters.
#[derive(Debug)]
pub struct Joueur {
    pub id: u32,
    pub prenom: String,
    pub domaine: ScientificDomain,
    pub position_preferee: Position,
    pub position_actuelle: Position,
    pub stats_base: PlayerStats,
    pub stats_effectives: PlayerStats,
    pub niveau: u32,
    pub experience: u64,
    pub stamina: u64,
    pub stamina_max: u64,
    pub forme: u64,
    pub moral: u64,
    pub buts: u64,
    pub passes_decisives: u64,
    pub matchs_joues: u64,
    pub cartons_jaunes: u64,
    pub cartons_rouges: u64,
    pub sur_le_terrain: bool,
    pub blesse: bool,
    pub suspendu: bool,
    pub capacite_speciale: CapaciteSpeciale,
    pub traits: Vec<TraitPersonnalite>,
}

/// `n + 1` unless the counter is already full.
pub open spec fn incr_u64(n: u64) -> u64 {
    if n == u64::MAX {
        n
    } else {
        (n + 1) as u64
    }
}

/// `n + m` capped at the largest representable value.
pub open spec fn ajout_sature(n: u64, m: u64) -> u64 {
    if n + m > u64::MAX {
        u64::MAX
    } else {
        (n + m) as u64
    }
}

/// Morale or form raised by `d`, capped at 1.5 (1500 thousandths).
pub open spec fn hausse_bornee(v: u64, d: u64) -> u64 {
    if v + d > 1500 {
        1500u64
    } else {
        (v + d) as u64
    }
}

/// Morale or form lowered by `d`, floored at 0.5 (500 thousandths).
pub open spec fn baisse_bornee(v: u64, d: u64) -> u64 {
    if v < 500 + d {
        500u64
    } else {
        (v - d) as u64
    }
}

/// One base attribute raised by 0.3 points at a level-up, capped at 95.
pub open spec fn stat_montee(v: u64) -> u64 {
    if v + 300 > 95_000 {
        95_000u64
    } else {
        (v + 300) as u64
    }
}

/// State of a player after the level-up check: when the accumulated
/// experience reaches level x 1000, the level rises, the threshold is
/// deducted, three base attributes improve slightly and the effective
/// attributes are recomputed.
pub open spec fn montee_niveau_spec(j: Joueur) -> Joueur {
    let requise = j.niveau * 1000;
    if j.experience >= requise {
        let base = PlayerStats {
            vitesse: stat_montee(j.stats_base.vitesse),
            precision: stat_montee(j.stats_base.precision),
            endurance: stat_montee(j.stats_base.endurance),
            ..j.stats_base
        };
        Joueur {
            niveau: if j.niveau == u32::MAX {
                j.niveau
            } else {
                (j.niveau + 1) as u32
            },
            experience: (j.experience - requise) as u64,
            stats_base: base,
            stats_effectives: stats_ajustees(base, domain_bonus_spec(j.domaine)),
            ..j
        }
    } else {
        j
    }
}

/// State of a player after scoring a goal: career goals and experience
/// rise, morale rises capped, then the level-up check runs.
pub open spec fn apres_but_spec(j: Joueur) -> Joueur {
    montee_niveau_spec(
        Joueur {
            buts: incr_u64(j.buts),
            experience: ajout_sature(j.experience, 100),
            moral: hausse_bornee(j.moral, 50),
            ..j
        },
    )
}

/// State of a player after an assist: career assists and experience
/// rise, then the level-up check runs.
pub open spec fn apres_passe_spec(j: Joueur) -> Joueur {
    montee_niveau_spec(
        Joueur { passes_decisives: incr_u64(j.passes_decisives), experience: ajout_sature(j.experience, 50), ..j },
    )
}

/// State of a player after spending `montant` of stamina: stamina is
/// floored at zero, and deep fatigue (below 15 points) erodes form.
pub open spec fn stamina_consommee_spec(j: Joueur, montant: u64) -> Joueur {
    let stamina = if montant >= j.stamina {
        0u64
    } else {
        (j.stamina - montant) as u64
    };
    let forme = if stamina < 15_000 {
        baisse_bornee(j.forme, 2)
    } else {
        j.forme
    };
    Joueur { stamina, forme, ..j }
}

/// State of a player after recovering `montant` of stamina, capped at
/// the player's maximum.
pub open spec fn stamina_recuperee_spec(j: Joueur, montant: u64) -> Joueur {
    let stamina = if j.stamina + montant >= j.stamina_max {
        j.stamina_max
    } else {
        (j.stamina + montant) as u64
    };
    Joueur { stamina, ..j }
}

impl Joueur {
    /// Well-formedness: form and morale within [0.5, 1.5], stamina within
    /// its maximum, a positive bounded maximum, attributes within 99.
    pub open spec fn valide(&self) -> bool {
        &&& 500 <= self.forme <= 1500
        &&& 500 <= self.moral <= 1500
        &&& self.stamina <= self.stamina_max
        &&& 1 <= self.stamina_max <= 200_000
        &&& self.stats_base.bornees(STAT_MAX)
        &&& self.stats_effectives.bornees(STAT_MAX)
    }

    pub fn new(
        id: u32,
        prenom: &str,
        domaine: ScientificDomain,
        position: Position,
        stats_base: PlayerStats,
    ) -> (r: Self)
        requires
            stats_base.bornees(STAT_MAX),
        ensures
            r.valide(),
            r.id == id,
            r.prenom@ == prenom@,
            r.domaine == domaine,
            r.position_preferee == position,
            r.position_actuelle == position,
            r.stats_base == stats_base,
            r.stats_effectives == stats_ajustees(stats_base, domain_bonus_spec(domaine)),
            r.niveau == 1,
            r.experience == 0,
            r.stamina_max == 80_000 + stats_base.endurance / 5,
            r.stamina == r.stamina_max,
            r.forme == 1000,
            r.moral == 1000,
            r.buts == 0,
            r.passes_decisives == 0,
            r.matchs_joues == 0,
            r.cartons_jaunes == 0,
            r.cartons_rouges == 0,
            !r.sur_le_terrain,
            !r.blesse,
            !r.suspendu,
            r.traits@.len() == 0,
    {
        let stats_effectives = stats_base.appliquer_bonus_domaine(&domaine);
        let stamina_max = 80_000 + stats_base.endurance / 5;
        let capacite = Self::get_capacite_pour_domaine(&domaine);
        Self {
            id,
            prenom: prenom.to_owned(),
            domaine,
            position_preferee: position,
            position_actuelle: position,
            stats_base,
            stats_effectives,
            niveau: 1,
            experience: 0,
            stamina: stamina_max,
            stamina_max,
            forme: 1000,
            moral: 1000,
            buts: 0,
            passes_decisives: 0,
            matchs_joues: 0,
            cartons_jaunes: 0,
            cartons_rouges: 0,
            sur_le_terrain: false,
            blesse: false,
            suspendu: false,
            capacite_speciale: capacite,
            traits: Vec::new(),
        }
    }

    /// Overall rating: mean of the effective attributes, scaled by form,
    /// morale, and the stamina ratio floored at one half. In thousandths.
    pub open spec fn note_globale_spec(&self) -> int {
        let base = self.stats_effectives.somme() / 9;
        let ratio = self.stamina * 1000 / (self.stamina_max as int);
        let ratio_borne = if ratio >= 500 {
            ratio
        } else {
            500
        };
        base * self.forme / 1000 * self.moral / 1000 * ratio_borne / 1000
    }

    pub fn note_globale(&self) -> (r: u64)
        requires
            self.valide(),
        ensures
            r == self.note_globale_spec(),
            r <= NOTE_MAX,
    {
        let base = self.stats_effectives.note_globale();
        proof {
            borne_mul_div(self.stamina as int, 1000, 200_000, 1000, self.stamina_max as int);
            vstd::arithmetic::div_mod::lemma_div_is_ordered(
                self.stamina * 1000,
                self.stamina_max * 1000,
                self.stamina_max as int,
            );
            assert(self.stamina * 1000 <= self.stamina_max * 1000) by (nonlinear_arith)
                requires
                    self.stamina <= self.stamina_max,
            ;
            vstd::arithmetic::div_mod::lemma_div_multiples_vanish(
                1000,
                self.stamina_max as int,
            );
        }
        let ratio = self.stamina * 1000 / self.stamina_max;
        assert(ratio <= 1000);
        let ratio_borne = if ratio >= 500 {
            ratio
        } else {
            500
        };
        proof {
            borne_mul_div(base as int, self.forme as int, STAT_MAX as int, 1500, 1000);
        }
        let a = base * self.forme / 1000;
        proof {
            borne_mul_div(a as int, self.moral as int, 148_500, 1500, 1000);
        }
        let b = a * self.moral / 1000;
        proof {
            borne_mul_div(b as int, ratio_borne as int, 222_750, 1000, 1000);
        }
        let c = b * ratio_borne / 1000;
        c
    }

    /// Spend stamina; deep fatigue erodes form.
    pub fn consommer_stamina(&mut self, montant: u64)
        requires
            old(self).valide(),
        ensures
            *final(self) == stamina_consommee_spec(*old(self), montant),
            final(self).valide(),
    {
        if montant >= self.stamina {
            self.stamina = 0;
        } else {
            self.stamina = self.stamina - montant;
        }
        if self.stamina < 15_000 {
            if self.forme >= 502 {
                self.forme = self.forme - 2;
            } else {
                self.forme = 500;
            }
        }
    }

    /// Recover stamina, capped at the maximum.
    pub fn recuperer_stamina(&mut self, montant: u64)
        requires
            old(self).valide(),
        ensures
            *final(self) == stamina_recuperee_spec(*old(self), montant),
            final(self).valide(),
    {
        if montant >= self.stamina_max - self.stamina {
            self.stamina = self.stamina_max;
        } else {
            self.stamina = self.stamina + montant;
        }
    }

    /// Record a goal: career counter, experience, morale, level-up check.
    pub fn marquer_but(&mut self)
        requires
            old(self).valide(),
        ensures
            *final(self) == apres_but_spec(*old(self)),
            final(self).valide(),
    {
        self.buts = self.buts.saturating_add(1);
        self.experience = self.experience.saturating_add(100);
        if self.moral + 50 > 1500 {
            self.moral = 1500;
        } else {
            self.moral = self.moral + 50;
        }
        self.verifier_montee_niveau();
    }

    /// Record an assist: career counter, experience, level-up check.
    pub fn faire_passe_decisive(&mut self)
        requires
            old(self).valide(),
        ensures
            *final(self) == apres_passe_spec(*old(self)),
            final(self).valide(),
    {
        self.passes_decisives = self.passes_decisives.saturating_add(1);
        self.experience = self.experience.saturating_add(50);
        self.verifier_montee_niveau();
    }

    fn verifier_montee_niveau(&mut self)
        requires
            old(self).valide(),
        ensures
            *final(self) == montee_niveau_spec(*old(self)),
            final(self).valide(),
    {
        let requise = (self.niveau as u64) * 1000;
        if self.experience >= requise {
            if self.niveau < u32::MAX {
                self.niveau = self.niveau + 1;
            }
            self.experience = self.experience - requise;
            self.stats_base.vitesse = monter_stat(self.stats_base.vitesse);
            self.stats_base.precision = monter_stat(self.stats_base.precision);
            self.stats_base.endurance = monter_stat(self.stats_base.endurance);
            self.stats_effectives = self.stats_base.appliquer_bonus_domaine(&self.domaine);
        }
    }

    /// Whether the player can enter the pitch.
    pub fn est_disponible(&self) -> (r: bool)
        ensures
            r == (!self.blesse && !self.suspendu),
    {
        !self.blesse && !self.suspendu
    }

    fn get_capacite_pour_domaine(domaine: &ScientificDomain) -> (r: CapaciteSpeciale)
        ensures
            r.cooldown_actuel == 0,
            !r.actif,
    {
        match domaine {
            ScientificDomain::Informatique => CapaciteSpeciale::new(
                "Anticipation Algorithmique",
                "Prédit les mouvements adverses grâce aux algorithmes. +40% intelligence pendant 20s.",
                40_000,
            ),
            ScientificDomain::PhysiqueMecanique => CapaciteSpeciale::new(
                "Tir Balistique",
                "Calcule la trajectoire parfaite pour un tir imparable. Puissance x2.",
                35_000,
            ),
            ScientificDomain::BiologieChimie => CapaciteSpeciale::new(
                "Dribble Cellulaire",
                "Réactions chimiques ultra-rapides permettant des dribbles fulgurants.",
                25_000,
            ),
            ScientificDomain::PhysiqueChimie => CapaciteSpeciale::new(
                "Équilibre Parfait",
                "Synthèse physico-chimique : tous les attributs boostés de 20% pendant 15s.",
                45_000,
            ),
            ScientificDomain::Mathematiques => CapaciteSpeciale::new(
                "Géométrie du Jeu",
                "Calcule l'angle parfait pour la passe ou le tir. Précision maximale pendant 25s.",
                35_000,
            ),
            ScientificDomain::Electronique => CapaciteSpeciale::new(
                "Circuit Intégré",
                "Réactivité électronique : vitesse et coordination maximales pendant 20s.",
                30_000,
            ),
            ScientificDomain::BiologieMedecine => CapaciteSpeciale::new(
                "Adrénali-Shot",
                "Injection d'adrénaline : force et endurance x1.8 pendant 15s.",
                40_000,
            ),
            ScientificDomain::Chimie => CapaciteSpeciale::new(
                "Catalyseur",
                "Accélère les réactions de l'équipe. Tout l'équipe +15% vitesse pendant 30s.",
                50_000,
            ),
            ScientificDomain::MathematiquesBancaire => CapaciteSpeciale::new(
                "ROI Optimal",
                "Calcul du retour sur investissement tactique. +30% efficacité offensive.",
                40_000,
            ),
            ScientificDomain::AidesSubventions => CapaciteSpeciale::new(
                "Volée Flamboyante",
                "Reprise de volée spectaculaire, inattendue et imparable.",
                30_000,
            ),
            ScientificDomain::Cyberscurite => CapaciteSpeciale::new(
                "Pare-feu Défensif",
                "Défense impénétrable : toutes les attaques adverses bloquées pendant 20s.",
                45_000,
            ),
            ScientificDomain::ElectroniqueBancaire => CapaciteSpeciale::new(
                "Sprint Overclocked",
                "Overdrive électronique : vitesse x2.5 pendant 10s.",
                35_000,
            ),
            ScientificDomain::AgroalimentaireGeologie => CapaciteSpeciale::new(
                "Pressing Tellurique",
                "Récupération de balle intensifiée, force de la nature. +50% récupération.",
                30_000,
            ),
        }
    }
}

impl Clone for TraitPersonnalite {
    /// A clone is equal to the original.
    fn clone(&self) -> (r: Self)
        ensures
            r == *self,
    {
        TraitPersonnalite {
            nom: self.nom.clone(),
            description: self.description.clone(),
            effet: self.effet.clone(),
        }
    }
}

impl Clone for CapaciteSpeciale {
    /// A clone is equal to the original.
    fn clone(&self) -> (r: Self)
        ensures
            r == *self,
    {
        CapaciteSpeciale {
            nom: self.nom.clone(),
            description: self.description.clone(),
            cooldown_max: self.cooldown_max,
            cooldown_actuel: self.cooldown_actuel,
            actif: self.actif,
        }
    }
}

/// `b` agrees with `a` on every field; the lists of traits agree
/// element for element.
pub open spec fn meme_joueur(a: Joueur, b: Joueur) -> bool {
    &&& b == (Joueur { traits: b.traits, ..a })
    &&& b.traits@ == a.traits@
}

impl Clone for Joueur {
    /// A clone agrees with the original on every field, the list of
    /// traits included (element for element).
    fn clone(&self) -> (r: Self)
        ensures
            meme_joueur(*self, r),
    {
        let mut traits: Vec<TraitPersonnalite> = Vec::new();
        let mut i: usize = 0;
        while i < self.traits.len()
            invariant
                i <= self.traits@.len(),
                traits@.len() == i,
                forall|k: int| 0 <= k < i ==> traits@[k] == self.traits@[k],
            decreases self.traits@.len() - i,
        {
            traits.push(self.traits[i].clone());
            i = i + 1;
        }
        proof {
            assert(traits@ =~= self.traits@);
        }
        Joueur {
            id: self.id,
            prenom: self.prenom.clone(),
            domaine: self.domaine,
            position_preferee: self.position_preferee,
            position_actuelle: self.position_actuelle,
            stats_base: self.stats_base,
            stats_effectives: self.stats_effectives,
            niveau: self.niveau,
            experience: self.experience,
            stamina: self.stamina,
            stamina_max: self.stamina_max,
            forme: self.forme,
            moral: self.moral,
            buts: self.buts,
            passes_decisives: self.passes_decisives,
            matchs_joues: self.matchs_joues,
            cartons_jaunes: self.cartons_jaunes,
            cartons_rouges: self.cartons_rouges,
            sur_le_terrain: self.sur_le_terrain,
            blesse: self.blesse,
            suspendu: self.suspendu,
            capacite_speciale: self.capacite_speciale.clone(),
            traits,
        }
    }
}

fn monter_stat(v: u64) -> (r: u64)
    requires
        v <= STAT_MAX,
    ensures
        r == stat_montee(v),
{
    if v + 300 > 95_000 {
        95_000
    } else {
        v + 300
    }
}

/// If `0 <= x <= b` then `x / d <= b / d`.
proof fn borne_div(x: int, d: int, b: int)
    requires
        0 <= x <= b,
        d >= 1,
    ensures
        x / d <= b / d,
{
    vstd::arithmetic::div_mod::lemma_div_is_ordered(x, b, d);
}

/// Bounded product over a bounded divisor: `x * y / d <= bx * by / d`.
pub proof fn borne_mul_div_pub(x: int, y: int, bx: int, by: int, d: int)
    requires
        0 <= x <= bx,
        0 <= y <= by,
        d >= 1,
    ensures
        x * y / d <= bx * by / d,
        x * y >= 0,
{
    borne_mul_div(x, y, bx, by, d);
}

/// Bounded product over a bounded divisor: `x * y / d <= bx * by / d`.
proof fn borne_mul_div(x: int, y: int, bx: int, by: int, d: int)
    requires
        0 <= x <= bx,
        0 <= y <= by,
        d >= 1,
    ensures
        x * y / d <= bx * by / d,
        x * y >= 0,
{
    assert(x * y <= bx * by) by (nonlinear_arith)
        requires
            0 <= x <= bx,
            0 <= y <= by,
    ;
    assert(x * y >= 0) by (nonlinear_arith)
        requires
            0 <= x,
            0 <= y,
    ;
    vstd::arithmetic::div_mod::lemma_div_is_ordered(x * y, bx * by, d);
}

} // verus!
