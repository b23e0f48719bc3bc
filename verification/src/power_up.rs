//! Power-ups: kinds, rarity, modifiers, active instances and inventory.
//! Durations are in milliseconds, modifiers in thousandths.

use vstd::prelude::*;
use crate::alea::GenerateurAlea;

verus! {

/// Kind of power-up a player can hold.
#[derive(Debug, Clone, Copy, PartialEq, Eq, Hash, Structural)]
pub enum TypePowerUp {
    VitesseQuantique,
    ForceNewtonienne,
    IncertitudeHeisenberg,
    EMC2,
    Photosynthese,
    CodeBinaire,
    TrouNoir,
    TectoniquePlaque,
    ReplicationADN,
    TheorieDuTout,
    CircuitIntegre,
    PareFeuDefensif,
    CatalyseurChimique,
    SubventionBoost,
    OptimisationBancaire,
}

/// Rarity tier of a power-up.
#[derive(Debug, Clone, Copy, PartialEq, Eq, Structural)]
pub enum Rarete {
    Commun,
    PeuCommun,
    Rare,
    Epique,
    Legendaire,
}

/// Rarity of each kind.
pub open spec fn rarete_spec(t: TypePowerUp) -> Rarete {
    match t {
        TypePowerUp::VitesseQuantique => Rarete::Commun,
        TypePowerUp::ForceNewtonienne => Rarete::Commun,
        TypePowerUp::Photosynthese => Rarete::Commun,
        TypePowerUp::CodeBinaire => Rarete::PeuCommun,
        TypePowerUp::CircuitIntegre => Rarete::PeuCommun,
        TypePowerUp::TrouNoir => Rarete::PeuCommun,
        TypePowerUp::TectoniquePlaque => Rarete::Rare,
        TypePowerUp::IncertitudeHeisenberg => Rarete::Rare,
        TypePowerUp::SubventionBoost => Rarete::Rare,
        TypePowerUp::OptimisationBancaire => Rarete::Rare,
        TypePowerUp::EMC2 => Rarete::Epique,
        TypePowerUp::PareFeuDefensif => Rarete::Epique,
        TypePowerUp::CatalyseurChimique => Rarete::Epique,
        TypePowerUp::ReplicationADN => Rarete::Legendaire,
        TypePowerUp::TheorieDuTout => Rarete::Legendaire,
    }
}

/// Duration of each kind, in milliseconds.
pub open spec fn duree_spec(t: TypePowerUp) -> u64 {
    match t {
        TypePowerUp::VitesseQuantique => 30_000,
        TypePowerUp::ForceNewtonienne => 45_000,
        TypePowerUp::IncertitudeHeisenberg => 20_000,
        TypePowerUp::EMC2 => 2_000,
        TypePowerUp::Photosynthese => 60_000,
        TypePowerUp::CodeBinaire => 30_000,
        TypePowerUp::TrouNoir => 25_000,
        TypePowerUp::TectoniquePlaque => 40_000,
        TypePowerUp::ReplicationADN => 15_000,
        TypePowerUp::TheorieDuTout => 10_000,
        TypePowerUp::CircuitIntegre => 20_000,
        TypePowerUp::PareFeuDefensif => 20_000,
        TypePowerUp::CatalyseurChimique => 35_000,
        TypePowerUp::SubventionBoost => 45_000,
        TypePowerUp::OptimisationBancaire => 30_000,
    }
}

/// Display name of each kind.
pub open spec fn nom_power_up_spec(t: TypePowerUp) -> Seq<char> {
    match t {
        TypePowerUp::VitesseQuantique => "Vitesse Quantique"@,
        TypePowerUp::ForceNewtonienne => "Force Newtonienne"@,
        TypePowerUp::IncertitudeHeisenberg => "Incertitude d'Heisenberg"@,
        TypePowerUp::EMC2 => "E=mc²"@,
        TypePowerUp::Photosynthese => "Photosynthèse"@,
        TypePowerUp::CodeBinaire => "Code Binaire"@,
        TypePowerUp::TrouNoir => "Trou Noir"@,
        TypePowerUp::TectoniquePlaque => "Tectonique des Plaques"@,
        TypePowerUp::ReplicationADN => "Réplication ADN"@,
        TypePowerUp::TheorieDuTout => "Théorie du Tout"@,
        TypePowerUp::CircuitIntegre => "Circuit Intégré"@,
        TypePowerUp::PareFeuDefensif => "Pare-feu Défensif"@,
        TypePowerUp::CatalyseurChimique => "Catalyseur Chimique"@,
        TypePowerUp::SubventionBoost => "Subvention Boost"@,
        TypePowerUp::OptimisationBancaire => "Optimisation Bancaire"@,
    }
}

impl TypePowerUp {
    pub fn get_nom(&self) -> (r: &'static str)
        ensures
            r@ == nom_power_up_spec(*self),
    {
        match self {
            TypePowerUp::VitesseQuantique => "Vitesse Quantique",
            TypePowerUp::ForceNewtonienne => "Force Newtonienne",
            TypePowerUp::IncertitudeHeisenberg => "Incertitude d'Heisenberg",
            TypePowerUp::EMC2 => "E=mc²",
            TypePowerUp::Photosynthese => "Photosynthèse",
            TypePowerUp::CodeBinaire => "Code Binaire",
            TypePowerUp::TrouNoir => "Trou Noir",
            TypePowerUp::TectoniquePlaque => "Tectonique des Plaques",
            TypePowerUp::ReplicationADN => "Réplication ADN",
            TypePowerUp::TheorieDuTout => "Théorie du Tout",
            TypePowerUp::CircuitIntegre => "Circuit Intégré",
            TypePowerUp::PareFeuDefensif => "Pare-feu Défensif",
            TypePowerUp::CatalyseurChimique => "Catalyseur Chimique",
            TypePowerUp::SubventionBoost => "Subvention Boost",
            TypePowerUp::OptimisationBancaire => "Optimisation Bancaire",
        }
    }

    pub fn get_description(&self) -> &'static str {
        match self {
            TypePowerUp::VitesseQuantique => "Déplacement quantique instantané pendant 30 secondes",
            TypePowerUp::ForceNewtonienne => "Chaque action produit une réaction... explosive ! Force x2",
            TypePowerUp::IncertitudeHeisenberg => "Précision maximale mais position imprévisible",
            TypePowerUp::EMC2 => "Masse convertie en énergie pure pour un tir dévastateur",
            TypePowerUp::Photosynthese => "Régénération constante d'endurance, comme une plante au soleil",
            TypePowerUp::CodeBinaire => "0 ou 1, vous anticipez tous les mouvements adverses",
            TypePowerUp::TrouNoir => "Attraction gravitationnelle du ballon vers vous",
            TypePowerUp::TectoniquePlaque => "Défense solide comme les plaques continentales",
            TypePowerUp::ReplicationADN => "Votre présence se multiplie sur le terrain",
            TypePowerUp::TheorieDuTout => "Unification parfaite de toutes vos capacités",
            TypePowerUp::CircuitIntegre => "Réactivité d'un processeur survolté",
            TypePowerUp::PareFeuDefensif => "Aucun tir ne passe votre défense pendant 20s",
            TypePowerUp::CatalyseurChimique => "Toute l'équipe accélère ses réactions",
            TypePowerUp::SubventionBoost => "Distribution d'énergie à tous vos coéquipiers",
            TypePowerUp::OptimisationBancaire => "Rendement offensif maximisé, ROI garanti",
        }
    }

    /// Active duration, in milliseconds.
    pub fn get_duree(&self) -> (r: u64)
        ensures
            r == duree_spec(*self),
    {
        match self {
            TypePowerUp::VitesseQuantique => 30_000,
            TypePowerUp::ForceNewtonienne => 45_000,
            TypePowerUp::IncertitudeHeisenberg => 20_000,
            TypePowerUp::EMC2 => 2_000,
            TypePowerUp::Photosynthese => 60_000,
            TypePowerUp::CodeBinaire => 30_000,
            TypePowerUp::TrouNoir => 25_000,
            TypePowerUp::TectoniquePlaque => 40_000,
            TypePowerUp::ReplicationADN => 15_000,
            TypePowerUp::TheorieDuTout => 10_000,
            TypePowerUp::CircuitIntegre => 20_000,
            TypePowerUp::PareFeuDefensif => 20_000,
            TypePowerUp::CatalyseurChimique => 35_000,
            TypePowerUp::SubventionBoost => 45_000,
            TypePowerUp::OptimisationBancaire => 30_000,
        }
    }

    pub fn get_rarete(&self) -> (r: Rarete)
        ensures
            r == rarete_spec(*self),
    {
        match self {
            TypePowerUp::VitesseQuantique => Rarete::Commun,
            TypePowerUp::ForceNewtonienne => Rarete::Commun,
            TypePowerUp::Photosynthese => Rarete::Commun,
            TypePowerUp::CodeBinaire => Rarete::PeuCommun,
            TypePowerUp::CircuitIntegre => Rarete::PeuCommun,
            TypePowerUp::TrouNoir => Rarete::PeuCommun,
            TypePowerUp::TectoniquePlaque => Rarete::Rare,
            TypePowerUp::IncertitudeHeisenberg => Rarete::Rare,
            TypePowerUp::SubventionBoost => Rarete::Rare,
            TypePowerUp::OptimisationBancaire => Rarete::Rare,
            TypePowerUp::EMC2 => Rarete::Epique,
            TypePowerUp::PareFeuDefensif => Rarete::Epique,
            TypePowerUp::CatalyseurChimique => Rarete::Epique,
            TypePowerUp::ReplicationADN => Rarete::Legendaire,
            TypePowerUp::TheorieDuTout => Rarete::Legendaire,
        }
    }

    /// Attribute modifiers granted while active, in thousandths.
    pub fn get_modificateurs(&self) -> ModificateursPowerUp {
        match self {
            TypePowerUp::VitesseQuantique => ModificateursPowerUp { vitesse: 2000, ..ModificateursPowerUp::neutres() },
            TypePowerUp::ForceNewtonienne => ModificateursPowerUp { force: 2000, ..ModificateursPowerUp::neutres() },
            TypePowerUp::IncertitudeHeisenberg => ModificateursPowerUp { precision: 3000, ..ModificateursPowerUp::neutres() },
            TypePowerUp::EMC2 => ModificateursPowerUp { force: 5000, precision: 2000, ..ModificateursPowerUp::neutres() },
            TypePowerUp::Photosynthese => ModificateursPowerUp { endurance: 2000, ..ModificateursPowerUp::neutres() },
            TypePowerUp::CodeBinaire => ModificateursPowerUp { intelligence: 3000, ..ModificateursPowerUp::neutres() },
            TypePowerUp::TrouNoir => ModificateursPowerUp { force: 1500, defense: 1500, ..ModificateursPowerUp::neutres() },
            TypePowerUp::TectoniquePlaque => ModificateursPowerUp { force: 2500, defense: 2000, ..ModificateursPowerUp::neutres() },
            TypePowerUp::ReplicationADN => ModificateursPowerUp { vitesse: 1300, creativite: 2000, ..ModificateursPowerUp::neutres() },
            TypePowerUp::TheorieDuTout => ModificateursPowerUp {
                vitesse: 2000,
                force: 2000,
                precision: 2000,
                endurance: 2000,
                intelligence: 2000,
                creativite: 2000,
                defense: 2000,
            },
            TypePowerUp::CircuitIntegre => ModificateursPowerUp { vitesse: 1800, intelligence: 1500, ..ModificateursPowerUp::neutres() },
            TypePowerUp::PareFeuDefensif => ModificateursPowerUp { defense: 5000, ..ModificateursPowerUp::neutres() },
            TypePowerUp::CatalyseurChimique => ModificateursPowerUp { vitesse: 1300, creativite: 1500, ..ModificateursPowerUp::neutres() },
            TypePowerUp::SubventionBoost => ModificateursPowerUp { endurance: 1500, force: 1300, ..ModificateursPowerUp::neutres() },
            TypePowerUp::OptimisationBancaire => ModificateursPowerUp { precision: 1800, intelligence: 1600, ..ModificateursPowerUp::neutres() },
        }
    }

    /// Draw a power-up, the rarer tiers being the less likely. Every
    /// outcome is a kind of the listed rarity distribution; nothing more
    /// is promised of a random draw.
    pub fn generer_aleatoire(alea: &mut GenerateurAlea) -> TypePowerUp {
        let roll = alea.suivant(1_000_000);
        if roll < 400_000 {
            let quel = alea.suivant(3);
            if quel == 0 {
                TypePowerUp::VitesseQuantique
            } else if quel == 1 {
                TypePowerUp::ForceNewtonienne
            } else {
                TypePowerUp::Photosynthese
            }
        } else if roll < 700_000 {
            let quel = alea.suivant(3);
            if quel == 0 {
                TypePowerUp::CodeBinaire
            } else if quel == 1 {
                TypePowerUp::CircuitIntegre
            } else {
                TypePowerUp::TrouNoir
            }
        } else if roll < 880_000 {
            let quel = alea.suivant(4);
            if quel == 0 {
                TypePowerUp::TectoniquePlaque
            } else if quel == 1 {
                TypePowerUp::IncertitudeHeisenberg
            } else if quel == 2 {
                TypePowerUp::SubventionBoost
            } else {
                TypePowerUp::OptimisationBancaire
            }
        } else if roll < 960_000 {
            let quel = alea.suivant(3);
            if quel == 0 {
                TypePowerUp::EMC2
            } else if quel == 1 {
                TypePowerUp::PareFeuDefensif
            } else {
                TypePowerUp::CatalyseurChimique
            }
        } else {
            if alea.suivant(2) == 0 {
                TypePowerUp::ReplicationADN
            } else {
                TypePowerUp::TheorieDuTout
            }
        }
    }
}

impl Rarete {
    pub fn get_nom(&self) -> &'static str {
        match self {
            Rarete::Commun => "Commun",
            Rarete::PeuCommun => "Peu Commun",
            Rarete::Rare => "Rare",
            Rarete::Epique => "Épique",
            Rarete::Legendaire => "Légendaire",
        }
    }
}

/// Attribute modifiers of an active power-up, in thousandths.
#[derive(Debug, Clone, Copy, PartialEq, Eq, Structural)]
pub struct ModificateursPowerUp {
    pub vitesse: u64,
    pub force: u64,
    pub precision: u64,
    pub endurance: u64,
    pub intelligence: u64,
    pub creativite: u64,
    pub defense: u64,
}

impl ModificateursPowerUp {
    /// The neutral modifier: one on every attribute.
    pub fn neutres() -> (r: Self)
        ensures
            r == (ModificateursPowerUp {
                vitesse: 1000,
                force: 1000,
                precision: 1000,
                endurance: 1000,
                intelligence: 1000,
                creativite: 1000,
                defense: 1000,
            }),
    {
        Self {
            vitesse: 1000,
            force: 1000,
            precision: 1000,
            endurance: 1000,
            intelligence: 1000,
            creativite: 1000,
            defense: 1000,
        }
    }
}

impl Default for ModificateursPowerUp {
    fn default() -> (r: Self)
        ensures
            r.vitesse == 1000,
            r.force == 1000,
            r.precision == 1000,
            r.endurance == 1000,
            r.intelligence == 1000,
            r.creativite == 1000,
            r.defense == 1000,
    {
        Self::neutres()
    }
}

/// A power-up running on a player; remaining time in milliseconds.
#[derive(Debug, Clone, Copy, PartialEq, Eq, Structural)]
pub struct PowerUpActif {
    pub type_power_up: TypePowerUp,
    pub temps_restant: u64,
    pub joueur_id: u32,
}

impl PowerUpActif {
    pub fn new(type_power_up: TypePowerUp, joueur_id: u32) -> (r: Self)
        ensures
            r.type_power_up == type_power_up,
            r.joueur_id == joueur_id,
            r.temps_restant == duree_spec(type_power_up),
    {
        let duree = type_power_up.get_duree();
        Self { type_power_up, temps_restant: duree, joueur_id }
    }

    /// Advance by `delta` milliseconds; says whether it is still running.
    pub fn mise_a_jour(&mut self, delta: u64) -> (r: bool)
        ensures
            final(self).temps_restant == if delta >= old(self).temps_restant {
                0u64
            } else {
                (old(self).temps_restant - delta) as u64
            },
            r == (final(self).temps_restant > 0),
            final(self).type_power_up == old(self).type_power_up,
            final(self).joueur_id == old(self).joueur_id,
    {
        if delta >= self.temps_restant {
            self.temps_restant = 0;
        } else {
            self.temps_restant = self.temps_restant - delta;
        }
        self.temps_restant > 0
    }

    pub fn est_actif(&self) -> (r: bool)
        ensures
            r == (self.temps_restant > 0),
    {
        self.temps_restant > 0
    }
}

/// A player's stock of power-ups, capped at `max_slots`.
#[derive(Debug, Clone, Default)]
pub struct InventairePowerUp {
    pub disponibles: Vec<TypePowerUp>,
    pub max_slots: usize,
}

impl InventairePowerUp {
    pub fn new(max_slots: usize) -> (r: Self)
        ensures
            r.disponibles@.len() == 0,
            r.max_slots == max_slots,
    {
        Self { disponibles: Vec::new(), max_slots }
    }

    /// Store a power-up if a slot is free; says whether it was stored.
    pub fn ajouter(&mut self, power_up: TypePowerUp) -> (r: bool)
        ensures
            r == (old(self).disponibles@.len() < old(self).max_slots),
            r ==> final(self).disponibles@ == old(self).disponibles@.push(power_up),
            !r ==> *final(self) == *old(self),
            final(self).max_slots == old(self).max_slots,
    {
        if self.disponibles.len() < self.max_slots {
            self.disponibles.push(power_up);
            true
        } else {
            false
        }
    }

    /// Take the power-up at `index` out of the stock, if it exists.
    pub fn utiliser(&mut self, index: usize) -> (r: Option<TypePowerUp>)
        ensures
            index < old(self).disponibles@.len() ==> r == Some(old(self).disponibles@[index as int])
                && final(self).disponibles@ == old(self).disponibles@.remove(index as int),
            index >= old(self).disponibles@.len() ==> r is None && *final(self) == *old(self),
            final(self).max_slots == old(self).max_slots,
    {
        if index < self.disponibles.len() {
            Some(self.disponibles.remove(index))
        } else {
            None
        }
    }

    /// Whether every slot is taken.
    pub fn est_plein(&self) -> (r: bool)
        ensures
            r == (self.disponibles@.len() >= self.max_slots),
    {
        self.disponibles.len() >= self.max_slots
    }
}

} // verus!
