//! The match engine: clock and period state machine, continuous ball and
//! stamina simulation, stochastic event generation, and final
//! reconciliation of the two team records.
//!
//! Time is in milliseconds (the match lasts 1,200,000 ms, split at
//! 600,000), pitch coordinates in thousandths of a metre-unit
//! (x in [-50000, 50000], z in [-25000, 25000]), probabilities in parts
//! per billion per tick.

use vstd::prelude::*;
use vstd::string::StringExecFns;
use crate::alea::GenerateurAlea;
use crate::equipe::{Equipe, ErreurSubstitution, resultat_substitution};
use crate::joueur::{Joueur, Position, ajout_sature, incr_u64};
use crate::power_up::{TypePowerUp, nom_power_up_spec};
use crate::texte::{chiffres, chiffres_pad2, decimal, decimal_pad2};

verus! {

/// Length of a whole match, in milliseconds.
pub const DUREE_MATCH_MS: u64 = 1_200_000;

/// Time of the half-time break, in milliseconds.
pub const MI_TEMPS_MS: u64 = 600_000;

/// Largest simulation-speed multiplier, in thousandths.
pub const VITESSE_MAX: u64 = 100_000;

/// Largest clock advance one tick can make: the largest delta times the
/// largest speed multiplier.
pub const AVANCE_MAX: u64 = 429_496_729_500;

/// Phase of a match. The order is strictly forward: first half,
/// half-time break, second half, finished.
#[derive(Debug, Clone, Copy, PartialEq, Eq, Structural)]
pub enum PeriodeMatch {
    PremiereMitemps,
    MiTemps,
    DeuxiemeMitemps,
    Termine,
}

/// Rank of a period in the forward-only order.
pub open spec fn rang_periode(p: PeriodeMatch) -> int {
    match p {
        PeriodeMatch::PremiereMitemps => 0,
        PeriodeMatch::MiTemps => 1,
        PeriodeMatch::DeuxiemeMitemps => 2,
        PeriodeMatch::Termine => 3,
    }
}

impl PeriodeMatch {
    pub fn get_nom(&self) -> (r: &'static str)
        ensures
            *self is PremiereMitemps ==> r@ == "1ère mi-temps"@,
            *self is MiTemps ==> r@ == "Mi-temps"@,
            *self is DeuxiemeMitemps ==> r@ == "2ème mi-temps"@,
            *self is Termine ==> r@ == "Terminé"@,
    {
        match self {
            PeriodeMatch::PremiereMitemps => "1ère mi-temps",
            PeriodeMatch::MiTemps => "Mi-temps",
            PeriodeMatch::DeuxiemeMitemps => "2ème mi-temps",
            PeriodeMatch::Termine => "Terminé",
        }
    }
}

/// Something that happened during the match. Events are immutable once
/// appended; the log is append-only and ordered by minute.
#[derive(Debug)]
pub enum EvenementMatch {
    But { minute: u64, buteur_id: u32, equipe_id: u32, passeur_id: Option<u32>, description: String },
    Substitution { minute: u64, equipe_id: u32, sortant_id: u32, entrant_id: u32 },
    PowerUpUtilise { minute: u64, joueur_id: u32, type_power_up: TypePowerUp },
    CartonJaune { minute: u64, joueur_id: u32, raison: String },
    DecouverteScientifique { minute: u64, equipe_id: u32, description: String, bonus: u64 },
    SauvetageGardien { minute: u64, gardien_id: u32 },
    BelleAction { minute: u64, joueur_id: u32, description: String },
}

/// Minute an event carries.
pub open spec fn minute_evenement(e: EvenementMatch) -> u64 {
    match e {
        EvenementMatch::But { minute, .. } => minute,
        EvenementMatch::Substitution { minute, .. } => minute,
        EvenementMatch::PowerUpUtilise { minute, .. } => minute,
        EvenementMatch::CartonJaune { minute, .. } => minute,
        EvenementMatch::DecouverteScientifique { minute, .. } => minute,
        EvenementMatch::SauvetageGardien { minute, .. } => minute,
        EvenementMatch::BelleAction { minute, .. } => minute,
    }
}

/// Text a one-line rendering shows after the minute: a marker for the
/// kind of event, then its own description.
pub open spec fn texte_evenement(e: EvenementMatch) -> Seq<char> {
    match e {
        EvenementMatch::But { description, .. } => "⚽ "@.add(description@),
        EvenementMatch::Substitution { .. } => "🔄 Substitution"@,
        EvenementMatch::PowerUpUtilise { type_power_up, .. } => "⚡ "@.add(
            nom_power_up_spec(type_power_up),
        ),
        EvenementMatch::CartonJaune { raison, .. } => "🟡 "@.add(raison@),
        EvenementMatch::DecouverteScientifique { description, .. } => "🔬 "@.add(
            description@,
        ),
        EvenementMatch::SauvetageGardien { .. } => "🧤 Arrêt du gardien"@,
        EvenementMatch::BelleAction { description, .. } => "✨ "@.add(description@),
    }
}

/// Whether the event is a goal credited to team `eq`.
pub open spec fn est_but_de(e: EvenementMatch, eq: u32) -> bool {
    match e {
        EvenementMatch::But { equipe_id, .. } => equipe_id == eq,
        _ => false,
    }
}

/// Number of goals credited to team `eq` in the log.
pub open spec fn compte_buts(s: Seq<EvenementMatch>, eq: u32) -> int
    decreases s.len(),
{
    if s.len() == 0 {
        0
    } else {
        compte_buts(s.drop_last(), eq) + if est_but_de(s.last(), eq) {
            1int
        } else {
            0int
        }
    }
}

/// Every event of the log carries a minute of at most `m`.
pub open spec fn minutes_bornees(s: Seq<EvenementMatch>, m: u64) -> bool {
    forall|i: int| 0 <= i < s.len() ==> minute_evenement(s[i]) <= m
}

/// The minutes of the log never decrease.
pub open spec fn minutes_triees(s: Seq<EvenementMatch>) -> bool {
    forall|i: int, j: int|
        0 <= i <= j < s.len() ==> minute_evenement(s[i]) <= minute_evenement(s[j])
}

/// Appending an event moves the goal counts by exactly its own credit.
pub proof fn lemma_compte_buts_push(s: Seq<EvenementMatch>, e: EvenementMatch, eq: u32)
    ensures
        compte_buts(s.push(e), eq) == compte_buts(s, eq) + if est_but_de(e, eq) {
            1int
        } else {
            0int
        },
{
    assert(s.push(e).drop_last() =~= s);
}

/// Appending an event at the current bound keeps the log ordered.
pub proof fn lemma_minutes_push(s: Seq<EvenementMatch>, e: EvenementMatch, m: u64)
    requires
        minutes_triees(s),
        minutes_bornees(s, m),
        minute_evenement(e) == m,
    ensures
        minutes_triees(s.push(e)),
        minutes_bornees(s.push(e), m),
{
    assert forall|i: int, j: int| 0 <= i <= j < s.push(e).len() implies minute_evenement(
        s.push(e)[i],
    ) <= minute_evenement(s.push(e)[j]) by {
        if j < s.len() {
        } else {
            assert(s.push(e)[j] == e);
        }
    }
}

impl EvenementMatch {
    pub fn get_minute(&self) -> (r: u64)
        ensures
            r == minute_evenement(*self),
    {
        match self {
            EvenementMatch::But { minute, .. } => *minute,
            EvenementMatch::Substitution { minute, .. } => *minute,
            EvenementMatch::PowerUpUtilise { minute, .. } => *minute,
            EvenementMatch::CartonJaune { minute, .. } => *minute,
            EvenementMatch::DecouverteScientifique { minute, .. } => *minute,
            EvenementMatch::SauvetageGardien { minute, .. } => *minute,
            EvenementMatch::BelleAction { minute, .. } => *minute,
        }
    }

    /// One-line rendering: the minute, then a marker and the text that
    /// depend on the kind of event.
    pub fn get_description_courte(&self) -> (r: String)
        ensures
            r@ == chiffres(minute_evenement(*self) as int).add("' "@).add(
                texte_evenement(*self),
            ),
    {
        let mut s = decimal(self.get_minute());
        s.append("' ");
        match self {
            EvenementMatch::But { description, .. } => {
                s.append("⚽ ");
                s.append(description.as_str());
            },
            EvenementMatch::Substitution { .. } => {
                s.append("🔄 Substitution");
            },
            EvenementMatch::PowerUpUtilise { type_power_up, .. } => {
                s.append("⚡ ");
                s.append(type_power_up.get_nom());
            },
            EvenementMatch::CartonJaune { raison, .. } => {
                s.append("🟡 ");
                s.append(raison.as_str());
            },
            EvenementMatch::DecouverteScientifique { description, .. } => {
                s.append("🔬 ");
                s.append(description.as_str());
            },
            EvenementMatch::SauvetageGardien { .. } => {
                s.append("🧤 Arrêt du gardien");
            },
            EvenementMatch::BelleAction { description, .. } => {
                s.append("✨ ");
                s.append(description.as_str());
            },
        }
        proof {
            assert(s@ =~= chiffres(minute_evenement(*self) as int).add("' "@).add(
                texte_evenement(*self),
            ));
        }
        s
    }
}

impl Clone for EvenementMatch {
    /// A clone is equal to the original.
    fn clone(&self) -> (r: Self)
        ensures
            r == *self,
    {
        match self {
            EvenementMatch::But { minute, buteur_id, equipe_id, passeur_id, description } => {
                EvenementMatch::But {
                    minute: *minute,
                    buteur_id: *buteur_id,
                    equipe_id: *equipe_id,
                    passeur_id: *passeur_id,
                    description: description.clone(),
                }
            },
            EvenementMatch::Substitution { minute, equipe_id, sortant_id, entrant_id } => {
                EvenementMatch::Substitution {
                    minute: *minute,
                    equipe_id: *equipe_id,
                    sortant_id: *sortant_id,
                    entrant_id: *entrant_id,
                }
            },
            EvenementMatch::PowerUpUtilise { minute, joueur_id, type_power_up } => {
                EvenementMatch::PowerUpUtilise {
                    minute: *minute,
                    joueur_id: *joueur_id,
                    type_power_up: *type_power_up,
                }
            },
            EvenementMatch::CartonJaune { minute, joueur_id, raison } => {
                EvenementMatch::CartonJaune {
                    minute: *minute,
                    joueur_id: *joueur_id,
                    raison: raison.clone(),
                }
            },
            EvenementMatch::DecouverteScientifique { minute, equipe_id, description, bonus } => {
                EvenementMatch::DecouverteScientifique {
                    minute: *minute,
                    equipe_id: *equipe_id,
                    description: description.clone(),
                    bonus: *bonus,
                }
            },
            EvenementMatch::SauvetageGardien { minute, gardien_id } => {
                EvenementMatch::SauvetageGardien { minute: *minute, gardien_id: *gardien_id }
            },
            EvenementMatch::BelleAction { minute, joueur_id, description } => {
                EvenementMatch::BelleAction {
                    minute: *minute,
                    joueur_id: *joueur_id,
                    description: description.clone(),
                }
            },
        }
    }
}

/// A roster after the morale lift that follows a scored goal: every
/// fielded player gains 0.05 of morale, capped at 1.5.
pub open spec fn moral_hausse_seq(s: Seq<Joueur>) -> Seq<Joueur> {
    Seq::new(
        s.len(),
        |k: int|
            if s[k].sur_le_terrain {
                Joueur { moral: crate::joueur::hausse_bornee(s[k].moral, 50), ..s[k] }
            } else {
                s[k]
            },
    )
}

/// A roster after the morale drop that follows a conceded goal: every
/// fielded player loses 0.05 of morale, floored at 0.5.
pub open spec fn moral_baisse_seq(s: Seq<Joueur>) -> Seq<Joueur> {
    Seq::new(
        s.len(),
        |k: int|
            if s[k].sur_le_terrain {
                Joueur { moral: crate::joueur::baisse_bornee(s[k].moral, 50), ..s[k] }
            } else {
                s[k]
            },
    )
}

/// The fixed findings a scientific discovery can draw: its text and its
/// form bonus in thousandths.
pub open spec fn decouverte_valide(description: Seq<char>, bonus: u64) -> bool {
    ||| (description == "Synergie moléculaire découverte !"@ && bonus == 100)
    ||| (description == "Calcul tactique optimisé par algorithme !"@ && bonus == 80)
    ||| (description == "Réaction catalytique explosive !"@ && bonus == 120)
    ||| (description == "Équation du mouvement parfaitement calculée !"@ && bonus == 90)
    ||| (description == "Circuit neuronal activé !"@ && bonus == 70)
}

/// The four fixed booking reasons.
pub open spec fn raison_carton_valide(raison: Seq<char>) -> bool {
    ||| raison == "Tacle trop appuyé"@
    ||| raison == "Contestation de décision"@
    ||| raison == "Retard de jeu"@
    ||| raison == "Faute tactique"@
}

/// The six fixed highlight descriptions.
pub open spec fn action_valide(description: Seq<char>) -> bool {
    ||| description == "Dribble dévastateur !"@
    ||| description == "Frappe de loin spectaculaire !"@
    ||| description == "Petit pont humiliant !"@
    ||| description == "Tête piquée précise !"@
    ||| description == "Reprise de volée technique !"@
    ||| description == "Passe en profondeur parfaite !"@
}

/// The roster defending against the chosen side: away when `domicile`,
/// home otherwise.
pub open spec fn joueurs_defense(m: MoteurMatch, domicile: bool) -> Seq<Joueur> {
    if domicile {
        m.equipe_exterieur.joueurs@
    } else {
        m.equipe_domicile.joueurs@
    }
}

/// The roster of the chosen side of a match: home when `domicile`,
/// away otherwise.
pub open spec fn joueurs_cote(m: MoteurMatch, domicile: bool) -> Seq<Joueur> {
    if domicile {
        m.equipe_domicile.joueurs@
    } else {
        m.equipe_exterieur.joueurs@
    }
}

/// The identifier of the chosen side of a match.
pub open spec fn id_cote(m: MoteurMatch, domicile: bool) -> u32 {
    if domicile {
        m.equipe_domicile.id
    } else {
        m.equipe_exterieur.id
    }
}

/// The score of the chosen side of a match.
pub open spec fn score_cote(m: MoteurMatch, domicile: bool) -> u64 {
    if domicile {
        m.score_domicile
    } else {
        m.score_exterieur
    }
}

/// A roster after a scientific discovery: every fielded player's form
/// rises by the finding's bonus, capped at 1.5.
pub open spec fn forme_boostee_seq(s: Seq<Joueur>, bonus: u64) -> Seq<Joueur> {
    Seq::new(
        s.len(),
        |k: int|
            if s[k].sur_le_terrain {
                Joueur { forme: crate::joueur::hausse_bornee(s[k].forme, bonus), ..s[k] }
            } else {
                s[k]
            },
    )
}

/// A completed substitution inside one roster: the on-field flag of the
/// first player with the outgoing identifier drops, the one of the first
/// player with the incoming identifier rises, and nothing else moves.
pub open spec fn flags_echanges(
    avant: Seq<Joueur>,
    apres: Seq<Joueur>,
    sortant_id: u32,
    entrant_id: u32,
) -> bool {
    exists|is_: int, ie: int|
        #![trigger avant[is_].sur_le_terrain, avant[ie].sur_le_terrain]
        {
            &&& crate::equipe::est_premier_indice(avant, sortant_id, is_)
            &&& crate::equipe::est_premier_indice(avant, entrant_id, ie)
            &&& apres == avant.update(
                is_,
                Joueur { sur_le_terrain: false, ..avant[is_] },
            ).update(ie, Joueur { sur_le_terrain: true, ..avant[ie] })
        }
}

/// A booking inside one roster: the booked identifier belongs to a
/// fielded player, and the first player with that identifier takes one
/// more yellow card; nothing else moves.
pub open spec fn carton_dans(avant: Seq<Joueur>, apres: Seq<Joueur>, joueur_id: u32) -> bool {
    &&& exists|k: int|
        0 <= k < avant.len() && avant[k].sur_le_terrain && avant[k].id == joueur_id
    &&& exists|i: int|
        #![trigger avant[i].cartons_jaunes]
        {
            &&& crate::equipe::est_premier_indice(avant, joueur_id, i)
            &&& apres == avant.update(
                i,
                Joueur { cartons_jaunes: incr_u64(avant[i].cartons_jaunes), ..avant[i] },
            )
        }
}

/// A booking on exactly one of the two sides; the other roster is
/// untouched.
pub open spec fn carton_attribue(avant: MoteurMatch, apres: MoteurMatch, joueur_id: u32) -> bool {
    ||| (carton_dans(avant.equipe_domicile.joueurs@, apres.equipe_domicile.joueurs@, joueur_id)
        && apres.equipe_exterieur.joueurs@ == avant.equipe_exterieur.joueurs@)
    ||| (carton_dans(avant.equipe_exterieur.joueurs@, apres.equipe_exterieur.joueurs@, joueur_id)
        && apres.equipe_domicile.joueurs@ == avant.equipe_domicile.joueurs@)
}

/// The bonus-adjusted rating of the chosen side, in thousandths.
pub open spec fn note_cote_ajustee(m: MoteurMatch, domicile: bool) -> int {
    if domicile {
        crate::equipe::note_equipe_spec(m.equipe_domicile) * m.facteur_bonus_domicile / 1000
    } else {
        crate::equipe::note_equipe_spec(m.equipe_exterieur) * m.facteur_bonus_exterieur / 1000
    }
}

/// The possession nudge of the ball's x coordinate: the side that
/// dominates possession pulls the ball toward its attacking side, by
/// three units per second scaled by its lead over an even split, clamped
/// to the pitch.
pub open spec fn coordonnee_biaisee(pos: int, possession: int, av: u64) -> int {
    if possession >= 500 {
        serrer(pos + (possession - 500) * av * 3 / 1_000_000, 48_000)
    } else {
        serrer(pos - (500 - possession) * av * 3 / 1_000_000, 48_000)
    }
}

/// The ball's x coordinate after one tick, given the noise draw `t1`:
/// the noisy displacement, then the possession nudge computed from the
/// two bonus-adjusted ratings (skipped when both ratings are zero).
pub open spec fn ballon_x_apres(m: MoteurMatch, t1: u64, av: u64) -> int {
    let x1 = coordonnee_bruitee(m.ballon_x as int, t1, av, 48_000);
    let nd = note_cote_ajustee(m, true);
    let ne = note_cote_ajustee(m, false);
    if nd + ne > 0 {
        coordonnee_biaisee(x1, nd * 1000 / (nd + ne), av)
    } else {
        x1
    }
}

/// Whether the roster fields a player who can attempt a goal: a fielded
/// forward or midfielder.
pub open spec fn a_tireur(s: Seq<Joueur>) -> bool {
    exists|k: int|
        0 <= k < s.len() && s[k].sur_le_terrain && (s[k].position_actuelle is Attaquant
            || s[k].position_actuelle is Milieu)
}

/// A team record after the final reconciliation of a match it played with
/// `marques` goals for and `encaisses` against: goals are added to the
/// season tallies and exactly one of wins, draws or losses rises by one.
pub open spec fn equipe_apres_resultat(e: Equipe, marques: u64, encaisses: u64) -> Equipe {
    let avec_buts = Equipe {
        buts_marques: ajout_sature(e.buts_marques, marques),
        buts_encaisses: ajout_sature(e.buts_encaisses, encaisses),
        ..e
    };
    if marques > encaisses {
        Equipe { victoires: incr_u64(e.victoires), ..avec_buts }
    } else if marques < encaisses {
        Equipe { defaites: incr_u64(e.defaites), ..avec_buts }
    } else {
        Equipe { nuls: incr_u64(e.nuls), ..avec_buts }
    }
}

/// The identity and availability of a player is untouched by a
/// simulation tick: only performance state and career tallies may move.
pub open spec fn meme_identite(a: Joueur, b: Joueur) -> bool {
    b == (Joueur {
        stats_base: b.stats_base,
        stats_effectives: b.stats_effectives,
        niveau: b.niveau,
        experience: b.experience,
        stamina: b.stamina,
        forme: b.forme,
        moral: b.moral,
        buts: b.buts,
        passes_decisives: b.passes_decisives,
        cartons_jaunes: b.cartons_jaunes,
        ..a
    })
}

/// A simulation tick leaves a team's record and roster identity alone:
/// identifier, name, chemistry, season counters, tactical set-up, and
/// each player's identity and on-field status.
pub open spec fn meme_cadre(a: Equipe, b: Equipe) -> bool {
    &&& b == (Equipe { joueurs: b.joueurs, ..a })
    &&& b.joueurs@.len() == a.joueurs@.len()
    &&& forall|k: int| 0 <= k < a.joueurs@.len() ==> meme_identite(a.joueurs@[k], b.joueurs@[k])
}

/// The engine that runs one match between two owned team snapshots.
#[derive(Debug)]
pub struct MoteurMatch {
    pub id: u32,
    pub equipe_domicile: Equipe,
    pub equipe_exterieur: Equipe,
    pub score_domicile: u64,
    pub score_exterieur: u64,
    pub temps_ecoule: u64,
    pub duree_match: u64,
    pub periode: PeriodeMatch,
    pub evenements: Vec<EvenementMatch>,
    pub ballon_x: i64,
    pub ballon_z: i64,
    pub en_jeu: bool,
    pub vitesse_simulation: u64,
    pub facteur_bonus_domicile: u64,
    pub facteur_bonus_exterieur: u64,
    pub alea: GenerateurAlea,
}

/// The scientific-bonus factor a team's chemistry earns, in thousandths:
/// one plus (chemistry - 0.5) times 0.2, so between 0.9 and 1.1.
pub open spec fn facteur_bonus(chimie: u64) -> u64 {
    (900 + chimie / 5) as u64
}

impl MoteurMatch {
    /// The state invariant that holds between any two engine calls,
    /// except for the clock/period bounds of `valide`.
    pub open spec fn coherent(&self) -> bool {
        &&& self.equipe_domicile.valide()
        &&& self.equipe_exterieur.valide()
        &&& self.equipe_domicile.id != self.equipe_exterieur.id
        &&& self.duree_match == DUREE_MATCH_MS
        &&& self.vitesse_simulation <= VITESSE_MAX
        &&& self.score_domicile == compte_buts(self.evenements@, self.equipe_domicile.id)
        &&& self.score_exterieur == compte_buts(self.evenements@, self.equipe_exterieur.id)
        &&& self.score_domicile + self.score_exterieur <= self.temps_ecoule
        &&& -48_000 <= self.ballon_x <= 48_000
        &&& -23_000 <= self.ballon_z <= 23_000
        &&& self.facteur_bonus_domicile == facteur_bonus(self.equipe_domicile.chimie)
        &&& self.facteur_bonus_exterieur == facteur_bonus(self.equipe_exterieur.chimie)
        &&& minutes_triees(self.evenements@)
        &&& minutes_bornees(self.evenements@, (self.temps_ecoule / 60_000) as u64)
    }

    /// Full well-formedness: `coherent`, plus the clock bounds of each
    /// period and the frozen half-time break.
    pub open spec fn valide(&self) -> bool {
        &&& self.coherent()
        &&& self.periode is PremiereMitemps ==> self.temps_ecoule < MI_TEMPS_MS
        &&& self.periode is MiTemps ==> MI_TEMPS_MS <= self.temps_ecoule < MI_TEMPS_MS
            + AVANCE_MAX
        &&& self.periode is MiTemps ==> !self.en_jeu
        &&& self.periode is DeuxiemeMitemps ==> self.temps_ecoule < MI_TEMPS_MS + AVANCE_MAX
        &&& self.periode is Termine ==> self.temps_ecoule < MI_TEMPS_MS + 2 * AVANCE_MAX
    }

    /// Build the engine around two team snapshots it will own for the
    /// whole match. The caller is responsible for fielding enough
    /// players; the engine does not re-validate that.
    pub fn nouveau(id: u32, domicile: Equipe, exterieur: Equipe) -> (r: Self)
        requires
            domicile.valide(),
            exterieur.valide(),
            domicile.id != exterieur.id,
        ensures
            r.valide(),
            r.id == id,
            r.equipe_domicile == domicile,
            r.equipe_exterieur == exterieur,
            r.score_domicile == 0,
            r.score_exterieur == 0,
            r.temps_ecoule == 0,
            r.duree_match == DUREE_MATCH_MS,
            r.periode is PremiereMitemps,
            r.evenements@.len() == 0,
            r.ballon_x == 0,
            r.ballon_z == 0,
            !r.en_jeu,
            r.vitesse_simulation == 1000,
            r.facteur_bonus_domicile == facteur_bonus(domicile.chimie),
            r.facteur_bonus_exterieur == facteur_bonus(exterieur.chimie),
            r.alea is Systeme,
    {
        let mut m = Self {
            id,
            equipe_domicile: domicile,
            equipe_exterieur: exterieur,
            score_domicile: 0,
            score_exterieur: 0,
            temps_ecoule: 0,
            duree_match: DUREE_MATCH_MS,
            periode: PeriodeMatch::PremiereMitemps,
            evenements: Vec::new(),
            ballon_x: 0,
            ballon_z: 0,
            en_jeu: false,
            vitesse_simulation: 1000,
            facteur_bonus_domicile: 1000,
            facteur_bonus_exterieur: 1000,
            alea: GenerateurAlea::Systeme,
        };
        m.calculer_bonus_scientifiques();
        m
    }

    /// Derive the two scientific-bonus factors from each team's chemistry.
    fn calculer_bonus_scientifiques(&mut self)
        requires
            old(self).equipe_domicile.chimie <= 1000,
            old(self).equipe_exterieur.chimie <= 1000,
        ensures
            *final(self) == (MoteurMatch {
                facteur_bonus_domicile: facteur_bonus(old(self).equipe_domicile.chimie),
                facteur_bonus_exterieur: facteur_bonus(old(self).equipe_exterieur.chimie),
                ..*old(self)
            }),
    {
        self.facteur_bonus_domicile = 900 + self.equipe_domicile.chimie / 5;
        self.facteur_bonus_exterieur = 900 + self.equipe_exterieur.chimie / 5;
    }

    /// Kick off: mark the match running and count one played match for
    /// every fielded player. Only valid before any ticking has occurred.
    pub fn demarrer(&mut self)
        requires
            old(self).valide(),
            old(self).temps_ecoule == 0,
            old(self).periode is PremiereMitemps,
        ensures
            final(self).valide(),
            final(self).en_jeu,
            final(self).periode is PremiereMitemps,
            final(self).temps_ecoule == 0,
            final(self).equipe_domicile.joueurs@.len() == old(self).equipe_domicile.joueurs@.len(),
            final(self).equipe_exterieur.joueurs@.len() == old(self).equipe_exterieur.joueurs@.len(),
            forall|k: int|
                0 <= k < old(self).equipe_domicile.joueurs@.len() ==> final(self).equipe_domicile.joueurs@[k] == crate::equipe::joueur_match_compte(
                    old(self).equipe_domicile.joueurs@[k],
                ),
            forall|k: int|
                0 <= k < old(self).equipe_exterieur.joueurs@.len() ==> final(self).equipe_exterieur.joueurs@[k] == crate::equipe::joueur_match_compte(
                    old(self).equipe_exterieur.joueurs@[k],
                ),
            final(self).equipe_domicile == (Equipe {
                joueurs: final(self).equipe_domicile.joueurs,
                ..old(self).equipe_domicile
            }),
            final(self).equipe_exterieur == (Equipe {
                joueurs: final(self).equipe_exterieur.joueurs,
                ..old(self).equipe_exterieur
            }),
            *final(self) == (MoteurMatch {
                en_jeu: true,
                equipe_domicile: final(self).equipe_domicile,
                equipe_exterieur: final(self).equipe_exterieur,
                ..*old(self)
            }),
    {
        self.en_jeu = true;
        self.periode = PeriodeMatch::PremiereMitemps;
        self.equipe_domicile.incrementer_matchs_joues();
        self.equipe_exterieur.incrementer_matchs_joues();
    }

    /// Freeze the clock; idempotent, legal in any state.
    pub fn pause(&mut self)
        requires
            old(self).valide(),
        ensures
            final(self).valide(),
            *final(self) == (MoteurMatch { en_jeu: false, ..*old(self) }),
    {
        self.en_jeu = false;
    }

    /// Resume play: from half-time this moves to the second half; in all
    /// cases the running flag is set. A finished match stays finished:
    /// ticking it does nothing.
    pub fn reprendre(&mut self)
        requires
            old(self).valide(),
        ensures
            final(self).valide(),
            old(self).periode is MiTemps ==> *final(self) == (MoteurMatch {
                periode: PeriodeMatch::DeuxiemeMitemps,
                en_jeu: true,
                ..*old(self)
            }),
            !(old(self).periode is MiTemps) ==> *final(self) == (MoteurMatch {
                en_jeu: true,
                ..*old(self)
            }),
    {
        if matches!(self.periode, PeriodeMatch::MiTemps) {
            self.periode = PeriodeMatch::DeuxiemeMitemps;
        }
        self.en_jeu = true;
    }

    /// Close the match: freeze the clock, enter the terminal period and
    /// reconcile wins, draws, losses and season goal tallies exactly once.
    fn terminer_match(&mut self)
        requires
            old(self).coherent(),
            old(self).temps_ecoule < MI_TEMPS_MS + 2 * AVANCE_MAX,
        ensures
            final(self).valide(),
            *final(self) == (MoteurMatch {
                en_jeu: false,
                periode: PeriodeMatch::Termine,
                equipe_domicile: equipe_apres_resultat(
                    old(self).equipe_domicile,
                    old(self).score_domicile,
                    old(self).score_exterieur,
                ),
                equipe_exterieur: equipe_apres_resultat(
                    old(self).equipe_exterieur,
                    old(self).score_exterieur,
                    old(self).score_domicile,
                ),
                ..*old(self)
            }),
    {
        self.en_jeu = false;
        self.periode = PeriodeMatch::Termine;
        if self.score_domicile > self.score_exterieur {
            let v = self.equipe_domicile.victoires;
            self.equipe_domicile.victoires = v.saturating_add(1);
            let d = self.equipe_exterieur.defaites;
            self.equipe_exterieur.defaites = d.saturating_add(1);
        } else if self.score_domicile < self.score_exterieur {
            let v = self.equipe_exterieur.victoires;
            self.equipe_exterieur.victoires = v.saturating_add(1);
            let d = self.equipe_domicile.defaites;
            self.equipe_domicile.defaites = d.saturating_add(1);
        } else {
            let n = self.equipe_domicile.nuls;
            self.equipe_domicile.nuls = n.saturating_add(1);
            let n2 = self.equipe_exterieur.nuls;
            self.equipe_exterieur.nuls = n2.saturating_add(1);
        }
        let bm = self.equipe_domicile.buts_marques;
        self.equipe_domicile.buts_marques = bm.saturating_add(self.score_domicile);
        let be = self.equipe_domicile.buts_encaisses;
        self.equipe_domicile.buts_encaisses = be.saturating_add(self.score_exterieur);
        let bm2 = self.equipe_exterieur.buts_marques;
        self.equipe_exterieur.buts_marques = bm2.saturating_add(self.score_exterieur);
        let be2 = self.equipe_exterieur.buts_encaisses;
        self.equipe_exterieur.buts_encaisses = be2.saturating_add(self.score_domicile);
    }

    /// Minute shown on the clock.
    pub fn get_minute_actuelle(&self) -> (r: u64)
        ensures
            r == self.temps_ecoule / 60_000,
    {
        self.temps_ecoule / 60_000
    }

    /// Clock rendering "MM:SS" (minutes may take more than two digits).
    pub fn get_temps_affichage(&self) -> (r: String)
        ensures
            r@ == chiffres_pad2((self.temps_ecoule / 60_000) as int).add(":"@).add(
                chiffres_pad2(((self.temps_ecoule / 1000) % 60) as int),
            ),
    {
        let minutes = self.temps_ecoule / 60_000;
        let secondes = (self.temps_ecoule / 1000) % 60;
        let mut s = decimal_pad2(minutes);
        s.append(":");
        let fin = decimal_pad2(secondes);
        s.append(fin.as_str());
        s
    }

    /// The winning team once the match is finished; draws and unfinished
    /// matches have no winner.
    pub fn get_vainqueur(&self) -> (r: Option<u32>)
        ensures
            r == vainqueur_spec(*self),
    {
        if !matches!(self.periode, PeriodeMatch::Termine) {
            return None;
        }
        if self.score_domicile > self.score_exterieur {
            Some(self.equipe_domicile.id)
        } else if self.score_domicile < self.score_exterieur {
            Some(self.equipe_exterieur.id)
        } else {
            None
        }
    }

    /// Score line "H - A".
    pub fn get_score_affichage(&self) -> (r: String)
        ensures
            r@ == chiffres(self.score_domicile as int).add(" - "@).add(
                chiffres(self.score_exterieur as int),
            ),
    {
        let mut s = decimal(self.score_domicile);
        s.append(" - ");
        let fin = decimal(self.score_exterieur);
        s.append(fin.as_str());
        s
    }

    /// The last `n` events, most recent first.
    pub fn get_evenements_recents(&self, n: usize) -> (r: Vec<EvenementMatch>)
        ensures
            r@.len() == if n <= self.evenements@.len() {
                n as int
            } else {
                self.evenements@.len() as int
            },
            forall|i: int|
                0 <= i < r@.len() ==> r@[i] == self.evenements@[self.evenements@.len() - 1 - i],
    {
        let mut r: Vec<EvenementMatch> = Vec::new();
        let total = self.evenements.len();
        let quota = if n <= total {
            n
        } else {
            total
        };
        let mut i: usize = 0;
        while i < quota
            invariant
                quota <= total == self.evenements@.len(),
                i <= quota,
                r@.len() == i,
                forall|k: int|
                    0 <= k < i ==> r@[k] == self.evenements@[self.evenements@.len() - 1 - k],
            decreases quota - i,
        {
            let e = self.evenements[total - 1 - i].clone();
            r.push(e);
            i = i + 1;
        }
        r
    }

    /// Swap a fielded player for an available benched one in the team
    /// `equipe_id`, and log the substitution. On any rejection the whole
    /// engine state, both rosters included, is left unchanged.
    pub fn faire_substitution(&mut self, equipe_id: u32, sortant_id: u32, entrant_id: u32) -> (r:
        Result<(), ErreurSubstitution>)
        requires
            old(self).valide(),
        ensures
            final(self).valide(),
            r is Err ==> *final(self) == *old(self),
            !(equipe_id == old(self).equipe_domicile.id) && !(equipe_id == old(self).equipe_exterieur.id) <==> r == Err::<(), ErreurSubstitution>(
                ErreurSubstitution::EquipeNonTrouvee,
            ),
            equipe_id == old(self).equipe_domicile.id ==> r == resultat_substitution(
                old(self).equipe_domicile,
                sortant_id,
                entrant_id,
            ),
            equipe_id == old(self).equipe_exterieur.id ==> r == resultat_substitution(
                old(self).equipe_exterieur,
                sortant_id,
                entrant_id,
            ),
            r is Ok ==> final(self).evenements@ == old(self).evenements@.push(
                EvenementMatch::Substitution {
                    minute: (old(self).temps_ecoule / 60_000) as u64,
                    equipe_id,
                    sortant_id,
                    entrant_id,
                },
            ),
            r is Ok && equipe_id == old(self).equipe_domicile.id ==> *final(self) == (MoteurMatch {
                equipe_domicile: final(self).equipe_domicile,
                evenements: final(self).evenements,
                ..*old(self)
            }) && final(self).equipe_domicile == (Equipe {
                joueurs: final(self).equipe_domicile.joueurs,
                ..old(self).equipe_domicile
            }),
            r is Ok && equipe_id != old(self).equipe_domicile.id ==> *final(self) == (MoteurMatch {
                equipe_exterieur: final(self).equipe_exterieur,
                evenements: final(self).evenements,
                ..*old(self)
            }) && final(self).equipe_exterieur == (Equipe {
                joueurs: final(self).equipe_exterieur.joueurs,
                ..old(self).equipe_exterieur
            }),
            final(self).score_domicile == old(self).score_domicile,
            final(self).score_exterieur == old(self).score_exterieur,
            final(self).periode == old(self).periode,
            final(self).temps_ecoule == old(self).temps_ecoule,
            r is Ok && equipe_id == old(self).equipe_domicile.id ==> flags_echanges(
                old(self).equipe_domicile.joueurs@,
                final(self).equipe_domicile.joueurs@,
                sortant_id,
                entrant_id,
            ),
            r is Ok && equipe_id != old(self).equipe_domicile.id ==> flags_echanges(
                old(self).equipe_exterieur.joueurs@,
                final(self).equipe_exterieur.joueurs@,
                sortant_id,
                entrant_id,
            ),
    {
        let resultat = if equipe_id == self.equipe_domicile.id {
            self.equipe_domicile.faire_substitution(sortant_id, entrant_id)
        } else if equipe_id == self.equipe_exterieur.id {
            self.equipe_exterieur.faire_substitution(sortant_id, entrant_id)
        } else {
            return Err(ErreurSubstitution::EquipeNonTrouvee);
        };
        match resultat {
            Ok(()) => {
                let minute = self.temps_ecoule / 60_000;
                let ghost avant = self.evenements@;
                let e = EvenementMatch::Substitution { minute, equipe_id, sortant_id, entrant_id };
                proof {
                    lemma_compte_buts_push(avant, e, self.equipe_domicile.id);
                    lemma_compte_buts_push(avant, e, self.equipe_exterieur.id);
                    lemma_minutes_push(avant, e, minute);
                }
                self.evenements.push(e);
                Ok(())
            },
            Err(raison) => Err(raison),
        }
    }
}

/// Clock advance of one tick: the delta in milliseconds scaled by the
/// speed multiplier in thousandths.
pub open spec fn avance_tick(delta: u32, vitesse: u64) -> u64 {
    (delta * vitesse / 1000) as u64
}

proof fn lemma_avance_bornee(delta: u32, vitesse: u64)
    requires
        vitesse <= VITESSE_MAX,
    ensures
        delta * vitesse <= u32::MAX * VITESSE_MAX,
        avance_tick(delta, vitesse) <= AVANCE_MAX,
{
    assert(delta * vitesse <= u32::MAX * VITESSE_MAX) by (nonlinear_arith)
        requires
            delta <= u32::MAX,
            0 <= vitesse <= VITESSE_MAX,
    ;
    vstd::arithmetic::div_mod::lemma_div_is_ordered(
        (delta * vitesse) as int,
        (u32::MAX * VITESSE_MAX) as int,
        1000,
    );
}

/// A clamped coordinate: `v` brought back into [-borne, borne].
pub open spec fn serrer(v: int, borne: int) -> int {
    if v > borne {
        borne
    } else if v < -borne {
        -borne
    } else {
        v
    }
}

/// One noisy displacement of a ball coordinate: a draw below 2000 gives
/// a signed magnitude up to one, scaled by the advance and a gain of
/// eight per second, and the result is clamped.
pub open spec fn coordonnee_bruitee(pos: int, tirage: u64, av: u64, borne: int) -> int {
    if tirage >= 1000 {
        serrer(pos + (tirage - 1000) * av * 8 / 1_000_000, borne)
    } else {
        serrer(pos - (1000 - tirage) * av * 8 / 1_000_000, borne)
    }
}

fn bruiter(pos: i64, tirage: u64, av: u64, borne: i64) -> (r: i64)
    requires
        -borne <= pos <= borne,
        0 < borne <= 48_000,
        tirage < 2000,
        av <= AVANCE_MAX,
    ensures
        r == coordonnee_bruitee(pos as int, tirage, av, borne as int),
        -borne <= r <= borne,
{
    let magnitude: u64 = if tirage >= 1000 {
        tirage - 1000
    } else {
        1000 - tirage
    };
    proof {
        crate::joueur::borne_mul_div_pub(magnitude as int, av as int, 1000, AVANCE_MAX as int, 1);
        crate::joueur::borne_mul_div_pub(
            (magnitude * av) as int,
            8,
            (1000 * AVANCE_MAX) as int,
            8,
            1_000_000,
        );
    }
    let dep = magnitude * av * 8 / 1_000_000;
    let brut: i64 = if tirage >= 1000 {
        pos + (dep as i64)
    } else {
        pos - (dep as i64)
    };
    if brut > borne {
        borne
    } else if brut < -borne {
        -borne
    } else {
        brut
    }
}

/// Team rating scaled by the scientific-bonus factor, in thousandths.
fn note_ajustee(e: &Equipe, facteur: u64) -> (r: u64)
    requires
        e.valide(),
        facteur <= 1100,
    ensures
        r == crate::equipe::note_equipe_spec(*e) * facteur / 1000,
        r <= 302_500,
{
    let note = e.note_equipe();
    proof {
        crate::joueur::borne_mul_div_pub(
            note as int,
            facteur as int,
            crate::equipe::NOTE_EQUIPE_MAX as int,
            1100,
            1000,
        );
    }
    note * facteur / 1000
}

/// Resistance a goalkeeper opposes to a shot, in thousandths: the mean
/// of precision and defense, read on a scale of one.
pub open spec fn resistance_spec(precision: u64, defense: u64) -> u64 {
    ((precision + defense) / 200) as u64
}

/// Resistance of a goalkeeper with these effective attributes.
pub fn resistance_gardien(precision: u64, defense: u64) -> (r: u64)
    requires
        precision <= crate::joueur::STAT_MAX,
        defense <= crate::joueur::STAT_MAX,
    ensures
        r == resistance_spec(precision, defense),
        r <= 990,
{
    (precision + defense) / 200
}

/// Chance that a shot scores, in thousandths: the shooter's mean of
/// precision and attack, reduced by sixty percent of the keeper's
/// resistance. Strictly below 1000: no shot is certain to score.
pub open spec fn chance_but_spec(precision: u64, attaque: u64, resistance: u64) -> u64 {
    ((precision + attaque) / 200 * (1000 - resistance * 3 / 5) / 1000) as u64
}

/// Chance that a shot scores, given the shooter's effective precision
/// and attack and the defending keeper's resistance.
pub fn chance_de_but(precision: u64, attaque: u64, resistance: u64) -> (r: u64)
    requires
        precision <= crate::joueur::STAT_MAX,
        attaque <= crate::joueur::STAT_MAX,
        resistance <= 1000,
    ensures
        r == chance_but_spec(precision, attaque, resistance),
        r <= 990,
{
    let qualite = (precision + attaque) / 200;
    let facteur = 1000 - resistance * 3 / 5;
    proof {
        crate::joueur::borne_mul_div_pub(qualite as int, facteur as int, 990, 1000, 1000);
    }
    qualite * facteur / 1000
}

/// The resistance of a goalkeeper whose attributes lie in the valid
/// range is always below one: the chance formula never reaches zero, so
/// certainty of a save can come only from the roll, not the keeper.
pub proof fn lemma_resistance_bornee(precision: u64, defense: u64)
    requires
        precision <= crate::joueur::STAT_MAX,
        defense <= crate::joueur::STAT_MAX,
    ensures
        resistance_spec(precision, defense) <= 990 < 1000,
{
}

/// A roll of 990 or above never scores, whatever the shooter and keeper:
/// the chance of a goal is bounded by 990 out of 1000.
pub proof fn lemma_chance_bornee(precision: u64, attaque: u64, resistance: u64)
    requires
        precision <= crate::joueur::STAT_MAX,
        attaque <= crate::joueur::STAT_MAX,
        resistance <= 1000,
    ensures
        chance_but_spec(precision, attaque, resistance) <= 990,
{
    crate::joueur::borne_mul_div_pub(
        ((precision + attaque) / 200) as int,
        (1000 - resistance * 3 / 5) as int,
        990,
        1000,
        1000,
    );
}

/// Outcome of a resolved goal attempt.
enum ResultatTir {
    But { buteur_id: u32, passeur_id: Option<u32>, description: String },
    Arret { gardien_id: u32 },
}

/// Whether the player carries the trait that softens referees.
fn a_trait_charmeur(j: &Joueur) -> (r: bool)
    ensures
        r == exists|t: int| 0 <= t < j.traits@.len() && j.traits@[t].nom@ == "Charmeur d'Arbitre"@,
{
    let cible = String::from_str("Charmeur d'Arbitre");
    let mut i: usize = 0;
    while i < j.traits.len()
        invariant
            i <= j.traits@.len(),
            cible@ == "Charmeur d'Arbitre"@,
            forall|t: int| 0 <= t < i ==> j.traits@[t].nom@ != "Charmeur d'Arbitre"@,
        decreases j.traits@.len() - i,
    {
        if j.traits[i].nom == cible {
            return true;
        }
        i = i + 1;
    }
    false
}

/// Indices of the fielded players of a roster.
fn indices_terrain(e: &Equipe) -> (r: Vec<usize>)
    ensures
        forall|k: int|
            0 <= k < r@.len() ==> r@[k] < e.joueurs@.len() && e.joueurs@[r@[k] as int].sur_le_terrain,
        r@.len() == 0 ==> forall|k: int| 0 <= k < e.joueurs@.len() ==> !e.joueurs@[k].sur_le_terrain,
{
    let mut r: Vec<usize> = Vec::new();
    let mut i: usize = 0;
    while i < e.joueurs.len()
        invariant
            i <= e.joueurs@.len(),
            forall|k: int|
                0 <= k < r@.len() ==> r@[k] < e.joueurs@.len() && e.joueurs@[r@[k] as int].sur_le_terrain,
            r@.len() == 0 ==> forall|k: int| 0 <= k < i ==> !e.joueurs@[k].sur_le_terrain,
        decreases e.joueurs@.len() - i,
    {
        if e.joueurs[i].sur_le_terrain {
            r.push(i);
        }
        i = i + 1;
    }
    r
}

/// Goal flavour line around the scorer's name, for each of the five
/// drawn templates.
pub open spec fn description_but_spec(choix: u64, prenom: Seq<char>) -> Seq<char> {
    if choix == 0 {
        "Magnifique frappe de "@.add(prenom).add(" !"@)
    } else if choix == 1 {
        prenom.add(" conclut brillamment !"@)
    } else if choix == 2 {
        "Quel geste technique de "@.add(prenom).add(" !"@)
    } else if choix == 3 {
        prenom.add(" ne rate pas !"@)
    } else {
        "But d'anthologie de "@.add(prenom).add(" !"@)
    }
}

/// Goal flavour line around the scorer's name.
fn construire_description_but(choix: u64, prenom: &str) -> (r: String)
    ensures
        r@ == description_but_spec(choix, prenom@),
{
    let r = if choix == 0 {
        let mut s = String::from_str("Magnifique frappe de ");
        s.append(prenom);
        s.append(" !");
        s
    } else if choix == 1 {
        let mut s = String::from_str(prenom);
        s.append(" conclut brillamment !");
        s
    } else if choix == 2 {
        let mut s = String::from_str("Quel geste technique de ");
        s.append(prenom);
        s.append(" !");
        s
    } else if choix == 3 {
        let mut s = String::from_str(prenom);
        s.append(" ne rate pas !");
        s
    } else {
        let mut s = String::from_str("But d'anthologie de ");
        s.append(prenom);
        s.append(" !");
        s
    };
    proof {
        assert(r@ =~= description_but_spec(choix, prenom@));
    }
    r
}

/// Resolve one goal attempt of `att` against `def`: draw a fielded
/// attacking shooter, weigh the shot against the defending keeper, and
/// on success record the scorer's and assister's progression.
#[verifier::rlimit(60)]
fn attaque_equipe(att: &mut Equipe, def: &Equipe, alea: &mut GenerateurAlea) -> (r: Option<
    ResultatTir,
>)
    requires
        old(att).valide(),
        def.valide(),
    ensures
        final(att).valide(),
        meme_cadre(*old(att), *final(att)),
        final(att).joueurs@.len() == old(att).joueurs@.len(),
        r is None ==> *final(att) == *old(att),
        !a_tireur(old(att).joueurs@) ==> r is None,
        r matches Some(ResultatTir::Arret { gardien_id }) ==> *final(att) == *old(att) && exists|
            g: int,
        |
            0 <= g < def.joueurs@.len() && def.joueurs@[g].sur_le_terrain
                && def.joueurs@[g].position_actuelle is Gardien && def.joueurs@[g].id == gardien_id,
        r matches Some(ResultatTir::But { buteur_id, passeur_id, description }) ==> exists|t: int|
            {
                &&& 0 <= t < old(att).joueurs@.len()
                &&& old(att).joueurs@[t].sur_le_terrain
                &&& (old(att).joueurs@[t].position_actuelle is Attaquant || old(
                    att,
                ).joueurs@[t].position_actuelle is Milieu)
                &&& old(att).joueurs@[t].id == buteur_id
                &&& exists|c: u64|
                    c < 5 && description@ == description_but_spec(c, old(att).joueurs@[t].prenom@)
                &&& match passeur_id {
                    None => final(att).joueurs@ == old(att).joueurs@.update(
                        t,
                        crate::joueur::apres_but_spec(old(att).joueurs@[t]),
                    ),
                    Some(pid) => exists|p: int|
                        {
                            &&& crate::equipe::est_premier_indice(old(att).joueurs@, pid, p)
                            &&& p != t
                            &&& final(att).joueurs@ == old(att).joueurs@.update(
                                t,
                                crate::joueur::apres_but_spec(old(att).joueurs@[t]),
                            ).update(p, crate::joueur::apres_passe_spec(old(att).joueurs@[p]))
                        },
                }
            },
{
    let mut tireurs: Vec<usize> = Vec::new();
    let mut i: usize = 0;
    while i < att.joueurs.len()
        invariant
            i <= att.joueurs@.len(),
            forall|k: int|
                0 <= k < tireurs@.len() ==> tireurs@[k] < att.joueurs@.len()
                    && att.joueurs@[tireurs@[k] as int].sur_le_terrain && (
                att.joueurs@[tireurs@[k] as int].position_actuelle is Attaquant
                    || att.joueurs@[tireurs@[k] as int].position_actuelle is Milieu),
        decreases att.joueurs@.len() - i,
    {
        if att.joueurs[i].sur_le_terrain && (matches!(
            att.joueurs[i].position_actuelle,
            Position::Attaquant,
        ) || matches!(att.joueurs[i].position_actuelle, Position::Milieu)) {
            tireurs.push(i);
        }
        i = i + 1;
    }
    if tireurs.len() == 0 {
        return None;
    }
    let quel = alea.suivant(tireurs.len() as u64);
    let t_idx = tireurs[quel as usize];
    let buteur_id = att.joueurs[t_idx].id;
    let precision = att.joueurs[t_idx].stats_effectives.precision;
    let attaque = att.joueurs[t_idx].stats_effectives.attaque;
    let prenom = att.joueurs[t_idx].prenom.clone();

    let mut gardien_idx: Option<usize> = None;
    let mut g: usize = 0;
    while g < def.joueurs.len()
        invariant
            g <= def.joueurs@.len(),
            gardien_idx matches Some(gi) ==> gi < def.joueurs@.len()
                && def.joueurs@[gi as int].sur_le_terrain
                && def.joueurs@[gi as int].position_actuelle is Gardien,
            gardien_idx is None ==> forall|k: int|
                0 <= k < g ==> !(def.joueurs@[k].sur_le_terrain
                    && def.joueurs@[k].position_actuelle is Gardien),
        decreases def.joueurs@.len() - g,
    {
        if def.joueurs[g].sur_le_terrain && matches!(
            def.joueurs[g].position_actuelle,
            Position::Gardien,
        ) {
            gardien_idx = Some(g);
            break ;
        }
        g = g + 1;
    }
    let resistance = match gardien_idx {
        Some(gi) => resistance_gardien(
            def.joueurs[gi].stats_effectives.precision,
            def.joueurs[gi].stats_effectives.defense,
        ),
        None => 400,
    };
    let chance = chance_de_but(precision, attaque, resistance);
    if alea.suivant(1000) < chance {
        let mut passeurs: Vec<usize> = Vec::new();
        let mut p: usize = 0;
        while p < att.joueurs.len()
            invariant
                p <= att.joueurs@.len(),
                forall|k: int|
                    0 <= k < passeurs@.len() ==> passeurs@[k] < att.joueurs@.len()
                        && att.joueurs@[passeurs@[k] as int].sur_le_terrain
                        && att.joueurs@[passeurs@[k] as int].id != buteur_id,
            decreases att.joueurs@.len() - p,
        {
            if att.joueurs[p].sur_le_terrain && att.joueurs[p].id != buteur_id {
                passeurs.push(p);
            }
            p = p + 1;
        }
        let passeur_choix: Option<usize> = if passeurs.len() > 0 && alea.suivant(1000) < 600 {
            Some(passeurs[alea.suivant(passeurs.len() as u64) as usize])
        } else {
            None
        };
        let passeur_id: Option<u32> = match passeur_choix {
            Some(pi) => Some(att.joueurs[pi].id),
            None => None,
        };
        let choix = alea.suivant(5);
        let description = construire_description_but(choix, prenom.as_str());
        let ghost avant = att.joueurs@;
        let ghost temoin_t = t_idx as int;
        let ghost mut temoin_p: int = 0;
        att.joueurs[t_idx].marquer_but();
        proof {
            assert forall|k: int| 0 <= k < att.joueurs@.len() implies att.joueurs@[k].id
                == avant[k].id by {}
        }
        match passeur_choix {
            Some(pi) => {
                let pid = att.joueurs[pi].id;
                match att.chercher_joueur(pid) {
                    Some(pj) => {
                        proof {
                            assert(crate::equipe::est_premier_indice(avant, pid, pj as int));
                            temoin_p = pj as int;
                        }
                        att.joueurs[pj].faire_passe_decisive();
                    },
                    None => {
                        proof {
                            assert(att.joueurs@[pi as int].id == pid);
                            assert(false);
                        }
                    },
                }
            },
            None => (),
        }
        proof {
            match passeur_id {
                Some(pid) => {
                    assert(crate::equipe::est_premier_indice(avant, pid, temoin_p));
                    assert(temoin_p != temoin_t);
                    assert(att.joueurs@ =~= avant.update(
                        temoin_t,
                        crate::joueur::apres_but_spec(avant[temoin_t]),
                    ).update(temoin_p, crate::joueur::apres_passe_spec(avant[temoin_p])));
                },
                None => {
                    assert(att.joueurs@ =~= avant.update(
                        temoin_t,
                        crate::joueur::apres_but_spec(avant[temoin_t]),
                    ));
                },
            }
        }
        Some(ResultatTir::But { buteur_id, passeur_id, description })
    } else {
        match gardien_idx {
            Some(gi) => Some(ResultatTir::Arret { gardien_id: def.joueurs[gi].id }),
            None => None,
        }
    }
}

impl MoteurMatch {
    /// Perturb the ball: two noise terms, then a nudge toward the side of
    /// the team that dominates possession, everything clamped to the pitch.
    fn simuler_jeu(&mut self, av: u64)
        requires
            old(self).coherent(),
            av <= AVANCE_MAX,
        ensures
            final(self).coherent(),
            *final(self) == (MoteurMatch {
                ballon_x: final(self).ballon_x,
                ballon_z: final(self).ballon_z,
                alea: final(self).alea,
                ..*old(self)
            }),
            -48_000 <= final(self).ballon_x <= 48_000,
            -23_000 <= final(self).ballon_z <= 23_000,
            exists|t1: u64, t2: u64|
                #![trigger ballon_x_apres(*old(self), t1, av), coordonnee_bruitee(old(self).ballon_z as int, t2, av, 23_000)]
                {
                    &&& t1 < 2000
                    &&& t2 < 2000
                    &&& final(self).ballon_x == ballon_x_apres(*old(self), t1, av)
                    &&& final(self).ballon_z == coordonnee_bruitee(
                        old(self).ballon_z as int,
                        t2,
                        av,
                        23_000,
                    )
                },
    {
        let b1 = self.alea.suivant(2000);
        let b2 = self.alea.suivant(2000);
        self.ballon_x = bruiter(self.ballon_x, b1, av, 48_000);
        self.ballon_z = bruiter(self.ballon_z, b2, av, 23_000);

        let note_d = note_ajustee(&self.equipe_domicile, self.facteur_bonus_domicile);
        let note_e = note_ajustee(&self.equipe_exterieur, self.facteur_bonus_exterieur);
        let total = note_d + note_e;
        if total > 0 {
            proof {
                crate::joueur::borne_mul_div_pub(note_d as int, 1000, 605_000, 1000, total as int);
                vstd::arithmetic::div_mod::lemma_div_is_ordered(
                    (note_d * 1000) as int,
                    (total * 1000) as int,
                    total as int,
                );
                assert(note_d * 1000 <= total * 1000) by (nonlinear_arith)
                    requires
                        note_d <= total,
                ;
                vstd::arithmetic::div_mod::lemma_div_multiples_vanish(1000, total as int);
            }
            let possession = note_d * 1000 / total;
            let magnitude: u64 = if possession >= 500 {
                possession - 500
            } else {
                500 - possession
            };
            proof {
                crate::joueur::borne_mul_div_pub(magnitude as int, av as int, 500, AVANCE_MAX as int, 1);
                crate::joueur::borne_mul_div_pub(
                    (magnitude * av) as int,
                    3,
                    (500 * AVANCE_MAX) as int,
                    3,
                    1_000_000,
                );
            }
            let tendance = magnitude * av * 3 / 1_000_000;
            let brut: i64 = if possession >= 500 {
                self.ballon_x + (tendance as i64)
            } else {
                self.ballon_x - (tendance as i64)
            };
            self.ballon_x = if brut > 48_000 {
                48_000
            } else if brut < -48_000 {
                -48_000
            } else {
                brut
            };
            proof {
                assert(self.ballon_x == ballon_x_apres(*old(self), b1, av));
            }
        } else {
            proof {
                assert(self.ballon_x == ballon_x_apres(*old(self), b1, av));
            }
        }
        proof {
            assert(self.ballon_z == coordonnee_bruitee(old(self).ballon_z as int, b2, av, 23_000));
        }
    }

    /// Drain the stamina of every fielded player of both teams, at the
    /// fixed rate of 1.5 points per second scaled by the team's intensity.
    fn mise_a_jour_stamina(&mut self, av: u64)
        requires
            old(self).coherent(),
            av <= AVANCE_MAX,
        ensures
            final(self).coherent(),
            *final(self) == (MoteurMatch {
                equipe_domicile: final(self).equipe_domicile,
                equipe_exterieur: final(self).equipe_exterieur,
                ..*old(self)
            }),
            meme_cadre(old(self).equipe_domicile, final(self).equipe_domicile),
            meme_cadre(old(self).equipe_exterieur, final(self).equipe_exterieur),
            forall|k: int|
                0 <= k < old(self).equipe_domicile.joueurs@.len() ==> final(self).equipe_domicile.joueurs@[k] == crate::equipe::joueur_draine(
                    old(self).equipe_domicile.joueurs@[k],
                    (1500 * old(self).equipe_domicile.instructions.intensite * av
                        / 1_000_000) as u64,
                ),
            forall|k: int|
                0 <= k < old(self).equipe_exterieur.joueurs@.len() ==> final(self).equipe_exterieur.joueurs@[k] == crate::equipe::joueur_draine(
                    old(self).equipe_exterieur.joueurs@[k],
                    (1500 * old(self).equipe_exterieur.instructions.intensite * av
                        / 1_000_000) as u64,
                ),
    {
        let intensite_d = self.equipe_domicile.instructions.intensite;
        let intensite_e = self.equipe_exterieur.instructions.intensite;
        proof {
            crate::joueur::borne_mul_div_pub(1500, intensite_d as int, 1500, 1500, 1);
            crate::joueur::borne_mul_div_pub(
                (1500 * intensite_d) as int,
                av as int,
                2_250_000,
                AVANCE_MAX as int,
                1_000_000,
            );
            crate::joueur::borne_mul_div_pub(1500, intensite_e as int, 1500, 1500, 1);
            crate::joueur::borne_mul_div_pub(
                (1500 * intensite_e) as int,
                av as int,
                2_250_000,
                AVANCE_MAX as int,
                1_000_000,
            );
        }
        let drain_d = 1500 * intensite_d * av / 1_000_000;
        let drain_e = 1500 * intensite_e * av / 1_000_000;
        self.equipe_domicile.drainer_stamina(drain_d);
        self.equipe_exterieur.drainer_stamina(drain_e);
    }

    /// Resolve one goal attempt for the chosen side: on a goal the score
    /// rises with the log, morale swings both ways; on a save by a
    /// present keeper only a save is logged; otherwise nothing is.
    #[verifier::rlimit(100)]
    #[verifier::spinoff_prover]
    fn tenter_but(&mut self, est_domicile: bool, minute: u64)
        requires
            old(self).coherent(),
            minute == old(self).temps_ecoule / 60_000,
            old(self).temps_ecoule >= old(self).score_domicile + old(self).score_exterieur + 1,
        ensures
            final(self).coherent(),
            *final(self) == (MoteurMatch {
                equipe_domicile: final(self).equipe_domicile,
                equipe_exterieur: final(self).equipe_exterieur,
                score_domicile: final(self).score_domicile,
                score_exterieur: final(self).score_exterieur,
                evenements: final(self).evenements,
                alea: final(self).alea,
                ..*old(self)
            }),
            meme_cadre(old(self).equipe_domicile, final(self).equipe_domicile),
            meme_cadre(old(self).equipe_exterieur, final(self).equipe_exterieur),
            final(self).evenements@.len() >= old(self).evenements@.len(),
            forall|i: int|
                0 <= i < old(self).evenements@.len() ==> final(self).evenements@[i] == old(self).evenements@[i],
            final(self).score_domicile >= old(self).score_domicile,
            final(self).score_exterieur >= old(self).score_exterieur,
            final(self).score_domicile + final(self).score_exterieur <= old(self).score_domicile
                + old(self).score_exterieur + 1,
            est_domicile ==> final(self).score_exterieur == old(self).score_exterieur,
            !est_domicile ==> final(self).score_domicile == old(self).score_domicile,
            final(self).evenements@.len() <= old(self).evenements@.len() + 1,
            forall|i: int|
                old(self).evenements@.len() <= i < final(self).evenements@.len()
                    ==> minute_evenement(final(self).evenements@[i]) == minute,
            forall|k: int|
                0 <= k < old(self).equipe_domicile.joueurs@.len() ==> final(self).equipe_domicile.joueurs@[k].stamina == old(self).equipe_domicile.joueurs@[k].stamina,
            forall|k: int|
                0 <= k < old(self).equipe_exterieur.joueurs@.len() ==> final(self).equipe_exterieur.joueurs@[k].stamina == old(self).equipe_exterieur.joueurs@[k].stamina,
            !a_tireur(joueurs_cote(*old(self), est_domicile)) ==> *final(self) == (MoteurMatch {
                alea: final(self).alea,
                ..*old(self)
            }),
            final(self).evenements@.len() == old(self).evenements@.len() ==> {
                &&& final(self).equipe_domicile.joueurs@ == old(self).equipe_domicile.joueurs@
                &&& final(self).equipe_exterieur.joueurs@ == old(self).equipe_exterieur.joueurs@
                &&& final(self).score_domicile == old(self).score_domicile
                &&& final(self).score_exterieur == old(self).score_exterieur
            },
            final(self).evenements@.len() == old(self).evenements@.len() + 1 ==> (final(self).evenements@.last() is But || final(self).evenements@.last() is SauvetageGardien),
            final(self).evenements@.len() == old(self).evenements@.len() + 1 ==> (final(self).evenements@.last() matches EvenementMatch::But { minute: m2, equipe_id, .. } ==> {
                &&& m2 == minute
                &&& equipe_id == id_cote(*old(self), est_domicile)
                &&& score_cote(*final(self), est_domicile) == score_cote(*old(self), est_domicile)
                    + 1
            }),
            final(self).evenements@.len() == old(self).evenements@.len() + 1 ==> (final(self).evenements@.last() is But ==> joueurs_defense(*final(self), est_domicile)
                == moral_baisse_seq(joueurs_defense(*old(self), est_domicile))),
            final(self).evenements@.len() == old(self).evenements@.len() + 1 ==> (final(self).evenements@.last() matches EvenementMatch::But {
                buteur_id,
                passeur_id,
                description,
                ..
            } ==> exists|t: int|
                #![trigger joueurs_cote(*old(self), est_domicile)[t]]
                {
                    let att_avant = joueurs_cote(*old(self), est_domicile);
                    &&& 0 <= t < att_avant.len()
                    &&& att_avant[t].sur_le_terrain
                    &&& (att_avant[t].position_actuelle is Attaquant
                        || att_avant[t].position_actuelle is Milieu)
                    &&& buteur_id == att_avant[t].id
                    &&& exists|c: u64|
                        c < 5 && description@ == description_but_spec(c, att_avant[t].prenom@)
                    &&& match passeur_id {
                        None => joueurs_cote(*final(self), est_domicile) == moral_hausse_seq(
                            att_avant.update(t, crate::joueur::apres_but_spec(att_avant[t])),
                        ),
                        Some(pid) => exists|p: int|
                            {
                                &&& crate::equipe::est_premier_indice(att_avant, pid, p)
                                &&& p != t
                                &&& joueurs_cote(*final(self), est_domicile) == moral_hausse_seq(
                                    att_avant.update(
                                        t,
                                        crate::joueur::apres_but_spec(att_avant[t]),
                                    ).update(p, crate::joueur::apres_passe_spec(att_avant[p])),
                                )
                            },
                    }
                }),
            final(self).evenements@.len() == old(self).evenements@.len() + 1 ==> (final(self).evenements@.last() is SauvetageGardien ==> {
                &&& final(self).score_domicile == old(self).score_domicile
                &&& final(self).score_exterieur == old(self).score_exterieur
                &&& final(self).equipe_domicile.joueurs@ == old(self).equipe_domicile.joueurs@
                &&& final(self).equipe_exterieur.joueurs@ == old(self).equipe_exterieur.joueurs@
            }),
            final(self).evenements@.len() == old(self).evenements@.len() + 1 ==> (final(self).evenements@.last() matches EvenementMatch::SauvetageGardien {
                minute: m2,
                gardien_id,
            } ==> m2 == minute && exists|g: int|
                #![trigger joueurs_defense(*old(self), est_domicile)[g]]
                {
                    let def_avant = joueurs_defense(*old(self), est_domicile);
                    &&& 0 <= g < def_avant.len()
                    &&& def_avant[g].sur_le_terrain
                    &&& def_avant[g].position_actuelle is Gardien
                    &&& def_avant[g].id == gardien_id
                }),
    {
        let issue = if est_domicile {
            attaque_equipe(&mut self.equipe_domicile, &self.equipe_exterieur, &mut self.alea)
        } else {
            attaque_equipe(&mut self.equipe_exterieur, &self.equipe_domicile, &mut self.alea)
        };
        let ghost att_inter = if est_domicile {
            self.equipe_domicile.joueurs@
        } else {
            self.equipe_exterieur.joueurs@
        };
        match issue {
            None => {
                proof {
                    assert(self.evenements@.len() == old(self).evenements@.len());
                }
            },
            Some(ResultatTir::But { buteur_id, passeur_id, description }) => {
                let equipe_id = if est_domicile {
                    self.equipe_domicile.id
                } else {
                    self.equipe_exterieur.id
                };
                if est_domicile {
                    self.score_domicile = self.score_domicile + 1;
                    self.equipe_domicile.hausser_moral();
                    self.equipe_exterieur.baisser_moral();
                    proof {
                        assert(self.equipe_domicile.joueurs@ =~= moral_hausse_seq(att_inter));
                        assert(self.equipe_exterieur.joueurs@ =~= moral_baisse_seq(
                            old(self).equipe_exterieur.joueurs@,
                        ));
                    }
                } else {
                    self.score_exterieur = self.score_exterieur + 1;
                    self.equipe_exterieur.hausser_moral();
                    self.equipe_domicile.baisser_moral();
                    proof {
                        assert(self.equipe_exterieur.joueurs@ =~= moral_hausse_seq(att_inter));
                        assert(self.equipe_domicile.joueurs@ =~= moral_baisse_seq(
                            old(self).equipe_domicile.joueurs@,
                        ));
                    }
                }
                let ghost avant = self.evenements@;
                let e = EvenementMatch::But { minute, buteur_id, equipe_id, passeur_id, description };
                proof {
                    lemma_compte_buts_push(avant, e, self.equipe_domicile.id);
                    lemma_compte_buts_push(avant, e, self.equipe_exterieur.id);
                    lemma_minutes_push(avant, e, minute);
                }
                self.evenements.push(e);
            },
            Some(ResultatTir::Arret { gardien_id }) => {
                proof {
                    assert(exists|g: int|
                        #![trigger joueurs_defense(*old(self), est_domicile)[g]]
                        {
                            let def_avant = joueurs_defense(*old(self), est_domicile);
                            &&& 0 <= g < def_avant.len()
                            &&& def_avant[g].sur_le_terrain
                            &&& def_avant[g].position_actuelle is Gardien
                            &&& def_avant[g].id == gardien_id
                        });
                }
                let ghost avant = self.evenements@;
                let e = EvenementMatch::SauvetageGardien { minute, gardien_id };
                proof {
                    lemma_compte_buts_push(avant, e, self.equipe_domicile.id);
                    lemma_compte_buts_push(avant, e, self.equipe_exterieur.id);
                    lemma_minutes_push(avant, e, minute);
                }
                self.evenements.push(e);
            },
        }
    }

    /// Maybe book one player of a random side: the trait that charms the
    /// referee divides the chance; on a booking the yellow-card count
    /// rises and the card is logged.
    fn generer_carton(&mut self, minute: u64)
        requires
            old(self).coherent(),
            minute == old(self).temps_ecoule / 60_000,
        ensures
            final(self).coherent(),
            *final(self) == (MoteurMatch {
                equipe_domicile: final(self).equipe_domicile,
                equipe_exterieur: final(self).equipe_exterieur,
                evenements: final(self).evenements,
                alea: final(self).alea,
                ..*old(self)
            }),
            meme_cadre(old(self).equipe_domicile, final(self).equipe_domicile),
            meme_cadre(old(self).equipe_exterieur, final(self).equipe_exterieur),
            final(self).evenements@.len() >= old(self).evenements@.len(),
            forall|i: int|
                0 <= i < old(self).evenements@.len() ==> final(self).evenements@[i] == old(self).evenements@[i],
            final(self).score_domicile == old(self).score_domicile,
            final(self).score_exterieur == old(self).score_exterieur,
            final(self).evenements@.len() <= old(self).evenements@.len() + 1,
            forall|i: int|
                old(self).evenements@.len() <= i < final(self).evenements@.len()
                    ==> minute_evenement(final(self).evenements@[i]) == minute,
            forall|k: int|
                0 <= k < old(self).equipe_domicile.joueurs@.len() ==> final(self).equipe_domicile.joueurs@[k].stamina == old(self).equipe_domicile.joueurs@[k].stamina,
            forall|k: int|
                0 <= k < old(self).equipe_exterieur.joueurs@.len() ==> final(self).equipe_exterieur.joueurs@[k].stamina == old(self).equipe_exterieur.joueurs@[k].stamina,
            final(self).evenements@.len() == old(self).evenements@.len() ==> final(self).equipe_domicile.joueurs@ == old(self).equipe_domicile.joueurs@ && final(self).equipe_exterieur.joueurs@ == old(self).equipe_exterieur.joueurs@,
            final(self).evenements@.len() == old(self).evenements@.len() + 1 ==> final(self).evenements@.last() is CartonJaune,
            final(self).evenements@.len() == old(self).evenements@.len() + 1 ==> (final(self).evenements@.last() matches EvenementMatch::CartonJaune { minute: m2, joueur_id, raison } ==> m2 == minute && raison_carton_valide(raison@) && carton_attribue(*old(self), *final(self), joueur_id)),
    {
        let est_domicile = self.alea.suivant(2) == 0;
        let carte = if est_domicile {
            carton_pour(&mut self.equipe_domicile, &mut self.alea)
        } else {
            carton_pour(&mut self.equipe_exterieur, &mut self.alea)
        };
        match carte {
            Some((joueur_id, raison)) => {
                let ghost avant = self.evenements@;
                let e = EvenementMatch::CartonJaune { minute, joueur_id, raison };
                proof {
                    lemma_compte_buts_push(avant, e, self.equipe_domicile.id);
                    lemma_compte_buts_push(avant, e, self.equipe_exterieur.id);
                    lemma_minutes_push(avant, e, minute);
                }
                self.evenements.push(e);
            },
            None => (),
        }
    }

    /// Maybe grant one side a scientific discovery: a random finding
    /// raises the form of its fielded players and is logged.
    fn generer_decouverte_scientifique(&mut self, minute: u64)
        requires
            old(self).coherent(),
            minute == old(self).temps_ecoule / 60_000,
        ensures
            final(self).coherent(),
            *final(self) == (MoteurMatch {
                equipe_domicile: final(self).equipe_domicile,
                equipe_exterieur: final(self).equipe_exterieur,
                evenements: final(self).evenements,
                alea: final(self).alea,
                ..*old(self)
            }),
            meme_cadre(old(self).equipe_domicile, final(self).equipe_domicile),
            meme_cadre(old(self).equipe_exterieur, final(self).equipe_exterieur),
            final(self).evenements@.len() >= old(self).evenements@.len(),
            forall|i: int|
                0 <= i < old(self).evenements@.len() ==> final(self).evenements@[i] == old(self).evenements@[i],
            final(self).score_domicile == old(self).score_domicile,
            final(self).score_exterieur == old(self).score_exterieur,
            final(self).evenements@.len() == old(self).evenements@.len() + 1,
            forall|i: int|
                old(self).evenements@.len() <= i < final(self).evenements@.len()
                    ==> minute_evenement(final(self).evenements@[i]) == minute,
            forall|k: int|
                0 <= k < old(self).equipe_domicile.joueurs@.len() ==> final(self).equipe_domicile.joueurs@[k].stamina == old(self).equipe_domicile.joueurs@[k].stamina,
            forall|k: int|
                0 <= k < old(self).equipe_exterieur.joueurs@.len() ==> final(self).equipe_exterieur.joueurs@[k].stamina == old(self).equipe_exterieur.joueurs@[k].stamina,
            final(self).evenements@.last() is DecouverteScientifique,
            final(self).evenements@.last() matches EvenementMatch::DecouverteScientifique { minute: m2, equipe_id, description, bonus } ==> {
                &&& m2 == minute
                &&& decouverte_valide(description@, bonus)
                &&& (equipe_id == old(self).equipe_domicile.id || equipe_id == old(self).equipe_exterieur.id)
                &&& (equipe_id == old(self).equipe_domicile.id ==> final(self).equipe_domicile.joueurs@ == forme_boostee_seq(old(self).equipe_domicile.joueurs@, bonus) && final(self).equipe_exterieur.joueurs@ == old(self).equipe_exterieur.joueurs@)
                &&& (equipe_id == old(self).equipe_exterieur.id ==> final(self).equipe_exterieur.joueurs@ == forme_boostee_seq(old(self).equipe_exterieur.joueurs@, bonus) && final(self).equipe_domicile.joueurs@ == old(self).equipe_domicile.joueurs@)
            },
    {
        let est_domicile = self.alea.suivant(2) == 0;
        let equipe_id = if est_domicile {
            self.equipe_domicile.id
        } else {
            self.equipe_exterieur.id
        };
        let quelle = self.alea.suivant(5);
        let texte: &str = if quelle == 0 {
            "Synergie moléculaire découverte !"
        } else if quelle == 1 {
            "Calcul tactique optimisé par algorithme !"
        } else if quelle == 2 {
            "Réaction catalytique explosive !"
        } else if quelle == 3 {
            "Équation du mouvement parfaitement calculée !"
        } else {
            "Circuit neuronal activé !"
        };
        let bonus: u64 = if quelle == 0 {
            100
        } else if quelle == 1 {
            80
        } else if quelle == 2 {
            120
        } else if quelle == 3 {
            90
        } else {
            70
        };
        if est_domicile {
            self.equipe_domicile.booster_forme(bonus);
            proof {
                assert(self.equipe_domicile.joueurs@ =~= forme_boostee_seq(
                    old(self).equipe_domicile.joueurs@,
                    bonus,
                ));
            }
        } else {
            self.equipe_exterieur.booster_forme(bonus);
            proof {
                assert(self.equipe_exterieur.joueurs@ =~= forme_boostee_seq(
                    old(self).equipe_exterieur.joueurs@,
                    bonus,
                ));
            }
        }
        let ghost avant = self.evenements@;
        let e = EvenementMatch::DecouverteScientifique {
            minute,
            equipe_id,
            description: texte.to_owned(),
            bonus,
        };
        proof {
            lemma_compte_buts_push(avant, e, self.equipe_domicile.id);
            lemma_compte_buts_push(avant, e, self.equipe_exterieur.id);
            lemma_minutes_push(avant, e, minute);
        }
        self.evenements.push(e);
    }

    /// Maybe log a highlight play of one random fielded player; this has
    /// no side effect on any statistic.
    fn generer_belle_action(&mut self, minute: u64)
        requires
            old(self).coherent(),
            minute == old(self).temps_ecoule / 60_000,
        ensures
            final(self).coherent(),
            *final(self) == (MoteurMatch { evenements: final(self).evenements, alea: final(self).alea, ..*old(self) }),
            final(self).evenements@.len() >= old(self).evenements@.len(),
            forall|i: int|
                0 <= i < old(self).evenements@.len() ==> final(self).evenements@[i] == old(self).evenements@[i],
            final(self).evenements@.len() <= old(self).evenements@.len() + 1,
            forall|i: int|
                old(self).evenements@.len() <= i < final(self).evenements@.len()
                    ==> minute_evenement(final(self).evenements@[i]) == minute,
            final(self).evenements@.len() == old(self).evenements@.len() ==> ((forall|k: int|
                0 <= k < old(self).equipe_domicile.joueurs@.len()
                    ==> !old(self).equipe_domicile.joueurs@[k].sur_le_terrain) || (forall|k: int|
                0 <= k < old(self).equipe_exterieur.joueurs@.len()
                    ==> !old(self).equipe_exterieur.joueurs@[k].sur_le_terrain)),
            final(self).evenements@.len() == old(self).evenements@.len() + 1 ==> final(self).evenements@.last() is BelleAction,
            final(self).evenements@.len() == old(self).evenements@.len() + 1 ==> (final(self).evenements@.last() matches EvenementMatch::BelleAction { minute: m2, joueur_id, description } ==> {
                &&& m2 == minute
                &&& action_valide(description@)
                &&& ((exists|k: int|
                    0 <= k < old(self).equipe_domicile.joueurs@.len()
                        && old(self).equipe_domicile.joueurs@[k].sur_le_terrain && old(self).equipe_domicile.joueurs@[k].id == joueur_id) || (exists|k: int|
                    0 <= k < old(self).equipe_exterieur.joueurs@.len()
                        && old(self).equipe_exterieur.joueurs@[k].sur_le_terrain && old(self).equipe_exterieur.joueurs@[k].id == joueur_id))
            }),
    {
        let est_domicile = self.alea.suivant(2) == 0;
        let terrain = if est_domicile {
            indices_terrain(&self.equipe_domicile)
        } else {
            indices_terrain(&self.equipe_exterieur)
        };
        if terrain.len() == 0 {
            return ;
        }
        let quel = terrain[self.alea.suivant(terrain.len() as u64) as usize];
        let joueur_id = if est_domicile {
            self.equipe_domicile.joueurs[quel].id
        } else {
            self.equipe_exterieur.joueurs[quel].id
        };
        let choix = self.alea.suivant(6);
        let texte: &str = if choix == 0 {
            "Dribble dévastateur !"
        } else if choix == 1 {
            "Frappe de loin spectaculaire !"
        } else if choix == 2 {
            "Petit pont humiliant !"
        } else if choix == 3 {
            "Tête piquée précise !"
        } else if choix == 4 {
            "Reprise de volée technique !"
        } else {
            "Passe en profondeur parfaite !"
        };
        let ghost avant = self.evenements@;
        let e = EvenementMatch::BelleAction { minute, joueur_id, description: texte.to_owned() };
        proof {
            lemma_compte_buts_push(avant, e, self.equipe_domicile.id);
            lemma_compte_buts_push(avant, e, self.equipe_exterieur.id);
            lemma_minutes_push(avant, e, minute);
        }
        self.evenements.push(e);
    }

    /// Roll the independent per-tick event checks: goal attempt, yellow
    /// card, scientific discovery, highlight. Each chance is its base
    /// rate times the advance (a small-delta Poisson approximation).
    #[verifier::rlimit(100)]
    #[verifier::spinoff_prover]
    fn generer_evenements(&mut self, av: u64)
        requires
            old(self).coherent(),
            av <= AVANCE_MAX,
            old(self).temps_ecoule >= old(self).score_domicile + old(self).score_exterieur + av,
        ensures
            final(self).coherent(),
            *final(self) == (MoteurMatch {
                equipe_domicile: final(self).equipe_domicile,
                equipe_exterieur: final(self).equipe_exterieur,
                score_domicile: final(self).score_domicile,
                score_exterieur: final(self).score_exterieur,
                evenements: final(self).evenements,
                alea: final(self).alea,
                ..*old(self)
            }),
            meme_cadre(old(self).equipe_domicile, final(self).equipe_domicile),
            meme_cadre(old(self).equipe_exterieur, final(self).equipe_exterieur),
            final(self).evenements@.len() >= old(self).evenements@.len(),
            forall|i: int|
                0 <= i < old(self).evenements@.len() ==> final(self).evenements@[i] == old(self).evenements@[i],
            final(self).score_domicile >= old(self).score_domicile,
            final(self).score_exterieur >= old(self).score_exterieur,
            final(self).score_domicile + final(self).score_exterieur <= old(self).score_domicile
                + old(self).score_exterieur + 1,
            forall|i: int|
                old(self).evenements@.len() <= i < final(self).evenements@.len()
                    ==> minute_evenement(final(self).evenements@[i]) == old(self).temps_ecoule
                    / 60_000,
            forall|k: int|
                0 <= k < old(self).equipe_domicile.joueurs@.len() ==> final(self).equipe_domicile.joueurs@[k].stamina == old(self).equipe_domicile.joueurs@[k].stamina,
            forall|k: int|
                0 <= k < old(self).equipe_exterieur.joueurs@.len() ==> final(self).equipe_exterieur.joueurs@[k].stamina == old(self).equipe_exterieur.joueurs@[k].stamina,
    {
        let minute = self.temps_ecoule / 60_000;
        if self.alea.suivant(1_000_000_000) < 1800 * av {
            let note_d = note_ajustee(&self.equipe_domicile, self.facteur_bonus_domicile);
            let note_e = note_ajustee(&self.equipe_exterieur, self.facteur_bonus_exterieur);
            let total = note_d + note_e;
            if total == 0 {
                self.tenter_but(false, minute);
            } else {
                proof {
                    crate::joueur::borne_mul_div_pub(
                        note_d as int,
                        1_000_000_000,
                        605_000,
                        1_000_000_000,
                        total as int,
                    );
                }
                let seuil = note_d * 1_000_000_000 / total;
                let est_dom = self.alea.suivant(1_000_000_000) < seuil;
                self.tenter_but(est_dom, minute);
            }
        }
        if self.alea.suivant(1_000_000_000) < 300 * av {
            self.generer_carton(minute);
        }
        if self.alea.suivant(1_000_000_000) < 200 * av {
            self.generer_decouverte_scientifique(minute);
        }
        if self.alea.suivant(1_000_000_000) < 500 * av {
            self.generer_belle_action(minute);
        }
    }

    /// One simulation tick. Nothing happens unless the match is running
    /// and not finished. The clock advances by the delta scaled by the
    /// simulation speed; reaching 600 s in the first half freezes the
    /// match at half-time; reaching 1200 s in the second half closes it
    /// and reconciles the records; otherwise the ball, the stamina and
    /// the random events are simulated for this tick.
    pub fn mise_a_jour(&mut self, delta: u32)
        requires
            old(self).valide(),
        ensures
            final(self).valide(),
            !old(self).en_jeu || old(self).periode is Termine ==> *final(self) == *old(self),
            final(self).temps_ecoule >= old(self).temps_ecoule,
            rang_periode(final(self).periode) >= rang_periode(old(self).periode),
            final(self).score_domicile >= old(self).score_domicile,
            final(self).score_exterieur >= old(self).score_exterieur,
            final(self).evenements@.len() >= old(self).evenements@.len(),
            forall|i: int|
                0 <= i < old(self).evenements@.len() ==> final(self).evenements@[i] == old(self).evenements@[i],
            old(self).en_jeu && !(old(self).periode is Termine) ==> final(self).temps_ecoule == old(self).temps_ecoule + avance_tick(delta, old(self).vitesse_simulation),
            old(self).en_jeu && old(self).periode is PremiereMitemps && old(self).temps_ecoule
                + avance_tick(delta, old(self).vitesse_simulation) >= MI_TEMPS_MS ==> *final(self)
                == (MoteurMatch {
                temps_ecoule: (old(self).temps_ecoule + avance_tick(
                    delta,
                    old(self).vitesse_simulation,
                )) as u64,
                periode: PeriodeMatch::MiTemps,
                en_jeu: false,
                ..*old(self)
            }),
            old(self).en_jeu && old(self).periode is DeuxiemeMitemps && old(self).temps_ecoule
                + avance_tick(delta, old(self).vitesse_simulation) >= DUREE_MATCH_MS ==> *final(self) == (MoteurMatch {
                temps_ecoule: (old(self).temps_ecoule + avance_tick(
                    delta,
                    old(self).vitesse_simulation,
                )) as u64,
                periode: PeriodeMatch::Termine,
                en_jeu: false,
                equipe_domicile: equipe_apres_resultat(
                    old(self).equipe_domicile,
                    old(self).score_domicile,
                    old(self).score_exterieur,
                ),
                equipe_exterieur: equipe_apres_resultat(
                    old(self).equipe_exterieur,
                    old(self).score_exterieur,
                    old(self).score_domicile,
                ),
                ..*old(self)
            }),
            old(self).en_jeu && !(old(self).periode is Termine) && !(old(self).periode is PremiereMitemps && old(self).temps_ecoule + avance_tick(
                delta,
                old(self).vitesse_simulation,
            ) >= MI_TEMPS_MS) && !(old(self).periode is DeuxiemeMitemps && old(self).temps_ecoule
                + avance_tick(delta, old(self).vitesse_simulation) >= DUREE_MATCH_MS) ==> {
                &&& final(self).periode == old(self).periode
                &&& final(self).en_jeu
                &&& meme_cadre(old(self).equipe_domicile, final(self).equipe_domicile)
                &&& meme_cadre(old(self).equipe_exterieur, final(self).equipe_exterieur)
                &&& final(self).score_domicile + final(self).score_exterieur <= old(self).score_domicile + old(self).score_exterieur + 1
                &&& final(self).vitesse_simulation == old(self).vitesse_simulation
                &&& final(self).id == old(self).id
                &&& forall|i: int|
                    old(self).evenements@.len() <= i < final(self).evenements@.len()
                        ==> minute_evenement(final(self).evenements@[i]) == final(self).temps_ecoule / 60_000
                &&& forall|k: int|
                    0 <= k < old(self).equipe_domicile.joueurs@.len() ==> final(self).equipe_domicile.joueurs@[k].stamina == crate::equipe::joueur_draine(
                        old(self).equipe_domicile.joueurs@[k],
                        (1500 * old(self).equipe_domicile.instructions.intensite * avance_tick(
                            delta,
                            old(self).vitesse_simulation,
                        ) / 1_000_000) as u64,
                    ).stamina
                &&& forall|k: int|
                    0 <= k < old(self).equipe_exterieur.joueurs@.len() ==> final(self).equipe_exterieur.joueurs@[k].stamina == crate::equipe::joueur_draine(
                        old(self).equipe_exterieur.joueurs@[k],
                        (1500 * old(self).equipe_exterieur.instructions.intensite * avance_tick(
                            delta,
                            old(self).vitesse_simulation,
                        ) / 1_000_000) as u64,
                    ).stamina
            },
    {
        if !self.en_jeu {
            return ;
        }
        if matches!(self.periode, PeriodeMatch::Termine) {
            return ;
        }
        proof {
            lemma_avance_bornee(delta, self.vitesse_simulation);
        }
        let avancee = (delta as u64) * self.vitesse_simulation / 1000;
        proof {
            vstd::arithmetic::div_mod::lemma_div_is_ordered(
                old(self).temps_ecoule as int,
                old(self).temps_ecoule + avancee,
                60_000,
            );
        }
        self.temps_ecoule = self.temps_ecoule + avancee;
        if self.temps_ecoule >= MI_TEMPS_MS && matches!(
            self.periode,
            PeriodeMatch::PremiereMitemps,
        ) {
            self.periode = PeriodeMatch::MiTemps;
            self.en_jeu = false;
            return ;
        }
        if self.temps_ecoule >= DUREE_MATCH_MS && matches!(
            self.periode,
            PeriodeMatch::DeuxiemeMitemps,
        ) {
            self.terminer_match();
            return ;
        }
        self.simuler_jeu(avancee);
        self.mise_a_jour_stamina(avancee);
        self.generer_evenements(avancee);
    }
}

/// Maybe book one fielded player of this roster: the chance threshold is
/// 0.7, cut to 0.21 for a player that charms the referee.
fn carton_pour(equipe: &mut Equipe, alea: &mut GenerateurAlea) -> (r: Option<(u32, String)>)
    requires
        old(equipe).valide(),
    ensures
        final(equipe).valide(),
        meme_cadre(*old(equipe), *final(equipe)),
        r is None ==> *final(equipe) == *old(equipe),
        r matches Some((joueur_id, raison)) ==> carton_dans(
            old(equipe).joueurs@,
            final(equipe).joueurs@,
            joueur_id,
        ) && raison_carton_valide(raison@),
{
    let terrain = indices_terrain(equipe);
    if terrain.len() == 0 {
        return None;
    }
    let quel = terrain[alea.suivant(terrain.len() as u64) as usize];
    let joueur_id = equipe.joueurs[quel].id;
    let idx = match equipe.chercher_joueur(joueur_id) {
        Some(i) => i,
        None => {
            return None;
        },
    };
    let charmeur = a_trait_charmeur(&equipe.joueurs[idx]);
    let seuil: u64 = if charmeur {
        210
    } else {
        700
    };
    if alea.suivant(1000) >= seuil {
        return None;
    }
    let ghost avant = equipe.joueurs@;
    let cartons = equipe.joueurs[idx].cartons_jaunes;
    equipe.joueurs[idx].cartons_jaunes = cartons.saturating_add(1);
    proof {
        assert(equipe.joueurs@ =~= avant.update(
            idx as int,
            Joueur { cartons_jaunes: incr_u64(avant[idx as int].cartons_jaunes), ..avant[idx as int] },
        ));
    }
    let choix = alea.suivant(4);
    let raison: &str = if choix == 0 {
        "Tacle trop appuyé"
    } else if choix == 1 {
        "Contestation de décision"
    } else if choix == 2 {
        "Retard de jeu"
    } else {
        "Faute tactique"
    };
    proof {
        assert(crate::equipe::est_premier_indice(old(equipe).joueurs@, joueur_id, idx as int));
        let ic = choose|i: int|
            crate::equipe::est_premier_indice(old(equipe).joueurs@, joueur_id, i);
        assert(ic == idx as int);
        assert(equipe.joueurs@ == old(equipe).joueurs@.update(
            ic,
            Joueur {
                cartons_jaunes: incr_u64(old(equipe).joueurs@[ic].cartons_jaunes),
                ..old(equipe).joueurs@[ic]
            },
        ));
    }
    Some((joueur_id, raison.to_owned()))
}

/// The winner of a finished match: the team with the higher score, or
/// none on a draw or while the match is not finished.
pub open spec fn vainqueur_spec(m: MoteurMatch) -> Option<u32> {
    if !(m.periode is Termine) {
        None
    } else if m.score_domicile > m.score_exterieur {
        Some(m.equipe_domicile.id)
    } else if m.score_domicile < m.score_exterieur {
        Some(m.equipe_exterieur.id)
    } else {
        None
    }
}

} // verus!
