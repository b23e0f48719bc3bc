//! Simulation engine for a timed five-a-side football match between two
//! owned team snapshots: a forward-only clock and period state machine,
//! a continuous ball and stamina simulation, a stochastic event
//! generator with tunable rates, and the final reconciliation of the
//! two team records.
//!
//! All continuous quantities (seconds, attribute points, multipliers,
//! pitch coordinates) are held as fixed-point integers in thousandths,
//! so that every computation of the engine is stated and verified
//! exactly.

pub mod alea;
pub mod domaine;
pub mod effectif;
pub mod equipe;
pub mod etat;
pub mod joueur;
pub mod lois;
pub mod moteur;
pub mod power_up;
pub mod texte;
