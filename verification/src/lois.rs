//! The global guarantees of the engine, stated as standalone lemmas over
//! the state invariant. The transition guarantees — a frozen or finished
//! match is never changed by a tick, the clock and the period only move
//! forward, the reconciliation happens exactly once — are the `ensures`
//! clauses of `MoteurMatch::demarrer`, `pause`, `reprendre`,
//! `mise_a_jour` and `faire_substitution` themselves.

use vstd::prelude::*;
use crate::moteur::{MoteurMatch, compte_buts, minutes_triees, vainqueur_spec};

verus! {

/// Each side's score always equals the number of goal events credited to
/// it in the log: the log is the score's ledger.
pub proof fn lemma_score_egal_compte_buts(m: MoteurMatch)
    requires
        m.valide(),
    ensures
        m.score_domicile == compte_buts(m.evenements@, m.equipe_domicile.id),
        m.score_exterieur == compte_buts(m.evenements@, m.equipe_exterieur.id),
{
}

/// The ball never leaves the pitch: after every tick its coordinates
/// satisfy x in [-50, 50] and z in [-25, 25] (here in thousandths, and
/// in fact clamped to the tighter in-play bounds of 48 and 23).
pub proof fn lemma_ballon_dans_le_terrain(m: MoteurMatch)
    requires
        m.valide(),
    ensures
        -50_000 <= m.ballon_x <= 50_000,
        -25_000 <= m.ballon_z <= 25_000,
{
}

/// No player's stamina ever exceeds that player's maximum (and, being
/// an unsigned quantity, it is never negative).
pub proof fn lemma_stamina_bornee(m: MoteurMatch)
    requires
        m.valide(),
    ensures
        forall|k: int|
            0 <= k < m.equipe_domicile.joueurs@.len() ==> m.equipe_domicile.joueurs@[k].stamina
                <= m.equipe_domicile.joueurs@[k].stamina_max,
        forall|k: int|
            0 <= k < m.equipe_exterieur.joueurs@.len() ==> m.equipe_exterieur.joueurs@[k].stamina
                <= m.equipe_exterieur.joueurs@[k].stamina_max,
{
}

/// During the half-time break the match is never running, so the clock
/// is frozen until `reprendre` is called.
pub proof fn lemma_mi_temps_fige(m: MoteurMatch)
    requires
        m.valide(),
        m.periode is MiTemps,
    ensures
        !m.en_jeu,
{
}

/// The event log is ordered: minutes never decrease along it, and no
/// event is ahead of the clock.
pub proof fn lemma_journal_ordonne(m: MoteurMatch)
    requires
        m.valide(),
    ensures
        minutes_triees(m.evenements@),
        crate::moteur::minutes_bornees(m.evenements@, (m.temps_ecoule / 60_000) as u64),
{
}

/// The winner query agrees with the final score: on a finished match the
/// side with the higher score wins, and a draw has no winner; an
/// unfinished match has no winner yet.
pub proof fn lemma_vainqueur_coherent(m: MoteurMatch)
    requires
        m.valide(),
    ensures
        m.periode is Termine && m.score_domicile > m.score_exterieur ==> vainqueur_spec(m)
            == Some(m.equipe_domicile.id),
        m.periode is Termine && m.score_domicile < m.score_exterieur ==> vainqueur_spec(m)
            == Some(m.equipe_exterieur.id),
        m.periode is Termine && m.score_domicile == m.score_exterieur ==> vainqueur_spec(m)
            is None,
        !(m.periode is Termine) ==> vainqueur_spec(m) is None,
{
}

} // verus!
