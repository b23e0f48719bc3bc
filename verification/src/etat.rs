//! Global game state around the engine: the stable rosters, the match
//! in progress, and the copy-back of the final records once a match
//! finishes.

use vstd::prelude::*;
use crate::effectif::creer_joueurs_reels;
use crate::equipe::Equipe;
use crate::joueur::Joueur;
use crate::moteur::{MoteurMatch, PeriodeMatch};

verus! {

/// Why a free player could not be signed.
#[derive(Debug, Clone, Copy, PartialEq, Eq, Structural)]
pub enum ErreurRecrutement {
    JoueurIntrouvable,
    EquipeIntrouvable,
    EquipeComplete,
}

impl ErreurRecrutement {
    pub fn message(&self) -> &'static str {
        match self {
            ErreurRecrutement::JoueurIntrouvable => "Joueur non trouvé",
            ErreurRecrutement::EquipeIntrouvable => "Équipe non trouvée",
            ErreurRecrutement::EquipeComplete => "L'équipe est complète (10 joueurs max)",
        }
    }
}

/// Why a match could not be created.
#[derive(Debug, Clone, Copy, PartialEq, Eq, Structural)]
pub enum ErreurCreationMatch {
    Equipe1NonTrouvee,
    Equipe2NonTrouvee,
    EquipesIdentiques,
    TitulairesInsuffisants,
}

impl ErreurCreationMatch {
    pub fn message(&self) -> &'static str {
        match self {
            ErreurCreationMatch::Equipe1NonTrouvee => "Équipe 1 non trouvée",
            ErreurCreationMatch::Equipe2NonTrouvee => "Équipe 2 non trouvée",
            ErreurCreationMatch::EquipesIdentiques => "Les deux équipes doivent être distinctes",
            ErreurCreationMatch::TitulairesInsuffisants => "Pas assez de titulaires (min 5)",
        }
    }
}

/// `i` is the first index of `s` holding the team `id`.
pub open spec fn est_premiere_equipe(s: Seq<Equipe>, id: u32, i: int) -> bool {
    &&& 0 <= i < s.len()
    &&& s[i].id == id
    &&& forall|k: int| 0 <= k < i ==> s[k].id != id
}

/// The lobby: stable teams, the running match, selection state, and the
/// pool of players not yet signed.
#[derive(Debug)]
pub struct EtatJeu {
    pub equipes: Vec<Equipe>,
    pub match_actuel: Option<MoteurMatch>,
    pub equipe_selectionnee_idx: Option<usize>,
    pub joueur_selectionne_id: Option<u32>,
    pub id_compteur: u32,
    pub match_compteur: u32,
    pub saison: u32,
    pub joueurs_disponibles: Vec<Joueur>,
}

impl EtatJeu {
    /// Every stored team, free player and the running match (if any) is
    /// well-formed.
    pub open spec fn valide(&self) -> bool {
        &&& forall|i: int| 0 <= i < self.equipes@.len() ==> self.equipes@[i].valide()
        &&& forall|i: int|
            0 <= i < self.joueurs_disponibles@.len() ==> self.joueurs_disponibles@[i].valide()
        &&& self.match_actuel matches Some(m) ==> m.valide()
    }

    /// Index of the first stored team with this identifier.
    pub fn indice_equipe(&self, id: u32) -> (r: Option<usize>)
        ensures
            r matches Some(i) ==> est_premiere_equipe(self.equipes@, id, i as int),
            r is None ==> forall|k: int| 0 <= k < self.equipes@.len() ==> self.equipes@[k].id != id,
    {
        let mut i: usize = 0;
        while i < self.equipes.len()
            invariant
                i <= self.equipes@.len(),
                forall|k: int| 0 <= k < i ==> self.equipes@[k].id != id,
            decreases self.equipes@.len() - i,
        {
            if self.equipes[i].id == id {
                return Some(i);
            }
            i = i + 1;
        }
        None
    }

    /// Reference to the first stored team with this identifier.
    pub fn get_equipe(&self, id: u32) -> (r: Option<&Equipe>)
        ensures
            r matches Some(e) ==> exists|i: int|
                est_premiere_equipe(self.equipes@, id, i) && *e == self.equipes@[i],
            r is None ==> forall|k: int| 0 <= k < self.equipes@.len() ==> self.equipes@[k].id != id,
    {
        match self.indice_equipe(id) {
            Some(i) => Some(&self.equipes[i]),
            None => None,
        }
    }

    /// Reference to the team the interface has selected, if any.
    pub fn get_equipe_selectionnee(&self) -> (r: Option<&Equipe>)
        ensures
            r matches Some(e) ==> exists|i: int|
                self.equipe_selectionnee_idx == Some(i as usize) && 0 <= i
                    < self.equipes@.len() && *e == self.equipes@[i],
            r is None ==> match self.equipe_selectionnee_idx {
                Some(i) => i >= self.equipes@.len(),
                None => true,
            },
    {
        match self.equipe_selectionnee_idx {
            Some(i) => {
                if i < self.equipes.len() {
                    Some(&self.equipes[i])
                } else {
                    None
                }
            },
            None => None,
        }
    }

    /// Start a match between two distinct stored teams, each fielding at
    /// least five players; the engine receives its own deep copies.
    pub fn creer_match(&mut self, equipe1_id: u32, equipe2_id: u32) -> (r: Result<
        (),
        ErreurCreationMatch,
    >)
        requires
            old(self).valide(),
        ensures
            final(self).valide(),
            r is Err ==> *final(self) == *old(self),
            r is Ok ==> (final(self).match_actuel matches Some(m) ==> m.valide()
                && m.periode is PremiereMitemps && m.temps_ecoule == 0
                && m.score_domicile == 0 && m.score_exterieur == 0
                && m.equipe_domicile.id == equipe1_id && m.equipe_exterieur.id == equipe2_id),
            r is Ok ==> final(self).match_actuel is Some,
            r is Ok ==> final(self).equipes == old(self).equipes,
            r is Ok ==> (final(self).match_actuel matches Some(m) ==> exists|i1: int, i2: int|
                {
                    &&& est_premiere_equipe(old(self).equipes@, equipe1_id, i1)
                    &&& est_premiere_equipe(old(self).equipes@, equipe2_id, i2)
                    &&& crate::equipe::meme_equipe(old(self).equipes@[i1], m.equipe_domicile)
                    &&& crate::equipe::meme_equipe(old(self).equipes@[i2], m.equipe_exterieur)
                }),
    {
        if equipe1_id == equipe2_id {
            return Err(ErreurCreationMatch::EquipesIdentiques);
        }
        let i1 = match self.indice_equipe(equipe1_id) {
            Some(i) => i,
            None => {
                return Err(ErreurCreationMatch::Equipe1NonTrouvee);
            },
        };
        let i2 = match self.indice_equipe(equipe2_id) {
            Some(i) => i,
            None => {
                return Err(ErreurCreationMatch::Equipe2NonTrouvee);
            },
        };
        let equipe1 = self.equipes[i1].clone();
        let equipe2 = self.equipes[i2].clone();
        if equipe1.get_titulaires().len() < 5 {
            return Err(ErreurCreationMatch::TitulairesInsuffisants);
        }
        if equipe2.get_titulaires().len() < 5 {
            return Err(ErreurCreationMatch::TitulairesInsuffisants);
        }
        let id = self.match_compteur;
        self.match_compteur = self.match_compteur.saturating_add(1);
        proof {
            assert(equipe1.valide());
            assert(equipe2.valide());
        }
        self.match_actuel = Some(MoteurMatch::nouveau(id, equipe1, equipe2));
        Ok(())
    }

    /// Sign the free player at `joueur_idx` for the team `equipe_id`
    /// (ten players per team at most here).
    pub fn ajouter_joueur_a_equipe(&mut self, joueur_idx: usize, equipe_id: u32) -> (r: Result<
        (),
        ErreurRecrutement,
    >)
        requires
            old(self).valide(),
        ensures
            final(self).valide(),
            r is Err ==> *final(self) == *old(self),
            r == Err::<(), ErreurRecrutement>(ErreurRecrutement::JoueurIntrouvable) <==> joueur_idx
                >= old(self).joueurs_disponibles@.len(),
            joueur_idx < old(self).joueurs_disponibles@.len() && (forall|k: int|
                0 <= k < old(self).equipes@.len() ==> old(self).equipes@[k].id != equipe_id) ==> r
                == Err::<(), ErreurRecrutement>(ErreurRecrutement::EquipeIntrouvable),
            r is Ok ==> final(self).joueurs_disponibles@.len() == old(
                self,
            ).joueurs_disponibles@.len() - 1,
    {
        if joueur_idx >= self.joueurs_disponibles.len() {
            return Err(ErreurRecrutement::JoueurIntrouvable);
        }
        let idx = match self.indice_equipe(equipe_id) {
            Some(i) => i,
            None => {
                return Err(ErreurRecrutement::EquipeIntrouvable);
            },
        };
        if self.equipes[idx].joueurs.len() >= 10 {
            return Err(ErreurRecrutement::EquipeComplete);
        }
        let joueur = self.joueurs_disponibles.remove(joueur_idx);
        self.equipes[idx].joueurs.push(joueur);
        Ok(())
    }

    /// Build the two demonstration teams from the real squad, and pick
    /// their line-ups automatically.
    pub fn initialiser_equipes_demo(&mut self)
        requires
            old(self).valide(),
        ensures
            final(self).valide(),
            final(self).equipes@.len() == 2,
            final(self).joueurs_disponibles@.len() == 0,
            final(self).equipes@[0].id == 1,
            final(self).equipes@[1].id == 2,
    {
        let tous_joueurs = creer_joueurs_reels();
        let mut equipe1 = Equipe::new(1, "Les Scientifiques Rouges");
        let mut equipe2 = Equipe::new(2, "Les Chercheurs Bleus");

        let mut i: usize = 0;
        let n = tous_joueurs.len();
        let mut restants = tous_joueurs;
        while i < n
            invariant
                equipe1.valide(),
                equipe2.valide(),
                equipe1.id == 1,
                equipe2.id == 2,
                i <= n,
                restants@.len() == n - i,
                forall|k: int| 0 <= k < restants@.len() ==> restants@[k].valide(),
            decreases n - i,
        {
            let joueur = restants.remove(0);
            if joueur.id <= 8 {
                let _ = equipe1.ajouter_joueur(joueur);
            } else {
                let _ = equipe2.ajouter_joueur(joueur);
            }
            i = i + 1;
        }

        equipe1.selectionner_titulaires_auto();
        equipe2.selectionner_titulaires_auto();

        let mut equipes: Vec<Equipe> = Vec::new();
        equipes.push(equipe1);
        equipes.push(equipe2);
        self.equipes = equipes;
        self.joueurs_disponibles = Vec::new();
    }

    /// Once the running match is finished, write its two final team
    /// snapshots back over the stored teams with the same identifiers.
    pub fn synchroniser_match_vers_equipes(&mut self)
        requires
            old(self).valide(),
        ensures
            final(self).valide(),
            final(self).equipes@.len() == old(self).equipes@.len(),
            !(old(self).match_actuel matches Some(m) && m.periode is Termine)
                ==> *final(self) == *old(self),
            old(self).match_actuel matches Some(m) ==> m.periode is Termine ==> {
                &&& *final(self) == (EtatJeu { equipes: final(self).equipes, ..*old(self) })
                &&& forall|k: int|
                    0 <= k < old(self).equipes@.len() && !est_premiere_equipe(
                        old(self).equipes@,
                        m.equipe_domicile.id,
                        k,
                    ) && !est_premiere_equipe(old(self).equipes@, m.equipe_exterieur.id, k)
                        ==> final(self).equipes@[k] == old(self).equipes@[k]
                &&& forall|k: int|
                    est_premiere_equipe(old(self).equipes@, m.equipe_domicile.id, k)
                        ==> crate::equipe::meme_equipe(m.equipe_domicile, final(self).equipes@[k])
                &&& forall|k: int|
                    est_premiere_equipe(old(self).equipes@, m.equipe_exterieur.id, k)
                        ==> crate::equipe::meme_equipe(m.equipe_exterieur, final(self).equipes@[k])
            },
    {
        let (dom, ext) = match &self.match_actuel {
            Some(m) => {
                if matches!(m.periode, PeriodeMatch::Termine) {
                    (m.equipe_domicile.clone(), m.equipe_exterieur.clone())
                } else {
                    return ;
                }
            },
            None => {
                return ;
            },
        };
        let ghost equipes_avant = self.equipes@;
        let ghost id_dom = dom.id;
        let ghost id_ext = ext.id;
        match self.indice_equipe(dom.id) {
            Some(i) => {
                self.equipes.set(i, dom);
            },
            None => (),
        }
        proof {
            assert forall|k: int| 0 <= k < self.equipes@.len() implies self.equipes@[k].id
                == equipes_avant[k].id by {}
        }
        match self.indice_equipe(ext.id) {
            Some(i) => {
                proof {
                    assert(est_premiere_equipe(equipes_avant, id_ext, i as int));
                }
                self.equipes.set(i, ext);
            },
            None => {
                proof {
                    assert forall|k: int|
                        0 <= k < equipes_avant.len() implies equipes_avant[k].id != id_ext by {}
                }
            },
        }
    }
}

impl Default for EtatJeu {
    /// The fresh lobby: the two named teams without players, the full
    /// squad in the free-player pool, counters at their starting values.
    fn default() -> (r: Self)
        ensures
            r.valide(),
            r.equipes@.len() == 2,
            r.match_actuel is None,
            r.equipe_selectionnee_idx is None,
            r.joueur_selectionne_id is None,
            r.id_compteur == 100,
            r.match_compteur == 1,
            r.saison == 1,
            r.joueurs_disponibles@.len() == 15,
    {
        let joueurs = creer_joueurs_reels();
        let mut equipe1 = Equipe::new(1, "Les Scientifiques Rouges");
        equipe1.budget = 500_000;
        let mut equipe2 = Equipe::new(2, "Les Chercheurs Bleus");
        equipe2.budget = 500_000;
        let mut equipes: Vec<Equipe> = Vec::new();
        equipes.push(equipe1);
        equipes.push(equipe2);
        EtatJeu {
            equipes,
            match_actuel: None,
            equipe_selectionnee_idx: None,
            joueur_selectionne_id: None,
            id_compteur: 100,
            match_compteur: 1,
            saison: 1,
            joueurs_disponibles: joueurs,
        }
    }
}

} // verus!
