//! Teams: roster, formation, tactical instructions, season counters and
//! team chemistry. Chemistry and intensity are fixed-point values in
//! thousandths.

use vstd::prelude::*;
use crate::domaine::{ScientificDomain, compatibilite};
use crate::joueur::{
    Joueur, Position, baisse_bornee, hausse_bornee, incr_u64, stamina_consommee_spec,
    stamina_recuperee_spec, NOTE_MAX,
};

verus! {

/// Highest team rating, in thousandths: a full squad of perfect players
/// with maximal chemistry.
pub const NOTE_EQUIPE_MAX: u64 = 275_000;

/// Tactical formation of a five-a-side team.
#[derive(Debug, Clone, Copy, PartialEq, Eq, Structural)]
pub enum Formation {
    F121,
    F112,
    F211,
    F1111,
}

impl Formation {
    pub fn get_nom(&self) -> &'static str {
        match self {
            Formation::F121 => "1-2-1 (Équilibré)",
            Formation::F112 => "1-1-2 (Offensif)",
            Formation::F211 => "2-1-1 (Défensif)",
            Formation::F1111 => "1-1-1-1 (Flexible)",
        }
    }

    /// The five positions the formation fields, goalkeeper first.
    pub fn get_positions_requises(&self) -> (r: Vec<Position>)
        ensures
            r@ == positions_requises_spec(*self),
            r@.len() == 5,
    {
        let mut v: Vec<Position> = Vec::new();
        v.push(Position::Gardien);
        v.push(Position::Defenseur);
        match self {
            Formation::F121 => {
                v.push(Position::Milieu);
                v.push(Position::Milieu);
                v.push(Position::Attaquant);
            },
            Formation::F112 => {
                v.push(Position::Milieu);
                v.push(Position::Attaquant);
                v.push(Position::Attaquant);
            },
            Formation::F211 => {
                v.push(Position::Defenseur);
                v.push(Position::Milieu);
                v.push(Position::Attaquant);
            },
            Formation::F1111 => {
                v.push(Position::Milieu);
                v.push(Position::Attaquant);
                v.push(Position::Milieu);
            },
        }
        proof {
            assert(v@ =~= positions_requises_spec(*self));
        }
        v
    }

    pub fn get_description(&self) -> &'static str {
        match self {
            Formation::F121 => "Équilibre parfait entre défense et attaque",
            Formation::F112 => "Deux attaquants pour un jeu offensif explosif",
            Formation::F211 => "Priorité à la défense avec deux défenseurs",
            Formation::F1111 => "Formation flexible adaptée à toutes les situations",
        }
    }
}

/// The five positions of each formation, goalkeeper first.
pub open spec fn positions_requises_spec(f: Formation) -> Seq<Position> {
    match f {
        Formation::F121 => seq![
            Position::Gardien,
            Position::Defenseur,
            Position::Milieu,
            Position::Milieu,
            Position::Attaquant,
        ],
        Formation::F112 => seq![
            Position::Gardien,
            Position::Defenseur,
            Position::Milieu,
            Position::Attaquant,
            Position::Attaquant,
        ],
        Formation::F211 => seq![
            Position::Gardien,
            Position::Defenseur,
            Position::Defenseur,
            Position::Milieu,
            Position::Attaquant,
        ],
        Formation::F1111 => seq![
            Position::Gardien,
            Position::Defenseur,
            Position::Milieu,
            Position::Attaquant,
            Position::Milieu,
        ],
    }
}

/// Tactical instructions; the pressing intensity lies in [500, 1500]
/// (0.5 to 1.5).
#[derive(Debug, Clone, Copy, PartialEq, Eq, Structural)]
pub struct InstructionsTactiques {
    pub intensite: u64,
    pub pressing_haut: bool,
    pub contre_attaque: bool,
    pub possession: bool,
    pub ligne_haute: bool,
    pub tirs_a_distance: bool,
}

impl Default for InstructionsTactiques {
    fn default() -> (r: Self)
        ensures
            r.intensite == 1000,
            !r.pressing_haut,
            !r.contre_attaque,
            r.possession,
            !r.ligne_haute,
            !r.tirs_a_distance,
    {
        Self {
            intensite: 1000,
            pressing_haut: false,
            contre_attaque: false,
            possession: true,
            ligne_haute: false,
            tirs_a_distance: false,
        }
    }
}

/// Why a player could not join a roster.
#[derive(Debug, Clone, Copy, PartialEq, Eq, Structural)]
pub enum ErreurEffectif {
    EffectifComplet,
}

impl ErreurEffectif {
    pub fn message(&self) -> &'static str {
        match self {
            ErreurEffectif::EffectifComplet => "L'effectif est au complet (15 joueurs max)",
        }
    }
}

/// Why a substitution was rejected. The roster is left untouched on
/// every rejection.
#[derive(Debug, Clone, Copy, PartialEq, Eq, Structural)]
pub enum ErreurSubstitution {
    EquipeNonTrouvee,
    SortantNonTrouve,
    SortantPasSurTerrain,
    EntrantNonTrouve,
    EntrantDejaSurTerrain,
    EntrantIndisponible,
}

impl ErreurSubstitution {
    pub fn message(&self) -> &'static str {
        match self {
            ErreurSubstitution::EquipeNonTrouvee => "Équipe non trouvée",
            ErreurSubstitution::SortantNonTrouve => "Joueur sortant non trouvé",
            ErreurSubstitution::SortantPasSurTerrain => "Le joueur n'est pas sur le terrain",
            ErreurSubstitution::EntrantNonTrouve => "Joueur entrant non trouvé",
            ErreurSubstitution::EntrantDejaSurTerrain => "Le joueur est déjà sur le terrain",
            ErreurSubstitution::EntrantIndisponible => "Le joueur n'est pas disponible (blessé/suspendu)",
        }
    }
}

/// `b` agrees with `a` on everything but the on-field flag and the
/// current position.
pub open spec fn meme_hors_selection(a: Joueur, b: Joueur) -> bool {
    b == (Joueur {
        sur_le_terrain: b.sur_le_terrain,
        position_actuelle: b.position_actuelle,
        ..a
    })
}

/// `i` is the first index of `s` holding the player `id`.
pub open spec fn est_premier_indice(s: Seq<Joueur>, id: u32, i: int) -> bool {
    &&& 0 <= i < s.len()
    &&& s[i].id == id
    &&& forall|k: int| 0 <= k < i ==> s[k].id != id
}

/// Domains of the fielded players, in roster order.
pub open spec fn domaines_titulaires(s: Seq<Joueur>) -> Seq<ScientificDomain>
    decreases s.len(),
{
    if s.len() == 0 {
        Seq::empty()
    } else {
        let r = domaines_titulaires(s.drop_last());
        if s.last().sur_le_terrain {
            r.push(s.last().domaine)
        } else {
            r
        }
    }
}

/// Sum of the compatibilities of `d` with every domain of `s`.
pub open spec fn somme_avec(d: ScientificDomain, s: Seq<ScientificDomain>) -> int
    decreases s.len(),
{
    if s.len() == 0 {
        0
    } else {
        somme_avec(d, s.drop_last()) + compatibilite(s.last(), d)
    }
}

/// Sum of the compatibilities over all unordered pairs of `s`.
pub open spec fn somme_paires(s: Seq<ScientificDomain>) -> int
    decreases s.len(),
{
    if s.len() <= 1 {
        0
    } else {
        somme_paires(s.drop_last()) + somme_avec(s.last(), s.drop_last())
    }
}

/// Number of unordered pairs among `n` elements.
pub open spec fn nb_paires(n: int) -> int {
    n * (n - 1) / 2
}

/// Team chemistry derived from the fielded players: the mean pairwise
/// compatibility, rescaled by 0.7 and shifted by 0.3, capped at 1.
/// With fewer than two fielded players the chemistry is the neutral 0.5.
pub open spec fn chimie_spec(s: Seq<Joueur>) -> u64 {
    let d = domaines_titulaires(s);
    if d.len() < 2 {
        500u64
    } else {
        let moyenne = somme_paires(d) / nb_paires(d.len() as int);
        let c = moyenne * 700 / 1000 + 300;
        if c > 1000 {
            1000u64
        } else {
            c as u64
        }
    }
}

proof fn lemma_somme_avec_bornes(d: ScientificDomain, s: Seq<ScientificDomain>)
    ensures
        500 * s.len() <= somme_avec(d, s) <= 1000 * s.len(),
    decreases s.len(),
{
    if s.len() > 0 {
        lemma_somme_avec_bornes(d, s.drop_last());
    }
}

proof fn lemma_somme_paires_bornes(s: Seq<ScientificDomain>)
    ensures
        500 * nb_paires(s.len() as int) <= somme_paires(s) <= 1000 * nb_paires(s.len() as int),
        nb_paires(s.len() as int) >= 0,
    decreases s.len(),
{
    let n = s.len() as int;
    if s.len() <= 1 {
        assert(nb_paires(n) == 0) by (nonlinear_arith)
            requires
                0 <= n <= 1,
        ;
    } else {
        lemma_somme_paires_bornes(s.drop_last());
        lemma_somme_avec_bornes(s.last(), s.drop_last());
        assert(nb_paires(n) == nb_paires(n - 1) + (n - 1)) by (nonlinear_arith)
            requires
                n >= 2,
        ;
        assert(500 * nb_paires(n) == 500 * nb_paires(n - 1) + 500 * (n - 1)) by (nonlinear_arith)
            requires
                nb_paires(n) == nb_paires(n - 1) + (n - 1),
        ;
        assert(1000 * nb_paires(n) == 1000 * nb_paires(n - 1) + 1000 * (n - 1)) by (nonlinear_arith)
            requires
                nb_paires(n) == nb_paires(n - 1) + (n - 1),
        ;
    }
}

proof fn lemma_nb_titulaires_bornes(s: Seq<Joueur>)
    ensures
        domaines_titulaires(s).len() <= s.len(),
    decreases s.len(),
{
    if s.len() > 0 {
        lemma_nb_titulaires_bornes(s.drop_last());
    }
}

/// The chemistry formula never leaves [500, 1000].
pub proof fn lemma_chimie_bornee(s: Seq<Joueur>)
    ensures
        500 <= chimie_spec(s) <= 1000,
{
    let d = domaines_titulaires(s);
    if d.len() >= 2 {
        let n = d.len() as int;
        lemma_somme_paires_bornes(d);
        assert(nb_paires(n) >= 1) by (nonlinear_arith)
            requires
                n >= 2,
        ;
        let p = nb_paires(n);
        let total = somme_paires(d);
        vstd::arithmetic::div_mod::lemma_div_multiples_vanish(500, p);
        vstd::arithmetic::div_mod::lemma_div_multiples_vanish(1000, p);
        vstd::arithmetic::div_mod::lemma_div_is_ordered(500 * p, total, p);
        vstd::arithmetic::div_mod::lemma_div_is_ordered(total, 1000 * p, p);
        assert(500 <= total / p <= 1000);
    }
}

/// Sum of the overall ratings of the fielded players.
pub open spec fn somme_notes_titulaires(s: Seq<Joueur>) -> int
    decreases s.len(),
{
    if s.len() == 0 {
        0
    } else {
        somme_notes_titulaires(s.drop_last()) + if s.last().sur_le_terrain {
            s.last().note_globale_spec()
        } else {
            0
        }
    }
}

/// Number of fielded players.
pub open spec fn nb_titulaires(s: Seq<Joueur>) -> int
    decreases s.len(),
{
    if s.len() == 0 {
        0
    } else {
        nb_titulaires(s.drop_last()) + if s.last().sur_le_terrain {
            1int
        } else {
            0int
        }
    }
}

/// Benched players fit to come on, in roster order.
pub open spec fn remplacants_seq(s: Seq<Joueur>) -> Seq<Joueur>
    decreases s.len(),
{
    if s.len() == 0 {
        Seq::empty()
    } else {
        let r = remplacants_seq(s.drop_last());
        if !s.last().sur_le_terrain && !s.last().blesse && !s.last().suspendu {
            r.push(s.last())
        } else {
            r
        }
    }
}

/// Fielded players, in roster order.
pub open spec fn titulaires_seq(s: Seq<Joueur>) -> Seq<Joueur>
    decreases s.len(),
{
    if s.len() == 0 {
        Seq::empty()
    } else {
        let r = titulaires_seq(s.drop_last());
        if s.last().sur_le_terrain {
            r.push(s.last())
        } else {
            r
        }
    }
}

/// A football team.
#[derive(Debug)]
pub struct Equipe {
    pub id: u32,
    pub nom: String,
    pub joueurs: Vec<Joueur>,
    pub formation: Formation,
    pub instructions: InstructionsTactiques,
    pub budget: u64,
    pub reputation: u64,
    pub victoires: u64,
    pub nuls: u64,
    pub defaites: u64,
    pub buts_marques: u64,
    pub buts_encaisses: u64,
    pub chimie: u64,
}

/// Team rating: mean rating of the fielded players, raised by the
/// chemistry bonus of up to ten percent. Zero without fielded players.
pub open spec fn note_equipe_spec(e: Equipe) -> int {
    let n = nb_titulaires(e.joueurs@);
    if n == 0 {
        0
    } else {
        (somme_notes_titulaires(e.joueurs@) / n) * (1000 + e.chimie / 10) / 1000
    }
}

impl Equipe {
    /// Well-formedness: every player valid, a roster of at most fifteen,
    /// chemistry within [0, 1], intensity within [0.5, 1.5].
    pub open spec fn valide(&self) -> bool {
        &&& self.joueurs@.len() <= 15
        &&& forall|i: int| 0 <= i < self.joueurs@.len() ==> self.joueurs@[i].valide()
        &&& self.chimie <= 1000
        &&& 500 <= self.instructions.intensite <= 1500
    }

    pub fn new(id: u32, nom: &str) -> (r: Self)
        ensures
            r.valide(),
            r.id == id,
            r.nom@ == nom@,
            r.joueurs@.len() == 0,
            r.formation == Formation::F121,
            r.instructions.intensite == 1000,
            r.budget == 100_000,
            r.reputation == 500,
            r.victoires == 0,
            r.nuls == 0,
            r.defaites == 0,
            r.buts_marques == 0,
            r.buts_encaisses == 0,
            r.chimie == 500,
    {
        Self {
            id,
            nom: nom.to_owned(),
            joueurs: Vec::new(),
            formation: Formation::F121,
            instructions: InstructionsTactiques::default(),
            budget: 100_000,
            reputation: 500,
            victoires: 0,
            nuls: 0,
            defaites: 0,
            buts_marques: 0,
            buts_encaisses: 0,
            chimie: 500,
        }
    }

    /// Add a player to the roster (fifteen at most) and refresh the
    /// chemistry.
    pub fn ajouter_joueur(&mut self, joueur: Joueur) -> (r: Result<(), ErreurEffectif>)
        requires
            old(self).valide(),
            joueur.valide(),
        ensures
            final(self).valide(),
            r is Err <==> old(self).joueurs@.len() >= 15,
            r is Err ==> *final(self) == *old(self),
            r is Ok ==> final(self).joueurs@ == old(self).joueurs@.push(joueur),
            r is Ok ==> *final(self) == (Equipe {
                joueurs: final(self).joueurs,
                chimie: chimie_spec(old(self).joueurs@.push(joueur)),
                ..*old(self)
            }),
    {
        if self.joueurs.len() >= 15 {
            return Err(ErreurEffectif::EffectifComplet);
        }
        self.joueurs.push(joueur);
        self.recalculer_chimie();
        Ok(())
    }

    /// Remove the first player with this identifier, if any, and refresh
    /// the chemistry.
    pub fn retirer_joueur(&mut self, id: u32) -> (r: Option<Joueur>)
        requires
            old(self).valide(),
        ensures
            final(self).valide(),
            r is None ==> *final(self) == *old(self) && forall|k: int|
                0 <= k < old(self).joueurs@.len() ==> old(self).joueurs@[k].id != id,
            r is Some ==> exists|i: int|
                est_premier_indice(old(self).joueurs@, id, i) && r == Some(old(self).joueurs@[i])
                    && final(self).joueurs@ == old(self).joueurs@.remove(i),
            r is Some ==> *final(self) == (Equipe {
                joueurs: final(self).joueurs,
                chimie: chimie_spec(final(self).joueurs@),
                ..*old(self)
            }),
    {
        let position = self.chercher_joueur(id);
        match position {
            Some(i) => {
                let j = self.joueurs.remove(i);
                self.recalculer_chimie();
                Some(j)
            },
            None => None,
        }
    }

    /// Index of the first player with this identifier.
    pub fn chercher_joueur(&self, id: u32) -> (r: Option<usize>)
        ensures
            r is Some ==> est_premier_indice(self.joueurs@, id, r->0 as int),
            r is None ==> forall|k: int| 0 <= k < self.joueurs@.len() ==> self.joueurs@[k].id != id,
    {
        let mut i: usize = 0;
        while i < self.joueurs.len()
            invariant
                i <= self.joueurs@.len(),
                forall|k: int| 0 <= k < i ==> self.joueurs@[k].id != id,
            decreases self.joueurs@.len() - i,
        {
            if self.joueurs[i].id == id {
                return Some(i);
            }
            i = i + 1;
        }
        None
    }

    /// Reference to the first player with this identifier.
    pub fn get_joueur(&self, id: u32) -> (r: Option<&Joueur>)
        ensures
            r is Some ==> exists|i: int|
                est_premier_indice(self.joueurs@, id, i) && *r->0 == self.joueurs@[i],
            r is None ==> forall|k: int| 0 <= k < self.joueurs@.len() ==> self.joueurs@[k].id != id,
    {
        match self.chercher_joueur(id) {
            Some(i) => Some(&self.joueurs[i]),
            None => None,
        }
    }

    /// The fielded players, in roster order.
    pub fn get_titulaires(&self) -> (r: Vec<&Joueur>)
        ensures
            r@.map_values(|j: &Joueur| *j) == titulaires_seq(self.joueurs@),
            r@.len() == nb_titulaires(self.joueurs@),
    {
        let mut r: Vec<&Joueur> = Vec::new();
        let mut i: usize = 0;
        proof {
            assert(r@.map_values(|j: &Joueur| *j) =~= titulaires_seq(self.joueurs@.take(0)));
            lemma_nb_titulaires_compte(self.joueurs@.take(0));
        }
        while i < self.joueurs.len()
            invariant
                i <= self.joueurs@.len(),
                r@.map_values(|j: &Joueur| *j) == titulaires_seq(self.joueurs@.take(i as int)),
                r@.len() == nb_titulaires(self.joueurs@.take(i as int)),
            decreases self.joueurs@.len() - i,
        {
            proof {
                assert(self.joueurs@.take(i + 1).drop_last() =~= self.joueurs@.take(i as int));
                assert(self.joueurs@.take(i + 1).last() == self.joueurs@[i as int]);
            }
            if self.joueurs[i].sur_le_terrain {
                r.push(&self.joueurs[i]);
                proof {
                    assert(r@.map_values(|j: &Joueur| *j) =~= titulaires_seq(
                        self.joueurs@.take(i + 1),
                    ));
                }
            } else {
                proof {
                    assert(r@.map_values(|j: &Joueur| *j) =~= titulaires_seq(
                        self.joueurs@.take(i + 1),
                    ));
                }
            }
            i = i + 1;
        }
        proof {
            assert(self.joueurs@.take(self.joueurs@.len() as int) =~= self.joueurs@);
        }
        r
    }

    /// The benched players that are fit to come on, in roster order.
    pub fn get_remplacants(&self) -> (r: Vec<&Joueur>)
        ensures
            r@.map_values(|j: &Joueur| *j) == remplacants_seq(self.joueurs@),
            forall|k: int|
                0 <= k < r@.len() ==> !r@[k].sur_le_terrain && !r@[k].blesse && !r@[k].suspendu,
    {
        let mut r: Vec<&Joueur> = Vec::new();
        let mut i: usize = 0;
        proof {
            assert(r@.map_values(|j: &Joueur| *j) =~= remplacants_seq(self.joueurs@.take(0)));
        }
        while i < self.joueurs.len()
            invariant
                i <= self.joueurs@.len(),
                r@.map_values(|j: &Joueur| *j) == remplacants_seq(self.joueurs@.take(i as int)),
                forall|k: int|
                    0 <= k < r@.len() ==> !r@[k].sur_le_terrain && !r@[k].blesse
                        && !r@[k].suspendu,
            decreases self.joueurs@.len() - i,
        {
            proof {
                assert(self.joueurs@.take(i + 1).drop_last() =~= self.joueurs@.take(i as int));
                assert(self.joueurs@.take(i + 1).last() == self.joueurs@[i as int]);
            }
            if !self.joueurs[i].sur_le_terrain && self.joueurs[i].est_disponible() {
                r.push(&self.joueurs[i]);
                proof {
                    assert(r@.map_values(|j: &Joueur| *j) =~= remplacants_seq(
                        self.joueurs@.take(i + 1),
                    ));
                }
            } else {
                proof {
                    assert(r@.map_values(|j: &Joueur| *j) =~= remplacants_seq(
                        self.joueurs@.take(i + 1),
                    ));
                }
            }
            i = i + 1;
        }
        proof {
            assert(self.joueurs@.take(self.joueurs@.len() as int) =~= self.joueurs@);
        }
        r
    }

    /// Team rating, in thousandths.
    pub fn note_equipe(&self) -> (r: u64)
        requires
            self.valide(),
        ensures
            r == note_equipe_spec(*self),
            r <= NOTE_EQUIPE_MAX,
    {
        let mut somme: u64 = 0;
        let mut nb: u64 = 0;
        let mut i: usize = 0;
        proof {
            lemma_nb_titulaires_compte(self.joueurs@.take(0));
        }
        while i < self.joueurs.len()
            invariant
                self.valide(),
                i <= self.joueurs@.len(),
                somme == somme_notes_titulaires(self.joueurs@.take(i as int)),
                nb == nb_titulaires(self.joueurs@.take(i as int)),
                nb <= i,
                somme <= NOTE_MAX * nb,
            decreases self.joueurs@.len() - i,
        {
            proof {
                assert(self.joueurs@.take(i + 1).drop_last() =~= self.joueurs@.take(i as int));
                assert(self.joueurs@.take(i + 1).last() == self.joueurs@[i as int]);
            }
            if self.joueurs[i].sur_le_terrain {
                let note = self.joueurs[i].note_globale();
                somme = somme + note;
                nb = nb + 1;
            }
            i = i + 1;
        }
        proof {
            assert(self.joueurs@.take(self.joueurs@.len() as int) =~= self.joueurs@);
        }
        if nb == 0 {
            return 0;
        }
        proof {
            vstd::arithmetic::div_mod::lemma_div_multiples_vanish(NOTE_MAX as int, nb as int);
            vstd::arithmetic::div_mod::lemma_div_is_ordered(
                somme as int,
                (NOTE_MAX * nb) as int,
                nb as int,
            );
            assert(NOTE_MAX * nb / (nb as int) == NOTE_MAX) by (nonlinear_arith)
                requires
                    nb >= 1,
            ;
        }
        let moyenne = somme / nb;
        let facteur = 1000 + self.chimie / 10;
        proof {
            crate::joueur::borne_mul_div_pub(
                moyenne as int,
                facteur as int,
                NOTE_MAX as int,
                1100,
                1000,
            );
        }
        moyenne * facteur / 1000
    }

    /// Exchange a fielded player for an available benched one; the roster
    /// is checked first and left untouched on any rejection.
    pub fn faire_substitution(&mut self, sortant_id: u32, entrant_id: u32) -> (r: Result<
        (),
        ErreurSubstitution,
    >)
        requires
            old(self).valide(),
        ensures
            final(self).valide(),
            r is Err ==> *final(self) == *old(self),
            r == resultat_substitution(*old(self), sortant_id, entrant_id),
            r is Ok ==> exists|is_: int, ie: int|
                est_premier_indice(old(self).joueurs@, sortant_id, is_) && est_premier_indice(
                    old(self).joueurs@,
                    entrant_id,
                    ie,
                ) && final(self).joueurs@ == old(self).joueurs@.update(
                    is_,
                    Joueur { sur_le_terrain: false, ..old(self).joueurs@[is_] },
                ).update(ie, Joueur { sur_le_terrain: true, ..old(self).joueurs@[ie] }),
            r is Ok ==> *final(self) == (Equipe { joueurs: final(self).joueurs, ..*old(self) }),
    {
        let sortant_idx = match self.chercher_joueur(sortant_id) {
            Some(i) => i,
            None => {
                return Err(ErreurSubstitution::SortantNonTrouve);
            },
        };
        if !self.joueurs[sortant_idx].sur_le_terrain {
            return Err(ErreurSubstitution::SortantPasSurTerrain);
        }
        let entrant_idx = match self.chercher_joueur(entrant_id) {
            Some(i) => i,
            None => {
                return Err(ErreurSubstitution::EntrantNonTrouve);
            },
        };
        if self.joueurs[entrant_idx].sur_le_terrain {
            return Err(ErreurSubstitution::EntrantDejaSurTerrain);
        }
        if !self.joueurs[entrant_idx].est_disponible() {
            return Err(ErreurSubstitution::EntrantIndisponible);
        }
        self.joueurs[sortant_idx].sur_le_terrain = false;
        self.joueurs[entrant_idx].sur_le_terrain = true;
        Ok(())
    }

    pub fn set_formation(&mut self, formation: Formation)
        ensures
            *final(self) == (Equipe { formation, ..*old(self) }),
    {
        self.formation = formation;
    }

    /// Recompute the chemistry from the fielded players.
    pub(crate) fn recalculer_chimie(&mut self)
        requires
            old(self).joueurs@.len() <= 15,
        ensures
            *final(self) == (Equipe { chimie: chimie_spec(old(self).joueurs@), ..*old(self) }),
            500 <= final(self).chimie <= 1000,
    {
        proof {
            lemma_chimie_bornee(self.joueurs@);
        }
        let mut domaines: Vec<ScientificDomain> = Vec::new();
        let mut i: usize = 0;
        proof {
            assert(domaines@ =~= domaines_titulaires(self.joueurs@.take(0)));
        }
        while i < self.joueurs.len()
            invariant
                i <= self.joueurs@.len(),
                self.joueurs@.len() <= 15,
                domaines@ == domaines_titulaires(self.joueurs@.take(i as int)),
                domaines@.len() <= i,
            decreases self.joueurs@.len() - i,
        {
            proof {
                assert(self.joueurs@.take(i + 1).drop_last() =~= self.joueurs@.take(i as int));
                assert(self.joueurs@.take(i + 1).last() == self.joueurs@[i as int]);
            }
            if self.joueurs[i].sur_le_terrain {
                domaines.push(self.joueurs[i].domaine);
            }
            i = i + 1;
        }
        proof {
            assert(self.joueurs@.take(self.joueurs@.len() as int) =~= self.joueurs@);
        }
        if domaines.len() < 2 {
            self.chimie = 500;
            return;
        }
        let n = domaines.len();
        let mut total: u64 = 0;
        let mut a: usize = 1;
        proof {
            lemma_somme_paires_bornes(domaines@.take(1));
            assert(nb_paires(1) == 0) by (nonlinear_arith);
        }
        while a < n
            invariant
                1 <= a <= n,
                n == domaines@.len() <= 15,
                total == somme_paires(domaines@.take(a as int)),
                total <= 105_000,
            decreases n - a,
        {
            let mut b: usize = 0;
            proof {
                assert(somme_avec(domaines@[a as int], domaines@.take(a as int).take(0))
                    == 0);
            }
            while b < a
                invariant
                    0 <= b <= a < n,
                    n == domaines@.len() <= 15,
                    total == somme_paires(domaines@.take(a as int)) + somme_avec(
                        domaines@[a as int],
                        domaines@.take(a as int).take(b as int),
                    ),
                    total <= 105_000 + 1000 * b,
                decreases a - b,
            {
                proof {
                    let prefixe = domaines@.take(a as int);
                    assert(prefixe.take(b + 1).drop_last() =~= prefixe.take(b as int));
                    assert(prefixe.take(b + 1).last() == domaines@[b as int]);
                }
                let c = domaines[b].compatibility_with(&domaines[a]);
                total = total + c;
                b = b + 1;
            }
            proof {
                let suivant = domaines@.take(a + 1);
                assert(suivant.drop_last() =~= domaines@.take(a as int));
                assert(domaines@.take(a as int).take(a as int) =~= domaines@.take(a as int));
                assert(suivant.last() == domaines@[a as int]);
                lemma_somme_paires_bornes(suivant);
                assert(nb_paires(a + 1) <= 105) by (nonlinear_arith)
                    requires
                        1 <= a + 1 <= 15,
                ;
                assert(1000 * nb_paires(a + 1) <= 1000 * 105) by (nonlinear_arith)
                    requires
                        nb_paires(a + 1) <= 105,
                ;
            }
            a = a + 1;
        }
        proof {
            assert(domaines@.take(n as int) =~= domaines@);
        }
        proof {
            assert((n as int) * ((n as int) - 1) <= 210) by (nonlinear_arith)
                requires
                    2 <= n <= 15,
            ;
        }
        let paires = (n as u64) * ((n as u64) - 1) / 2;
        proof {
            lemma_somme_paires_bornes(domaines@);
            assert(nb_paires(n as int) >= 1) by (nonlinear_arith)
                requires
                    n >= 2,
            ;
            let p = nb_paires(n as int);
            vstd::arithmetic::div_mod::lemma_div_multiples_vanish(500, p);
            vstd::arithmetic::div_mod::lemma_div_multiples_vanish(1000, p);
            vstd::arithmetic::div_mod::lemma_div_is_ordered(500 * p, total as int, p);
            vstd::arithmetic::div_mod::lemma_div_is_ordered(total as int, 1000 * p, p);
        }
        let moyenne = total / paires;
        let c = moyenne * 700 / 1000 + 300;
        self.chimie = if c > 1000 {
            1000
        } else {
            c
        };
    }

    /// Pick a starting five automatically: the strongest defensive
    /// profile in goal, then the best-rated available players on the
    /// remaining positions of the formation, preferred position first.
    /// Only available players are fielded; the chemistry is refreshed.
    pub fn selectionner_titulaires_auto(&mut self)
        requires
            old(self).valide(),
        ensures
            final(self).valide(),
            final(self).joueurs@.len() == old(self).joueurs@.len(),
            forall|k: int|
                0 <= k < old(self).joueurs@.len() ==> meme_hors_selection(
                    old(self).joueurs@[k],
                    final(self).joueurs@[k],
                ),
            forall|k: int|
                0 <= k < final(self).joueurs@.len() ==> (final(self).joueurs@[k].sur_le_terrain
                    ==> !final(self).joueurs@[k].blesse && !final(self).joueurs@[k].suspendu),
            nb_titulaires(final(self).joueurs@) <= 5,
            *final(self) == (Equipe {
                joueurs: final(self).joueurs,
                chimie: chimie_spec(final(self).joueurs@),
                ..*old(self)
            }),
    {
        let mut i: usize = 0;
        while i < self.joueurs.len()
            invariant
                i <= self.joueurs@.len(),
                self.joueurs@.len() == old(self).joueurs@.len(),
                forall|k: int|
                    i <= k < self.joueurs@.len() ==> self.joueurs@[k] == old(self).joueurs@[k],
                forall|k: int|
                    0 <= k < i ==> meme_hors_selection(old(self).joueurs@[k], self.joueurs@[k]),
                forall|k: int| 0 <= k < i ==> !self.joueurs@[k].sur_le_terrain,
                forall|k: int| 0 <= k < self.joueurs@.len() ==> self.joueurs@[k].valide(),
                *self == (Equipe { joueurs: self.joueurs, ..*old(self) }),
            decreases self.joueurs@.len() - i,
        {
            self.joueurs[i].sur_le_terrain = false;
            let pref = self.joueurs[i].position_preferee;
            self.joueurs[i].position_actuelle = pref;
            i = i + 1;
        }

        proof {
            lemma_nb_titulaires_nul(self.joueurs@);
        }
        let mut positions = self.formation.get_positions_requises();

        let mut gk_slot: Option<usize> = None;
        let mut p: usize = 0;
        while p < positions.len()
            invariant
                p <= positions@.len(),
                gk_slot matches Some(s) ==> s < positions@.len(),
            decreases positions@.len() - p,
        {
            if matches!(positions[p], Position::Gardien) {
                gk_slot = Some(p);
                break ;
            }
            p = p + 1;
        }
        match gk_slot {
            Some(slot) => {
                let mut meilleur: Option<usize> = None;
                let mut meilleur_score: u64 = 0;
                let mut j: usize = 0;
                while j < self.joueurs.len()
                    invariant
                        j <= self.joueurs@.len(),
                        forall|k: int| 0 <= k < self.joueurs@.len() ==> self.joueurs@[k].valide(),
                        meilleur matches Some(b) ==> b < self.joueurs@.len()
                            && !self.joueurs@[b as int].blesse && !self.joueurs@[b as int].suspendu,
                    decreases self.joueurs@.len() - j,
                {
                    if self.joueurs[j].est_disponible() {
                        let defense = self.joueurs[j].stats_effectives.defense;
                        let tete = self.joueurs[j].stats_effectives.jeu_de_tete;
                        let score = (defense * 6 + tete * 4) / 10;
                        if meilleur.is_none() || score >= meilleur_score {
                            meilleur = Some(j);
                            meilleur_score = score;
                        }
                    }
                    j = j + 1;
                }
                match meilleur {
                    Some(b) => {
                        let ghost avant_flip = self.joueurs@;
                        self.joueurs[b].sur_le_terrain = true;
                        proof {
                            lemma_nb_titulaires_entre(
                                avant_flip,
                                b as int,
                                self.joueurs@[b as int],
                            );
                        }
                        let ghost avant_pos = self.joueurs@;
                        self.joueurs[b].position_actuelle = Position::Gardien;
                        proof {
                            lemma_nb_titulaires_stable(
                                avant_pos,
                                b as int,
                                self.joueurs@[b as int],
                            );
                        }
                        positions.remove(slot);
                    },
                    None => (),
                }
            },
            None => (),
        }

        loop
            invariant
                self.joueurs@.len() == old(self).joueurs@.len(),
                forall|k: int|
                    0 <= k < self.joueurs@.len() ==> meme_hors_selection(
                        old(self).joueurs@[k],
                        self.joueurs@[k],
                    ),
                forall|k: int|
                    0 <= k < self.joueurs@.len() ==> (self.joueurs@[k].sur_le_terrain
                        ==> !self.joueurs@[k].blesse && !self.joueurs@[k].suspendu),
                forall|k: int| 0 <= k < self.joueurs@.len() ==> self.joueurs@[k].valide(),
                *self == (Equipe { joueurs: self.joueurs, ..*old(self) }),
                nb_titulaires(self.joueurs@) + positions@.len() <= 5,
            decreases positions@.len(),
        {
            if positions.len() == 0 {
                break ;
            }
            let mut meilleur: Option<usize> = None;
            let mut meilleure_note: u64 = 0;
            let mut j: usize = 0;
            while j < self.joueurs.len()
                invariant
                    j <= self.joueurs@.len(),
                    forall|k: int| 0 <= k < self.joueurs@.len() ==> self.joueurs@[k].valide(),
                    meilleur matches Some(b) ==> b < self.joueurs@.len()
                        && !self.joueurs@[b as int].blesse && !self.joueurs@[b as int].suspendu
                        && !self.joueurs@[b as int].sur_le_terrain,
                decreases self.joueurs@.len() - j,
            {
                if self.joueurs[j].est_disponible() && !self.joueurs[j].sur_le_terrain {
                    let note = self.joueurs[j].note_globale();
                    if meilleur.is_none() || note > meilleure_note {
                        meilleur = Some(j);
                        meilleure_note = note;
                    }
                }
                j = j + 1;
            }
            let b = match meilleur {
                Some(b) => b,
                None => {
                    break ;
                },
            };
            let pref = self.joueurs[b].position_preferee;
            let mut pos_idx: Option<usize> = None;
            let mut q: usize = 0;
            while q < positions.len()
                invariant
                    q <= positions@.len(),
                    pos_idx matches Some(s) ==> s < positions@.len(),
                decreases positions@.len() - q,
            {
                if positions[q] == pref {
                    pos_idx = Some(q);
                    break ;
                }
                q = q + 1;
            }
            let pos = match pos_idx {
                Some(k) => positions.remove(k),
                None => positions.remove(0),
            };
            let ghost avant_flip = self.joueurs@;
            self.joueurs[b].sur_le_terrain = true;
            proof {
                lemma_nb_titulaires_entre(avant_flip, b as int, self.joueurs@[b as int]);
            }
            let ghost avant_pos = self.joueurs@;
            self.joueurs[b].position_actuelle = pos;
            proof {
                lemma_nb_titulaires_stable(avant_pos, b as int, self.joueurs@[b as int]);
            }
        }

        self.recalculer_chimie();
    }

    /// Count one played match for every fielded player.
    pub fn incrementer_matchs_joues(&mut self)
        requires
            old(self).valide(),
        ensures
            final(self).valide(),
            final(self).joueurs@.len() == old(self).joueurs@.len(),
            forall|k: int|
                0 <= k < old(self).joueurs@.len() ==> final(self).joueurs@[k]
                    == joueur_match_compte(old(self).joueurs@[k]),
            *final(self) == (Equipe { joueurs: final(self).joueurs, ..*old(self) }),
    {
        let mut i: usize = 0;
        while i < self.joueurs.len()
            invariant
                i <= self.joueurs@.len(),
                self.joueurs@.len() == old(self).joueurs@.len(),
                forall|k: int|
                    i <= k < self.joueurs@.len() ==> self.joueurs@[k] == old(self).joueurs@[k],
                forall|k: int|
                    0 <= k < i ==> self.joueurs@[k] == joueur_match_compte(old(self).joueurs@[k]),
                forall|k: int| 0 <= k < self.joueurs@.len() ==> self.joueurs@[k].valide(),
                *self == (Equipe { joueurs: self.joueurs, ..*old(self) }),
            decreases self.joueurs@.len() - i,
        {
            if self.joueurs[i].sur_le_terrain {
                let m = self.joueurs[i].matchs_joues;
                self.joueurs[i].matchs_joues = m.saturating_add(1);
            }
            i = i + 1;
        }
    }

    /// Drain `montant` of stamina from every fielded player.
    pub fn drainer_stamina(&mut self, montant: u64)
        requires
            old(self).valide(),
        ensures
            final(self).valide(),
            final(self).joueurs@.len() == old(self).joueurs@.len(),
            forall|k: int|
                0 <= k < old(self).joueurs@.len() ==> final(self).joueurs@[k] == joueur_draine(
                    old(self).joueurs@[k],
                    montant,
                ),
            *final(self) == (Equipe { joueurs: final(self).joueurs, ..*old(self) }),
    {
        let mut i: usize = 0;
        while i < self.joueurs.len()
            invariant
                i <= self.joueurs@.len(),
                self.joueurs@.len() == old(self).joueurs@.len(),
                forall|k: int|
                    i <= k < self.joueurs@.len() ==> self.joueurs@[k] == old(self).joueurs@[k],
                forall|k: int|
                    0 <= k < i ==> self.joueurs@[k] == joueur_draine(old(self).joueurs@[k], montant),
                forall|k: int| 0 <= k < self.joueurs@.len() ==> self.joueurs@[k].valide(),
                *self == (Equipe { joueurs: self.joueurs, ..*old(self) }),
            decreases self.joueurs@.len() - i,
        {
            if self.joueurs[i].sur_le_terrain {
                self.joueurs[i].consommer_stamina(montant);
            }
            i = i + 1;
        }
    }

    /// Raise the morale of every fielded player by 0.05, capped.
    pub fn hausser_moral(&mut self)
        requires
            old(self).valide(),
        ensures
            final(self).valide(),
            final(self).joueurs@.len() == old(self).joueurs@.len(),
            forall|k: int|
                0 <= k < old(self).joueurs@.len() ==> final(self).joueurs@[k] == (
                if old(self).joueurs@[k].sur_le_terrain {
                    Joueur {
                        moral: hausse_bornee(old(self).joueurs@[k].moral, 50),
                        ..old(self).joueurs@[k]
                    }
                } else {
                    old(self).joueurs@[k]
                }),
            *final(self) == (Equipe { joueurs: final(self).joueurs, ..*old(self) }),
    {
        let mut i: usize = 0;
        while i < self.joueurs.len()
            invariant
                i <= self.joueurs@.len(),
                self.joueurs@.len() == old(self).joueurs@.len(),
                forall|k: int|
                    i <= k < self.joueurs@.len() ==> self.joueurs@[k] == old(self).joueurs@[k],
                forall|k: int|
                    0 <= k < i ==> self.joueurs@[k] == (if old(self).joueurs@[k].sur_le_terrain {
                        Joueur {
                            moral: hausse_bornee(old(self).joueurs@[k].moral, 50),
                            ..old(self).joueurs@[k]
                        }
                    } else {
                        old(self).joueurs@[k]
                    }),
                forall|k: int| 0 <= k < self.joueurs@.len() ==> self.joueurs@[k].valide(),
                *self == (Equipe { joueurs: self.joueurs, ..*old(self) }),
            decreases self.joueurs@.len() - i,
        {
            if self.joueurs[i].sur_le_terrain {
                let moral = self.joueurs[i].moral;
                if moral + 50 > 1500 {
                    self.joueurs[i].moral = 1500;
                } else {
                    self.joueurs[i].moral = moral + 50;
                }
            }
            i = i + 1;
        }
    }

    /// Lower the morale of every fielded player by 0.05, floored.
    pub fn baisser_moral(&mut self)
        requires
            old(self).valide(),
        ensures
            final(self).valide(),
            final(self).joueurs@.len() == old(self).joueurs@.len(),
            forall|k: int|
                0 <= k < old(self).joueurs@.len() ==> final(self).joueurs@[k] == (
                if old(self).joueurs@[k].sur_le_terrain {
                    Joueur {
                        moral: baisse_bornee(old(self).joueurs@[k].moral, 50),
                        ..old(self).joueurs@[k]
                    }
                } else {
                    old(self).joueurs@[k]
                }),
            *final(self) == (Equipe { joueurs: final(self).joueurs, ..*old(self) }),
    {
        let mut i: usize = 0;
        while i < self.joueurs.len()
            invariant
                i <= self.joueurs@.len(),
                self.joueurs@.len() == old(self).joueurs@.len(),
                forall|k: int|
                    i <= k < self.joueurs@.len() ==> self.joueurs@[k] == old(self).joueurs@[k],
                forall|k: int|
                    0 <= k < i ==> self.joueurs@[k] == (if old(self).joueurs@[k].sur_le_terrain {
                        Joueur {
                            moral: baisse_bornee(old(self).joueurs@[k].moral, 50),
                            ..old(self).joueurs@[k]
                        }
                    } else {
                        old(self).joueurs@[k]
                    }),
                forall|k: int| 0 <= k < self.joueurs@.len() ==> self.joueurs@[k].valide(),
                *self == (Equipe { joueurs: self.joueurs, ..*old(self) }),
            decreases self.joueurs@.len() - i,
        {
            if self.joueurs[i].sur_le_terrain {
                let moral = self.joueurs[i].moral;
                if moral < 550 {
                    self.joueurs[i].moral = 500;
                } else {
                    self.joueurs[i].moral = moral - 50;
                }
            }
            i = i + 1;
        }
    }

    /// Raise the form of every fielded player by `bonus`, capped.
    pub fn booster_forme(&mut self, bonus: u64)
        requires
            old(self).valide(),
            bonus <= 1500,
        ensures
            final(self).valide(),
            final(self).joueurs@.len() == old(self).joueurs@.len(),
            forall|k: int|
                0 <= k < old(self).joueurs@.len() ==> final(self).joueurs@[k] == (
                if old(self).joueurs@[k].sur_le_terrain {
                    Joueur {
                        forme: hausse_bornee(old(self).joueurs@[k].forme, bonus),
                        ..old(self).joueurs@[k]
                    }
                } else {
                    old(self).joueurs@[k]
                }),
            *final(self) == (Equipe { joueurs: final(self).joueurs, ..*old(self) }),
    {
        let mut i: usize = 0;
        while i < self.joueurs.len()
            invariant
                i <= self.joueurs@.len(),
                self.joueurs@.len() == old(self).joueurs@.len(),
                bonus <= 1500,
                forall|k: int|
                    i <= k < self.joueurs@.len() ==> self.joueurs@[k] == old(self).joueurs@[k],
                forall|k: int|
                    0 <= k < i ==> self.joueurs@[k] == (if old(self).joueurs@[k].sur_le_terrain {
                        Joueur {
                            forme: hausse_bornee(old(self).joueurs@[k].forme, bonus),
                            ..old(self).joueurs@[k]
                        }
                    } else {
                        old(self).joueurs@[k]
                    }),
                forall|k: int| 0 <= k < self.joueurs@.len() ==> self.joueurs@[k].valide(),
                *self == (Equipe { joueurs: self.joueurs, ..*old(self) }),
            decreases self.joueurs@.len() - i,
        {
            if self.joueurs[i].sur_le_terrain {
                let forme = self.joueurs[i].forme;
                if forme + bonus > 1500 {
                    self.joueurs[i].forme = 1500;
                } else {
                    self.joueurs[i].forme = forme + bonus;
                }
            }
            i = i + 1;
        }
    }

    /// Training session: form rises slightly and stamina recovers.
    pub fn entrainement(&mut self)
        requires
            old(self).valide(),
        ensures
            final(self).valide(),
            final(self).joueurs@.len() == old(self).joueurs@.len(),
            forall|k: int|
                0 <= k < old(self).joueurs@.len() ==> final(self).joueurs@[k] == joueur_entraine(
                    old(self).joueurs@[k],
                ),
            *final(self) == (Equipe { joueurs: final(self).joueurs, ..*old(self) }),
    {
        let mut i: usize = 0;
        while i < self.joueurs.len()
            invariant
                i <= self.joueurs@.len(),
                self.joueurs@.len() == old(self).joueurs@.len(),
                forall|k: int|
                    i <= k < self.joueurs@.len() ==> self.joueurs@[k] == old(self).joueurs@[k],
                forall|k: int| 0 <= k < i ==> self.joueurs@[k] == joueur_entraine(old(self).joueurs@[k]),
                forall|k: int| 0 <= k < self.joueurs@.len() ==> self.joueurs@[k].valide(),
                *self == (Equipe { joueurs: self.joueurs, ..*old(self) }),
            decreases self.joueurs@.len() - i,
        {
            let forme = self.joueurs[i].forme;
            if forme + 30 > 1500 {
                self.joueurs[i].forme = 1500;
            } else {
                self.joueurs[i].forme = forme + 30;
            }
            self.joueurs[i].recuperer_stamina(20_000);
            i = i + 1;
        }
    }

    /// Full rest: stamina back to its maximum, morale up a notch.
    pub fn repos_equipe(&mut self)
        requires
            old(self).valide(),
        ensures
            final(self).valide(),
            final(self).joueurs@.len() == old(self).joueurs@.len(),
            forall|k: int|
                0 <= k < old(self).joueurs@.len() ==> final(self).joueurs@[k] == joueur_repose(
                    old(self).joueurs@[k],
                ),
            *final(self) == (Equipe { joueurs: final(self).joueurs, ..*old(self) }),
    {
        let mut i: usize = 0;
        while i < self.joueurs.len()
            invariant
                i <= self.joueurs@.len(),
                self.joueurs@.len() == old(self).joueurs@.len(),
                forall|k: int|
                    i <= k < self.joueurs@.len() ==> self.joueurs@[k] == old(self).joueurs@[k],
                forall|k: int| 0 <= k < i ==> self.joueurs@[k] == joueur_repose(old(self).joueurs@[k]),
                forall|k: int| 0 <= k < self.joueurs@.len() ==> self.joueurs@[k].valide(),
                *self == (Equipe { joueurs: self.joueurs, ..*old(self) }),
            decreases self.joueurs@.len() - i,
        {
            self.joueurs[i].stamina = self.joueurs[i].stamina_max;
            let moral = self.joueurs[i].moral;
            if moral + 50 > 1500 {
                self.joueurs[i].moral = 1500;
            } else {
                self.joueurs[i].moral = moral + 50;
            }
            i = i + 1;
        }
    }

    /// League points: three per win, one per draw, saturated.
    pub fn points(&self) -> (r: u64)
        ensures
            r == if self.victoires * 3 + self.nuls > u64::MAX {
                u64::MAX as int
            } else {
                self.victoires * 3 + self.nuls
            },
    {
        let triple = if self.victoires <= u64::MAX / 3 {
            self.victoires * 3
        } else {
            proof {
                vstd::arithmetic::div_mod::lemma_fundamental_div_mod(u64::MAX as int, 3);
                assert(self.victoires * 3 > u64::MAX) by (nonlinear_arith)
                    requires
                        self.victoires > u64::MAX / 3,
                        u64::MAX == 3 * (u64::MAX / 3) + (u64::MAX as int % 3),
                        u64::MAX as int % 3 < 3,
                ;
            }
            u64::MAX
        };
        triple.saturating_add(self.nuls)
    }

    /// Goal difference over the season.
    pub fn difference_buts(&self) -> (r: i64)
        requires
            self.buts_marques <= i64::MAX,
            self.buts_encaisses <= i64::MAX,
        ensures
            r == self.buts_marques - self.buts_encaisses,
    {
        (self.buts_marques as i64) - (self.buts_encaisses as i64)
    }
}

/// `b` agrees with `a` on every field; the rosters agree player for
/// player up to `meme_joueur`.
pub open spec fn meme_equipe(a: Equipe, b: Equipe) -> bool {
    &&& b == (Equipe { joueurs: b.joueurs, ..a })
    &&& b.joueurs@.len() == a.joueurs@.len()
    &&& forall|k: int|
        0 <= k < a.joueurs@.len() ==> crate::joueur::meme_joueur(a.joueurs@[k], b.joueurs@[k])
}

impl Clone for Equipe {
    /// A clone agrees with the original on every field, the roster
    /// included (player for player).
    fn clone(&self) -> (r: Self)
        ensures
            meme_equipe(*self, r),
    {
        let mut joueurs: Vec<Joueur> = Vec::new();
        let mut i: usize = 0;
        while i < self.joueurs.len()
            invariant
                i <= self.joueurs@.len(),
                joueurs@.len() == i,
                forall|k: int|
                    0 <= k < i ==> crate::joueur::meme_joueur(self.joueurs@[k], joueurs@[k]),
            decreases self.joueurs@.len() - i,
        {
            joueurs.push(self.joueurs[i].clone());
            i = i + 1;
        }
        Equipe {
            id: self.id,
            nom: self.nom.clone(),
            joueurs,
            formation: self.formation,
            instructions: self.instructions,
            budget: self.budget,
            reputation: self.reputation,
            victoires: self.victoires,
            nuls: self.nuls,
            defaites: self.defaites,
            buts_marques: self.buts_marques,
            buts_encaisses: self.buts_encaisses,
            chimie: self.chimie,
        }
    }
}

/// A fielded player with one more match played; benched players are left
/// as they are.
pub open spec fn joueur_match_compte(j: Joueur) -> Joueur {
    if j.sur_le_terrain {
        Joueur {
            matchs_joues: if j.matchs_joues == u64::MAX {
                j.matchs_joues
            } else {
                (j.matchs_joues + 1) as u64
            },
            ..j
        }
    } else {
        j
    }
}

/// A fielded player after spending `montant` of stamina; benched players
/// are left as they are.
pub open spec fn joueur_draine(j: Joueur, montant: u64) -> Joueur {
    if j.sur_le_terrain {
        stamina_consommee_spec(j, montant)
    } else {
        j
    }
}

/// State of a player after one training session: form up 0.03 capped,
/// then 20 points of stamina recovered.
pub open spec fn joueur_entraine(j: Joueur) -> Joueur {
    stamina_recuperee_spec(Joueur { forme: hausse_bornee(j.forme, 30), ..j }, 20_000)
}

/// State of a player after a full rest: stamina refilled, morale up 0.05
/// capped.
pub open spec fn joueur_repose(j: Joueur) -> Joueur {
    Joueur { stamina: j.stamina_max, moral: hausse_bornee(j.moral, 50), ..j }
}

/// Outcome of a substitution request on a roster: the first rule broken,
/// in checking order, or success.
pub open spec fn resultat_substitution(e: Equipe, sortant_id: u32, entrant_id: u32) -> Result<
    (),
    ErreurSubstitution,
> {
    let s = e.joueurs@;
    if forall|k: int| 0 <= k < s.len() ==> s[k].id != sortant_id {
        Err(ErreurSubstitution::SortantNonTrouve)
    } else {
        let is_ = choose|i: int| est_premier_indice(s, sortant_id, i);
        if !s[is_].sur_le_terrain {
            Err(ErreurSubstitution::SortantPasSurTerrain)
        } else if forall|k: int| 0 <= k < s.len() ==> s[k].id != entrant_id {
            Err(ErreurSubstitution::EntrantNonTrouve)
        } else {
            let ie = choose|i: int| est_premier_indice(s, entrant_id, i);
            if s[ie].sur_le_terrain {
                Err(ErreurSubstitution::EntrantDejaSurTerrain)
            } else if s[ie].blesse || s[ie].suspendu {
                Err(ErreurSubstitution::EntrantIndisponible)
            } else {
                Ok(())
            }
        }
    }
}

/// A roster of benched players fields nobody.
proof fn lemma_nb_titulaires_nul(s: Seq<Joueur>)
    requires
        forall|k: int| 0 <= k < s.len() ==> !s[k].sur_le_terrain,
    ensures
        nb_titulaires(s) == 0,
    decreases s.len(),
{
    if s.len() > 0 {
        lemma_nb_titulaires_nul(s.drop_last());
    }
}

/// Fielding one benched player raises the fielded count by one.
proof fn lemma_nb_titulaires_entre(s: Seq<Joueur>, i: int, j: Joueur)
    requires
        0 <= i < s.len(),
        !s[i].sur_le_terrain,
        j.sur_le_terrain,
    ensures
        nb_titulaires(s.update(i, j)) == nb_titulaires(s) + 1,
    decreases s.len(),
{
    if i == s.len() - 1 {
        assert(s.update(i, j).drop_last() =~= s.drop_last());
    } else {
        assert(s.update(i, j).drop_last() =~= s.drop_last().update(i, j));
        lemma_nb_titulaires_entre(s.drop_last(), i, j);
    }
}

/// An update that keeps the on-field flag keeps the fielded count.
proof fn lemma_nb_titulaires_stable(s: Seq<Joueur>, i: int, j: Joueur)
    requires
        0 <= i < s.len(),
        s[i].sur_le_terrain == j.sur_le_terrain,
    ensures
        nb_titulaires(s.update(i, j)) == nb_titulaires(s),
    decreases s.len(),
{
    if i == s.len() - 1 {
        assert(s.update(i, j).drop_last() =~= s.drop_last());
    } else {
        assert(s.update(i, j).drop_last() =~= s.drop_last().update(i, j));
        lemma_nb_titulaires_stable(s.drop_last(), i, j);
    }
}

proof fn lemma_nb_titulaires_compte(s: Seq<Joueur>)
    ensures
        0 <= nb_titulaires(s) <= s.len(),
        nb_titulaires(s) == titulaires_seq(s).len(),
    decreases s.len(),
{
    if s.len() > 0 {
        lemma_nb_titulaires_compte(s.drop_last());
    }
}

} // verus!
