//! Lecture du convertisseur HX711 des jauges de poids, par ses deux
//! broches : DT (donnée, entrée) et SCK (horloge, sortie).
//!
//! Protocole : DT passe à l'état bas quand une mesure est prête ; 24
//! impulsions sur SCK lisent les 24 bits de la mesure (bit de poids fort en
//! premier, lu sur DT après chaque front montant), puis une 25e impulsion
//! fixe le gain à 128 (canal A) pour la mesure suivante. La valeur est en
//! complément à deux sur 24 bits, étendue à 32 bits.
//!
//! C'est une machine à états : l'appelant exécute l'action rendue (lire DT,
//! mettre SCK à un niveau, attendre, avertir que le capteur ne répond pas)
//! et rend l'événement qui en résulte à `poursuivre`.

use vstd::prelude::*;

verus! {

/// Nombre de bits d'une mesure.
pub const BITS_MESURE: u32 = 24;
/// Nombre de mesures brutes moyennées.
pub const NB_ECHANTILLONS: u32 = 10;
/// Nombre d'attentes de 1 ms sans réponse avant un avertissement.
pub const TOURS_AVANT_AVERTISSEMENT: u32 = 1000;
/// Pause d'attente de DT (ms).
pub const PAUSE_ATTENTE_MS: u32 = 1;
/// Pause après un avertissement (ms).
pub const PAUSE_AVERTISSEMENT_MS: u32 = 500;

/// Valeur d'un mot de 24 bits en complément à deux.
pub open spec fn valeur_signee_24(v: int) -> int {
    if v >= 0x80_0000 { v - 0x100_0000 } else { v }
}

/// Division entière tronquée vers zéro (celle de `/` sur les `i64`).
pub open spec fn division_tronquee(a: int, b: int) -> int {
    if a >= 0 { a / b } else { -((-a) / b) }
}

/// Extension de signe d'un mot de 24 bits en `i32`.
pub fn etendre_signe_24(valeur: u32) -> (r: i32)
    requires
        valeur < 0x100_0000,
    ensures
        r == valeur_signee_24(valeur as int),
{
    if valeur & 0x80_0000 != 0 {
        assert((valeur | 0xFF00_0000u32) as i32 == valeur as int - 0x100_0000) by (bit_vector)
            requires valeur < 0x100_0000, valeur & 0x80_0000 != 0;
        assert(valeur >= 0x80_0000) by (bit_vector)
            requires valeur < 0x100_0000, valeur & 0x80_0000 != 0;
        (valeur | 0xFF00_0000) as i32
    } else {
        assert(valeur < 0x80_0000) by (bit_vector)
            requires valeur < 0x100_0000, valeur & 0x80_0000 == 0;
        valeur as i32
    }
}

/// Étape de la lecture.
#[derive(PartialEq, Eq, Structural, Clone, Copy, Debug)]
pub enum Phase {
    /// Lire DT en attendant qu'il passe à l'état bas.
    Attente,
    /// Attendre 1 ms avant de relire DT.
    PauseAttente,
    /// Avertir que le capteur ne répond pas.
    Avertissement,
    /// Attendre 500 ms après l'avertissement.
    PauseAvertissement,
    /// Front montant de SCK pour le bit en cours.
    FrontMontant,
    /// Lire DT : le bit en cours.
    LectureBit,
    /// Front descendant de SCK après le bit en cours.
    FrontDescendant,
    /// 25e impulsion, front montant.
    GainMontant,
    /// 25e impulsion, front descendant.
    GainDescendant,
    /// Lecture terminée.
    Fini,
}

/// Action demandée à l'appelant.
#[derive(PartialEq, Eq, Structural, Clone, Copy, Debug)]
pub enum ActionHx711 {
    /// Lire le niveau de DT (vrai = haut).
    LireDt,
    /// Mettre SCK au niveau haut (vrai) ou bas (faux).
    Horloge(bool),
    /// Attendre ce nombre de millisecondes.
    Pause(u32),
    /// Signaler que DT reste haut depuis 1 s : câblage à vérifier.
    Avertir,
    /// Lecture réussie : la valeur (brute ou moyenne).
    Valeur(i32),
    /// La broche SCK a rendu une erreur.
    Erreur,
}

/// Résultat de l'action, rendu par l'appelant.
#[derive(PartialEq, Eq, Structural, Clone, Copy, Debug)]
pub enum EvenementHx711 {
    /// Niveau lu sur DT (vrai = haut).
    Niveau(bool),
    /// Pause, avertissement ou niveau de SCK effectués.
    Fait,
    /// La broche SCK a rendu une erreur.
    Echec,
}

/// État de la lecture.
#[derive(PartialEq, Eq, Structural, Clone, Copy, Debug)]
pub struct EtatHx711 {
    pub phase: Phase,
    /// Nombre d'attentes de 1 ms depuis le dernier avertissement.
    pub tours: u32,
    /// Nombre de bits déjà lus dans la mesure en cours.
    pub bit: u32,
    /// Bits déjà lus, le premier en poids fort.
    pub valeur: u32,
    /// Lecture d'une moyenne de 10 mesures (sinon d'une seule).
    pub moyenne: bool,
    /// Nombre de mesures déjà terminées.
    pub echantillons: u32,
    /// Somme des mesures déjà terminées.
    pub somme: i64,
    /// Valeur rendue en fin de lecture réussie.
    pub resultat: i32,
    /// La lecture s'est terminée sur une erreur.
    pub echec: bool,
}

/// Début d'une mesure : attente de DT, aucun bit lu.
pub open spec fn nouvelle_mesure(s: EtatHx711) -> EtatHx711 {
    EtatHx711 { phase: Phase::Attente, tours: 0, bit: 0, valeur: 0, ..s }
}

/// Début de lecture (brute ou moyenne).
pub open spec fn etat_depart(moyenne: bool) -> EtatHx711 {
    EtatHx711 {
        phase: Phase::Attente,
        tours: 0,
        bit: 0,
        valeur: 0,
        moyenne,
        echantillons: 0,
        somme: 0,
        resultat: 0,
        echec: false,
    }
}

/// Fin d'une mesure de valeur `x` : rendue telle quelle pour une lecture
/// brute ; ajoutée à la somme pour une moyenne, qui rend la somme divisée
/// par 10 (tronquée) après la dixième.
pub open spec fn fin_mesure(s: EtatHx711, x: int) -> EtatHx711 {
    if !s.moyenne {
        EtatHx711 { phase: Phase::Fini, resultat: x as i32, ..s }
    } else if s.echantillons + 1 < NB_ECHANTILLONS {
        nouvelle_mesure(EtatHx711 { echantillons: (s.echantillons + 1) as u32, somme: (s.somme + x) as i64, ..s })
    } else {
        EtatHx711 {
            phase: Phase::Fini,
            echantillons: (s.echantillons + 1) as u32,
            somme: (s.somme + x) as i64,
            resultat: division_tronquee(s.somme + x, NB_ECHANTILLONS as int) as i32,
            ..s
        }
    }
}

/// Fin sur une erreur de SCK.
pub open spec fn fin_erreur(s: EtatHx711) -> EtatHx711 {
    EtatHx711 { phase: Phase::Fini, echec: true, ..s }
}

/// L'événement répond à l'action en cours.
pub open spec fn evenement_admis(s: EtatHx711, e: EvenementHx711) -> bool {
    match s.phase {
        Phase::Attente | Phase::LectureBit => e is Niveau,
        Phase::PauseAttente | Phase::Avertissement | Phase::PauseAvertissement => e is Fait,
        Phase::FrontMontant | Phase::FrontDescendant | Phase::GainMontant | Phase::GainDescendant => e
            is Fait || e is Echec,
        Phase::Fini => false,
    }
}

/// Transition de la lecture sur un événement admis.
pub open spec fn transition(s: EtatHx711, e: EvenementHx711) -> EtatHx711 {
    match s.phase {
        Phase::Attente => if e == EvenementHx711::Niveau(true) {
            EtatHx711 { phase: Phase::PauseAttente, ..s }
        } else {
            EtatHx711 { phase: Phase::FrontMontant, bit: 0, valeur: 0, ..s }
        },
        Phase::PauseAttente => if s.tours + 1 > TOURS_AVANT_AVERTISSEMENT {
            EtatHx711 { phase: Phase::Avertissement, tours: (s.tours + 1) as u32, ..s }
        } else {
            EtatHx711 { phase: Phase::Attente, tours: (s.tours + 1) as u32, ..s }
        },
        Phase::Avertissement => EtatHx711 { phase: Phase::PauseAvertissement, ..s },
        Phase::PauseAvertissement => EtatHx711 { phase: Phase::Attente, tours: 0, ..s },
        Phase::FrontMontant => if e is Echec {
            fin_erreur(s)
        } else {
            EtatHx711 { phase: Phase::LectureBit, ..s }
        },
        Phase::LectureBit => EtatHx711 {
            phase: Phase::FrontDescendant,
            valeur: (2 * s.valeur + (if e == EvenementHx711::Niveau(true) { 1int } else { 0 })) as u32,
            ..s
        },
        Phase::FrontDescendant => if e is Echec {
            fin_erreur(s)
        } else if s.bit + 1 < BITS_MESURE {
            EtatHx711 { phase: Phase::FrontMontant, bit: (s.bit + 1) as u32, ..s }
        } else {
            EtatHx711 { phase: Phase::GainMontant, bit: (s.bit + 1) as u32, ..s }
        },
        Phase::GainMontant => if e is Echec {
            fin_erreur(s)
        } else {
            EtatHx711 { phase: Phase::GainDescendant, ..s }
        },
        Phase::GainDescendant => if e is Echec {
            fin_erreur(s)
        } else {
            fin_mesure(s, valeur_signee_24(s.valeur as int))
        },
        Phase::Fini => s,
    }
}

/// L'action qui correspond à un état.
pub open spec fn action_de(s: EtatHx711) -> ActionHx711 {
    match s.phase {
        Phase::Attente | Phase::LectureBit => ActionHx711::LireDt,
        Phase::PauseAttente => ActionHx711::Pause(PAUSE_ATTENTE_MS),
        Phase::Avertissement => ActionHx711::Avertir,
        Phase::PauseAvertissement => ActionHx711::Pause(PAUSE_AVERTISSEMENT_MS),
        Phase::FrontMontant | Phase::GainMontant => ActionHx711::Horloge(true),
        Phase::FrontDescendant | Phase::GainDescendant => ActionHx711::Horloge(false),
        Phase::Fini => if s.echec {
            ActionHx711::Erreur
        } else {
            ActionHx711::Valeur(s.resultat)
        },
    }
}

/// États atteignables : au plus 1000 attentes entre deux avertissements
/// (1001 au moment de l'avertissement) ; `valeur` tient sur les bits déjà
/// lus ; au plus 9 mesures terminées avant la fin d'une moyenne, dont la
/// somme est celle de mesures de 24 bits signées.
pub open spec fn etat_valide(s: EtatHx711) -> bool {
    &&& s.tours <= TOURS_AVANT_AVERTISSEMENT + 1
    &&& (s.phase != Phase::Avertissement && s.phase != Phase::PauseAvertissement)
        ==> s.tours <= TOURS_AVANT_AVERTISSEMENT
    &&& s.bit <= BITS_MESURE
    &&& (s.phase == Phase::LectureBit || s.phase == Phase::FrontMontant) ==> s.bit < BITS_MESURE
        && s.valeur < vstd::arithmetic::power2::pow2(s.bit as nat)
    &&& (s.phase == Phase::FrontDescendant) ==> s.bit < BITS_MESURE
        && s.valeur < vstd::arithmetic::power2::pow2((s.bit + 1) as nat)
    &&& (s.phase == Phase::GainMontant || s.phase == Phase::GainDescendant) ==> s.valeur
        < 0x100_0000
    &&& s.echantillons <= NB_ECHANTILLONS
    &&& (s.phase != Phase::Fini ==> s.echantillons < NB_ECHANTILLONS)
    &&& (s.moyenne || s.echantillons == 0)
    &&& -(s.echantillons as int) * 0x80_0000 <= s.somme <= (s.echantillons as int) * 0x7F_FFFF
}

/// La lecture en cours du HX711.
pub struct Hx711 {
    etat: EtatHx711,
}

impl Hx711 {
    /// L'état de la lecture.
    pub closed spec fn etat(&self) -> EtatHx711 {
        self.etat
    }

    /// Lecture d'une mesure brute : rend la première action (lire DT).
    pub fn lire_brut() -> (r: (Self, ActionHx711))
        ensures
            r.0.etat() == etat_depart(false),
            etat_valide(r.0.etat()),
            r.1 == action_de(etat_depart(false)),
    {
        proof {
            loi_etats_depart();
        }
        (Hx711 { etat: depart(false) }, ActionHx711::LireDt)
    }

    /// Lecture de la moyenne de 10 mesures : rend la première action.
    pub fn lire_moyenne() -> (r: (Self, ActionHx711))
        ensures
            r.0.etat() == etat_depart(true),
            etat_valide(r.0.etat()),
            r.1 == action_de(etat_depart(true)),
    {
        proof {
            loi_etats_depart();
        }
        (Hx711 { etat: depart(true) }, ActionHx711::LireDt)
    }

    /// Donne l'événement qui répond à l'action en cours ; rend l'action
    /// suivante.
    pub fn poursuivre(&mut self, e: EvenementHx711) -> (a: ActionHx711)
        requires
            etat_valide(old(self).etat()),
            evenement_admis(old(self).etat(), e),
        ensures
            final(self).etat() == transition(old(self).etat(), e),
            etat_valide(final(self).etat()),
            a == action_de(final(self).etat()),
    {
        let s = self.etat;
        proof {
            loi_lecture_valide(s, e);
        }
        let t = match s.phase {
            Phase::Attente => if e == EvenementHx711::Niveau(true) {
                EtatHx711 { phase: Phase::PauseAttente, ..s }
            } else {
                EtatHx711 { phase: Phase::FrontMontant, bit: 0, valeur: 0, ..s }
            },
            Phase::PauseAttente => if s.tours + 1 > TOURS_AVANT_AVERTISSEMENT {
                EtatHx711 { phase: Phase::Avertissement, tours: s.tours + 1, ..s }
            } else {
                EtatHx711 { phase: Phase::Attente, tours: s.tours + 1, ..s }
            },
            Phase::Avertissement => EtatHx711 { phase: Phase::PauseAvertissement, ..s },
            Phase::PauseAvertissement => EtatHx711 { phase: Phase::Attente, tours: 0, ..s },
            Phase::FrontMontant => if e == EvenementHx711::Echec {
                EtatHx711 { phase: Phase::Fini, echec: true, ..s }
            } else {
                EtatHx711 { phase: Phase::LectureBit, ..s }
            },
            Phase::LectureBit => {
                let mut v = s.valeur << 1;
                let haut = e == EvenementHx711::Niveau(true);
                if haut {
                    v = v | 1;
                }
                proof {
                    let x = s.valeur;
                    let b = s.bit;
                    vstd::arithmetic::power2::lemma2_to64();
                    vstd::arithmetic::power2::lemma_pow2_strictly_increases(b as nat, 24);
                    assert(x < 0x80_0000);
                    assert(x << 1 == 2 * x) by (bit_vector)
                        requires x < 0x80_0000;
                    assert((2 * x) as u32 | 1 == 2 * x + 1) by (bit_vector)
                        requires x < 0x80_0000;
                }
                EtatHx711 { phase: Phase::FrontDescendant, valeur: v, ..s }
            },
            Phase::FrontDescendant => if e == EvenementHx711::Echec {
                EtatHx711 { phase: Phase::Fini, echec: true, ..s }
            } else if s.bit + 1 < BITS_MESURE {
                EtatHx711 { phase: Phase::FrontMontant, bit: s.bit + 1, ..s }
            } else {
                EtatHx711 { phase: Phase::GainMontant, bit: s.bit + 1, ..s }
            },
            Phase::GainMontant => if e == EvenementHx711::Echec {
                EtatHx711 { phase: Phase::Fini, echec: true, ..s }
            } else {
                EtatHx711 { phase: Phase::GainDescendant, ..s }
            },
            Phase::GainDescendant => if e == EvenementHx711::Echec {
                EtatHx711 { phase: Phase::Fini, echec: true, ..s }
            } else {
                let x = etendre_signe_24(s.valeur);
                fin_mesure_exec(s, x)
            },
            Phase::Fini => s,
        };
        self.etat = t;
        action_exec(t)
    }
}

fn depart(moyenne: bool) -> (s: EtatHx711)
    ensures
        s == etat_depart(moyenne),
{
    EtatHx711 {
        phase: Phase::Attente,
        tours: 0,
        bit: 0,
        valeur: 0,
        moyenne,
        echantillons: 0,
        somme: 0,
        resultat: 0,
        echec: false,
    }
}

fn fin_mesure_exec(s: EtatHx711, x: i32) -> (t: EtatHx711)
    requires
        etat_valide(s),
        s.phase != Phase::Fini,
        -0x80_0000 <= x < 0x80_0000,
    ensures
        t == fin_mesure(s, x as int),
{
    if !s.moyenne {
        EtatHx711 { phase: Phase::Fini, resultat: x, ..s }
    } else {
        assert(-(NB_ECHANTILLONS as int) * 0x80_0000 <= s.somme + x <= (NB_ECHANTILLONS as int) * 0x7F_FFFF)
            by (nonlinear_arith)
            requires
                -(s.echantillons as int) * 0x80_0000 <= s.somme <= (s.echantillons as int) * 0x7F_FFFF,
                s.echantillons < NB_ECHANTILLONS,
                -0x80_0000 <= x < 0x80_0000;
        let somme = s.somme + x as i64;
        if s.echantillons + 1 < NB_ECHANTILLONS {
            EtatHx711 {
                phase: Phase::Attente,
                tours: 0,
                bit: 0,
                valeur: 0,
                echantillons: s.echantillons + 1,
                somme,
                ..s
            }
        } else {
            let q = somme / 10;
            assert(q == division_tronquee(somme as int, 10));
            EtatHx711 { phase: Phase::Fini, echantillons: s.echantillons + 1, somme, resultat: q as i32, ..s }
        }
    }
}

fn action_exec(s: EtatHx711) -> (a: ActionHx711)
    ensures
        a == action_de(s),
{
    match s.phase {
        Phase::Attente => ActionHx711::LireDt,
        Phase::LectureBit => ActionHx711::LireDt,
        Phase::PauseAttente => ActionHx711::Pause(PAUSE_ATTENTE_MS),
        Phase::Avertissement => ActionHx711::Avertir,
        Phase::PauseAvertissement => ActionHx711::Pause(PAUSE_AVERTISSEMENT_MS),
        Phase::FrontMontant => ActionHx711::Horloge(true),
        Phase::GainMontant => ActionHx711::Horloge(true),
        Phase::FrontDescendant => ActionHx711::Horloge(false),
        Phase::GainDescendant => ActionHx711::Horloge(false),
        Phase::Fini => if s.echec {
            ActionHx711::Erreur
        } else {
            ActionHx711::Valeur(s.resultat)
        },
    }
}

// ------------------------------------------------------------------ lois

/// Toute lecture part d'un état valide.
pub proof fn loi_etats_depart()
    ensures
        etat_valide(etat_depart(false)),
        etat_valide(etat_depart(true)),
{
    vstd::arithmetic::power2::lemma2_to64();
}

/// Chaque événement admis garde l'état valide : en particulier la valeur
/// lue tient sur 24 bits et la somme des mesures d'une moyenne ne déborde
/// pas.
pub proof fn loi_lecture_valide(s: EtatHx711, e: EvenementHx711)
    requires
        etat_valide(s),
        evenement_admis(s, e),
    ensures
        etat_valide(transition(s, e)),
{
    vstd::arithmetic::power2::lemma2_to64();
    if s.phase == Phase::LectureBit {
        vstd::arithmetic::power2::lemma_pow2_adds(s.bit as nat, 1);
    }
    if s.phase == Phase::FrontDescendant && s.bit + 1 < BITS_MESURE {
    }
    if s.phase == Phase::FrontDescendant && s.bit + 1 >= BITS_MESURE {
        assert(s.bit == 23);
    }
    if s.phase == Phase::GainDescendant && e == EvenementHx711::Fait && s.moyenne {
        let x = valeur_signee_24(s.valeur as int);
        assert(-(s.echantillons + 1) * 0x80_0000 <= s.somme + x <= (s.echantillons + 1) * 0x7F_FFFF)
            by (nonlinear_arith)
            requires
                -(s.echantillons as int) * 0x80_0000 <= s.somme <= (s.echantillons as int) * 0x7F_FFFF,
                -0x80_0000 <= x < 0x80_0000;
    }
}

/// Une mesure brute réussie est la valeur signée des 24 bits lus, entre
/// -2^23 et 2^23 - 1 ; une moyenne réussie est la somme des 10 mesures
/// divisée par 10, tronquée, dans le même intervalle.
pub proof fn loi_resultat(s: EtatHx711, e: EvenementHx711)
    requires
        etat_valide(s),
        evenement_admis(s, e),
        s.phase == Phase::GainDescendant,
        e == EvenementHx711::Fait,
    ensures
        !s.moyenne ==> transition(s, e).phase == Phase::Fini && transition(s, e).resultat
            == valeur_signee_24(s.valeur as int),
        s.moyenne && s.echantillons + 1 == NB_ECHANTILLONS ==> transition(s, e).phase == Phase::Fini
            && transition(s, e).resultat == division_tronquee(
            s.somme + valeur_signee_24(s.valeur as int),
            10,
        ),
        transition(s, e).phase == Phase::Fini ==> -0x80_0000 <= transition(s, e).resultat < 0x80_0000,
{
    let x = valeur_signee_24(s.valeur as int);
    if s.moyenne && s.echantillons + 1 == NB_ECHANTILLONS {
        let t = s.somme + x;
        assert(-0x80_0000 <= x < 0x80_0000);
        assert(-(10 * 0x80_0000) <= t <= 10 * 0x7F_FFFF) by (nonlinear_arith)
            requires
                t == s.somme + x,
                -(s.echantillons as int) * 0x80_0000 <= s.somme <= (s.echantillons as int) * 0x7F_FFFF,
                s.echantillons == 9,
                -0x80_0000 <= x < 0x80_0000;
        assert(-0x80_0000 <= division_tronquee(t, 10) < 0x80_0000) by (nonlinear_arith)
            requires -(10 * 0x80_0000) <= t <= 10 * 0x7F_FFFF;
    }
}

// ------------------------------------------------------------------ déroulements

/// État atteint depuis `s` après les événements `es`, dans l'ordre.
pub open spec fn derouler(s: EtatHx711, es: Seq<EvenementHx711>) -> EtatHx711
    decreases es.len(),
{
    if es.len() == 0 {
        s
    } else {
        derouler(transition(s, es[0]), es.drop_first())
    }
}

/// Actions rendues depuis `s` en recevant les événements `es` : la
/// première, puis une après chaque événement.
pub open spec fn actions_emises(s: EtatHx711, es: Seq<EvenementHx711>) -> Seq<ActionHx711>
    decreases es.len(),
{
    if es.len() == 0 {
        seq![action_de(s)]
    } else {
        seq![action_de(s)] + actions_emises(transition(s, es[0]), es.drop_first())
    }
}

/// Chaque événement répond à l'action de l'état où il arrive.
pub open spec fn deroulement_admis(s: EtatHx711, es: Seq<EvenementHx711>) -> bool
    decreases es.len(),
{
    es.len() == 0 || (evenement_admis(s, es[0]) && deroulement_admis(transition(s, es[0]), es.drop_first()))
}

/// Un événement de plus après `es`.
pub proof fn lemme_derouler_pousser(s: EtatHx711, es: Seq<EvenementHx711>, e: EvenementHx711)
    ensures
        derouler(s, es.push(e)) == transition(derouler(s, es), e),
    decreases es.len(),
{
    let t = es.push(e);
    assert(t[0] == if es.len() > 0 { es[0] } else { e });
    if es.len() > 0 {
        assert(t.drop_first() =~= es.drop_first().push(e));
        lemme_derouler_pousser(transition(s, es[0]), es.drop_first(), e);
    } else {
        assert(t.drop_first() =~= Seq::<EvenementHx711>::empty());
        assert(derouler(transition(s, e), t.drop_first()) == transition(s, e));
    }
}

/// Deux lectures qui partent du même état et reçoivent les mêmes
/// événements (mêmes niveaux lus sur DT, mêmes issues des commandes de
/// SCK) rendent les mêmes actions, dans le même ordre, et finissent dans le
/// même état, donc sur la même valeur ou la même erreur ; une lecture
/// admise reste dans des états valides.
pub proof fn loi_lecture_deterministe(
    s1: EtatHx711,
    s2: EtatHx711,
    e1: Seq<EvenementHx711>,
    e2: Seq<EvenementHx711>,
)
    requires
        s1 == s2,
        e1 == e2,
    ensures
        derouler(s1, e1) == derouler(s2, e2),
        actions_emises(s1, e1) == actions_emises(s2, e2),
        action_de(derouler(s1, e1)) == action_de(derouler(s2, e2)),
        etat_valide(s1) && deroulement_admis(s1, e1) ==> etat_valide(derouler(s1, e1)),
    decreases e1.len(),
{
    if e1.len() > 0 {
        if etat_valide(s1) && deroulement_admis(s1, e1) {
            loi_lecture_valide(s1, e1[0]);
        }
        loi_lecture_deterministe(transition(s1, e1[0]), transition(s2, e2[0]), e1.drop_first(), e2.drop_first());
    }
}

/// La même lecture vue comme la première mesure d'une moyenne.
pub open spec fn en_moyenne(s: EtatHx711) -> EtatHx711 {
    EtatHx711 { moyenne: true, ..s }
}

/// Tant qu'une mesure brute n'est pas finie, la lecture d'une moyenne qui
/// reçoit les mêmes événements est dans le même état (à l'indicateur de
/// moyenne près) et rend les mêmes actions : mêmes lectures de DT, mêmes
/// commandes de SCK, mêmes pauses.
proof fn lemme_meme_mesure(s: EtatHx711, es: Seq<EvenementHx711>)
    requires
        !s.moyenne,
        s.echantillons == 0,
        s.somme == 0,
        forall|k: int| 0 <= k <= es.len() ==> (#[trigger] derouler(s, es.take(k))).phase != Phase::Fini,
    ensures
        derouler(en_moyenne(s), es) == en_moyenne(derouler(s, es)),
        actions_emises(en_moyenne(s), es) == actions_emises(s, es),
        !derouler(s, es).moyenne,
        derouler(s, es).echantillons == 0,
        derouler(s, es).somme == 0,
    decreases es.len(),
{
    assert(es.take(0) =~= Seq::<EvenementHx711>::empty());
    assert(derouler(s, es.take(0)) == s);
    if es.len() > 0 {
        let e = es[0];
        let t = transition(s, e);
        assert(es.take(1).drop_first() =~= Seq::<EvenementHx711>::empty());
        assert(es.take(1)[0] == e);
        assert(derouler(t, es.take(1).drop_first()) == t);
        assert(derouler(s, es.take(1)) == t);
        assert(transition(en_moyenne(s), e) == en_moyenne(t));
        let r = es.drop_first();
        assert forall|k: int| 0 <= k <= r.len() implies (#[trigger] derouler(t, r.take(k))).phase != Phase::Fini by {
            assert(es.take(k + 1).drop_first() =~= r.take(k));
            assert(es.take(k + 1)[0] == e);
            assert(derouler(s, es.take(k + 1)).phase != Phase::Fini);
        }
        lemme_meme_mesure(t, r);
    }
}

/// Une moyenne commence exactement comme une mesure brute : sur les mêmes
/// événements, tant que la mesure brute n'est pas finie, les deux lectures
/// rendent les mêmes actions (mêmes commandes de SCK) ; quand la mesure
/// brute se termine sur une valeur, la moyenne en a une première mesure
/// égale à cette valeur, et attend la suivante.
pub proof fn loi_moyenne_commence_par_brut(es: Seq<EvenementHx711>, e: EvenementHx711)
    requires
        deroulement_admis(etat_depart(false), es),
        forall|k: int| 0 <= k <= es.len() ==> (#[trigger] derouler(etat_depart(false), es.take(k))).phase
            != Phase::Fini,
    ensures
        derouler(etat_depart(true), es) == en_moyenne(derouler(etat_depart(false), es)),
        actions_emises(etat_depart(true), es) == actions_emises(etat_depart(false), es),
        derouler(etat_depart(false), es.push(e)).phase == Phase::Fini && !derouler(
            etat_depart(false),
            es.push(e),
        ).echec ==> ({
            let m = derouler(etat_depart(true), es.push(e));
            &&& m.phase == Phase::Attente
            &&& m.echantillons == 1
            &&& m.somme == derouler(etat_depart(false), es.push(e)).resultat
        }),
{
    assert(en_moyenne(etat_depart(false)) == etat_depart(true));
    lemme_meme_mesure(etat_depart(false), es);
    lemme_derouler_pousser(etat_depart(false), es, e);
    lemme_derouler_pousser(etat_depart(true), es, e);
    let b = derouler(etat_depart(false), es);
    loi_etats_depart();
    loi_lecture_deterministe(etat_depart(false), etat_depart(false), es, es);
    assert(es.take(es.len() as int) =~= es);
    if derouler(etat_depart(false), es.push(e)).phase == Phase::Fini && !derouler(etat_depart(false), es.push(e)).echec {
        assert(b.phase == Phase::GainDescendant);
        assert(!(e is Echec));
        assert(etat_valide(b));
        let x = valeur_signee_24(b.valeur as int);
        assert(-0x80_0000 <= x < 0x80_0000);
        let m = transition(en_moyenne(b), e);
        assert(m == fin_mesure(en_moyenne(b), x));
        assert(m.somme == x);
        assert(transition(b, e).resultat == x);
    }
}

} // verus!
