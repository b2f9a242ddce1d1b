//! Pesée de l'émetteur : choix du zéro (tare) et boucle de stabilisation
//! qui absorbe les chocs d'un courrier posé ou jeté.
//!
//! Le zéro est gardé dans la mémoire RTC, qui survit à la veille profonde
//! mais revient à une valeur sentinelle à chaque vraie mise sous tension :
//! on ne tare qu'à la première mise en service, jamais à chaque réveil
//! (sinon un courrier déjà posé serait compté dans le zéro).
//!
//! Boucle de stabilisation : après une première mesure, toutes les 300 ms
//! une nouvelle mesure est comparée à la précédente ; dès que l'écart est
//! sous la tolérance (décidé par l'appelant, en grammes), la pesée est
//! stable ; après 4 s sans stabilité, la dernière mesure est gardée quand
//! même.

use vstd::prelude::*;

verus! {

/// Valeur du zéro en mémoire RTC avant toute tare.
pub const ZERO_NON_MESURE: i32 = i32::MIN;
/// Durée maximale de la stabilisation (ms).
pub const DELAI_MAX_STABILISATION_MS: u32 = 4_000;
/// Intervalle entre deux mesures de stabilisation (ms).
pub const INTERVALLE_STABILISATION_MS: u32 = 300;

/// Il faut tarer quand le zéro mémorisé est encore la sentinelle.
pub fn tare_a_faire(zero_memorise: i32) -> (b: bool)
    ensures
        b == (zero_memorise == ZERO_NON_MESURE),
{
    zero_memorise == ZERO_NON_MESURE
}

/// Action demandée à l'appelant.
#[derive(PartialEq, Eq, Structural, Clone, Copy, Debug)]
pub enum ActionPesee {
    /// Attendre ce nombre de millisecondes.
    Pause(u32),
    /// Faire une nouvelle mesure et dire si elle est assez proche de la
    /// précédente (`derniere_lecture`).
    Mesurer,
    /// Pesée terminée : dernière mesure, stabilisée ou non, après combien
    /// de millisecondes d'attente.
    Terminer { lecture: i32, stabilise: bool, attente_ms: u32 },
}

/// État de la stabilisation.
#[derive(PartialEq, Eq, Structural, Clone, Copy, Debug)]
pub struct EtatPesee {
    pub derniere_lecture: i32,
    pub attente_ms: u32,
    /// Une pause est demandée (sinon une mesure, ou la fin).
    pub en_pause: bool,
    pub fini: bool,
    pub stabilise: bool,
}

/// Après la première mesure : une pause.
pub open spec fn etat_depart(premiere: i32) -> EtatPesee {
    EtatPesee { derniere_lecture: premiere, attente_ms: 0, en_pause: true, fini: false, stabilise: false }
}

/// Après la pause : une mesure, 300 ms de plus d'attente.
pub open spec fn apres_pause(s: EtatPesee) -> EtatPesee {
    EtatPesee { en_pause: false, attente_ms: (s.attente_ms + INTERVALLE_STABILISATION_MS) as u32, ..s }
}

/// Après une mesure : fin si elle est stable ou si l'attente atteint 4 s,
/// sinon une nouvelle pause ; la mesure devient la dernière.
pub open spec fn apres_mesure(s: EtatPesee, lecture: i32, stable: bool) -> EtatPesee {
    if stable {
        EtatPesee { derniere_lecture: lecture, fini: true, stabilise: true, ..s }
    } else if s.attente_ms < DELAI_MAX_STABILISATION_MS {
        EtatPesee { derniere_lecture: lecture, en_pause: true, ..s }
    } else {
        EtatPesee { derniere_lecture: lecture, fini: true, ..s }
    }
}

/// L'action qui correspond à un état.
pub open spec fn action_de(s: EtatPesee) -> ActionPesee {
    if s.fini {
        ActionPesee::Terminer { lecture: s.derniere_lecture, stabilise: s.stabilise, attente_ms: s.attente_ms }
    } else if s.en_pause {
        ActionPesee::Pause(INTERVALLE_STABILISATION_MS)
    } else {
        ActionPesee::Mesurer
    }
}

/// États atteignables : l'attente est un multiple de 300 ms d'au plus
/// 4 200 ms ; en pause, elle est sous 4 s.
pub open spec fn etat_valide(s: EtatPesee) -> bool {
    &&& s.attente_ms % INTERVALLE_STABILISATION_MS == 0
    &&& s.attente_ms <= DELAI_MAX_STABILISATION_MS + INTERVALLE_STABILISATION_MS - 100
    &&& (s.en_pause && !s.fini) ==> s.attente_ms < DELAI_MAX_STABILISATION_MS
}

/// La boucle de stabilisation en cours.
pub struct Stabilisation {
    etat: EtatPesee,
}

impl Stabilisation {
    pub closed spec fn etat(&self) -> EtatPesee {
        self.etat
    }

    /// Début de la stabilisation après la première mesure ; rend la
    /// première action (une pause).
    pub fn new(premiere_lecture: i32) -> (r: (Self, ActionPesee))
        ensures
            r.0.etat() == etat_depart(premiere_lecture),
            etat_valide(r.0.etat()),
            r.1 == action_de(etat_depart(premiere_lecture)),
    {
        let etat = EtatPesee {
            derniere_lecture: premiere_lecture,
            attente_ms: 0,
            en_pause: true,
            fini: false,
            stabilise: false,
        };
        (Stabilisation { etat }, ActionPesee::Pause(INTERVALLE_STABILISATION_MS))
    }

    /// La mesure à laquelle comparer la suivante.
    pub fn derniere_lecture(&self) -> (l: i32)
        ensures
            l == self.etat().derniere_lecture,
    {
        self.etat.derniere_lecture
    }

    /// La pause demandée est faite ; rend l'action suivante (une mesure).
    pub fn pause_faite(&mut self) -> (a: ActionPesee)
        requires
            etat_valide(old(self).etat()),
            old(self).etat().en_pause,
            !old(self).etat().fini,
        ensures
            final(self).etat() == apres_pause(old(self).etat()),
            etat_valide(final(self).etat()),
            a == action_de(final(self).etat()),
    {
        self.etat = EtatPesee {
            en_pause: false,
            attente_ms: self.etat.attente_ms + INTERVALLE_STABILISATION_MS,
            ..self.etat
        };
        ActionPesee::Mesurer
    }

    /// Nouvelle mesure, avec le verdict de stabilité de l'appelant ; rend
    /// l'action suivante.
    pub fn mesure(&mut self, lecture: i32, stable: bool) -> (a: ActionPesee)
        requires
            etat_valide(old(self).etat()),
            !old(self).etat().en_pause,
            !old(self).etat().fini,
        ensures
            final(self).etat() == apres_mesure(old(self).etat(), lecture, stable),
            final(self).etat().derniere_lecture == lecture,
            etat_valide(final(self).etat()),
            a == action_de(final(self).etat()),
    {
        let s = self.etat;
        if stable {
            self.etat = EtatPesee { derniere_lecture: lecture, fini: true, stabilise: true, ..s };
        } else if s.attente_ms < DELAI_MAX_STABILISATION_MS {
            self.etat = EtatPesee { derniere_lecture: lecture, en_pause: true, ..s };
        } else {
            self.etat = EtatPesee { derniere_lecture: lecture, fini: true, ..s };
        }
        let t = self.etat;
        if t.fini {
            ActionPesee::Terminer { lecture: t.derniere_lecture, stabilise: t.stabilise, attente_ms: t.attente_ms }
        } else {
            ActionPesee::Pause(INTERVALLE_STABILISATION_MS)
        }
    }
}

/// Nombre maximal d'événements (pauses et mesures) avant la fin.
pub open spec fn etapes_restantes(s: EtatPesee) -> nat {
    if s.fini {
        0
    } else if s.en_pause {
        (2 * ((DELAI_MAX_STABILISATION_MS - s.attente_ms) / INTERVALLE_STABILISATION_MS as int + 1)) as nat
    } else if s.attente_ms < DELAI_MAX_STABILISATION_MS {
        (1 + 2 * ((DELAI_MAX_STABILISATION_MS - s.attente_ms) / INTERVALLE_STABILISATION_MS as int
            + 1)) as nat
    } else {
        1
    }
}

/// La stabilisation se termine toujours : au plus 28 événements (14 pauses
/// et 14 mesures, 4 200 ms d'attente) après la première mesure ; chaque
/// pause et chaque mesure, stable ou non, garde l'état valide et rapproche
/// strictement la fin.
pub proof fn loi_stabilisation_bornee(s: EtatPesee, lecture: i32, stable: bool)
    requires
        etat_valide(s),
        !s.fini,
    ensures
        etat_valide(etat_depart(lecture)),
        etapes_restantes(etat_depart(lecture)) == 28,
        s.en_pause ==> etat_valide(apres_pause(s)) && etapes_restantes(apres_pause(s))
            < etapes_restantes(s),
        !s.en_pause ==> etat_valide(apres_mesure(s, lecture, stable)) && etapes_restantes(
            apres_mesure(s, lecture, stable),
        ) < etapes_restantes(s),
{
    let a = s.attente_ms as int;
    if s.en_pause && a + 300 < 4000 {
        assert((4000 - (a + 300)) / 300 == (4000 - a) / 300 - 1) by (nonlinear_arith)
            requires a % 300 == 0, 0 <= a < 3700;
    }
}

/// Chaque mesure devient la référence de la suivante, que la pesée se
/// termine ou non ; une mesure stable termine la pesée sur elle, stabilisée,
/// sans attente de plus ; une mesure instable demande une pause de 300 ms
/// tant que l'attente est sous 4 s, sinon termine la pesée sur elle, non
/// stabilisée.
pub proof fn loi_mesure_reference(s: EtatPesee, lecture: i32, stable: bool)
    requires
        etat_valide(s),
        !s.fini,
        !s.en_pause,
        !s.stabilise,
    ensures
        apres_mesure(s, lecture, stable).derniere_lecture == lecture,
        apres_mesure(s, lecture, stable).attente_ms == s.attente_ms,
        stable ==> action_de(apres_mesure(s, lecture, stable)) == (ActionPesee::Terminer {
            lecture,
            stabilise: true,
            attente_ms: s.attente_ms,
        }),
        !stable && s.attente_ms < 4000 ==> action_de(apres_mesure(s, lecture, stable))
            == ActionPesee::Pause(300),
        !stable && s.attente_ms >= 4000 ==> action_de(apres_mesure(s, lecture, stable)) == (
        ActionPesee::Terminer { lecture, stabilise: false, attente_ms: s.attente_ms }),
{
}

/// La première mesure est la référence de départ, rien n'est encore
/// stabilisé ; une pause garde la référence, ajoute 300 ms d'attente et
/// demande une mesure ; seule une mesure stable marque la pesée
/// stabilisée.
pub proof fn loi_pause_garde_reference(premiere: i32, s: EtatPesee)
    requires
        etat_valide(s),
        !s.fini,
        s.en_pause,
    ensures
        etat_depart(premiere).derniere_lecture == premiere,
        action_de(etat_depart(premiere)) == ActionPesee::Pause(300),
        apres_pause(s).derniere_lecture == s.derniere_lecture,
        apres_pause(s).attente_ms == s.attente_ms + 300,
        action_de(apres_pause(s)) == ActionPesee::Mesurer,
        !etat_depart(premiere).stabilise,
        apres_pause(s).stabilise == s.stabilise,
        forall|l: i32, stable: bool| #[trigger] apres_mesure(apres_pause(s), l, stable).stabilise == (stable
            || s.stabilise),
{
}

} // verus!
