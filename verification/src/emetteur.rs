//! Cycle d'échange de l'émetteur, à chaque réveil : envoi du message
//! (`COLIS:<g>` ou `RIEN`), écoute de l'accusé de réception pendant 100
//! sondages espacés de 20 ms, au plus 3 essais ; puis fin de cycle avec la
//! durée de veille à programmer (corrigée par l'accusé quand il en porte
//! une). Toutes les branches convergent vers la fin de cycle en un nombre
//! borné d'étapes.
//!
//! C'est une machine à états : l'appelant exécute l'action rendue (envoi
//! radio, passage en écoute, sonde de réception, pause) et rend l'événement
//! qui en résulte à `poursuivre`.

use vstd::prelude::*;
use crate::protocole::{
    accuse_attendu, accuse_attendu_spec, analyse_accuse_spec, analyser_accuse, duree_veille_spec,
    duree_veille_us, message_pesee, message_spec, AnalyseAccuse, Correction, INTERVALLE_VEILLE_US,
};
use crate::tampons::{octets_paquet, octets_texte32, paquet_octets, texte32_str};

verus! {

/// Nombre maximal d'envois du message.
pub const MAX_ESSAIS: u32 = 3;
/// Nombre de sondages de réception par essai (100 x 20 ms = 2 s).
pub const TOURS_ATTENTE_ACK: u32 = 100;
/// Pause entre deux sondages (ms).
pub const DELAI_TOUR_MS: u32 = 20;

/// Étape du cycle : ce que l'action en cours demande.
#[derive(PartialEq, Eq, Structural, Clone, Copy, Debug)]
pub enum Phase {
    Envoi,
    Ecoute,
    Sonde,
    Pause,
    Fini,
}

/// État du cycle d'échange.
#[derive(PartialEq, Eq, Structural, Clone, Copy, Debug)]
pub struct EtatEchange {
    /// Numéro de l'essai en cours (de 1 à 3).
    pub essai: u32,
    /// Numéro du sondage en cours dans l'essai (de 0 à 99).
    pub tour: u32,
    pub phase: Phase,
    pub ack_recu: bool,
    pub duree_veille_us: u64,
}

/// Action demandée à l'appelant.
#[derive(PartialEq, Eq, Structural, Clone, Copy, Debug)]
pub enum ActionEchange {
    /// Envoyer le message (`message()`) par radio.
    Envoyer,
    /// Passer le module radio en écoute continue.
    DemarrerEcoute,
    /// Sonder la réception une fois.
    Sonder,
    /// Attendre ce nombre de millisecondes.
    Pause(u32),
    /// Fin de cycle : accusé reçu ou non, durée de veille à programmer (µs).
    Terminer { ack_recu: bool, duree_veille_us: u64 },
}

/// Résultat de l'action, rendu par l'appelant.
pub enum Evenement {
    /// Envoi réussi ou non.
    Envoi(bool),
    /// Écoute démarrée.
    EcouteDemarree,
    /// Sonde : les données du paquet reçu, ou rien (pas de paquet, erreur
    /// CRC ou erreur de lecture).
    Sonde(Option<heapless::Vec<u8, 32>>),
    /// Pause effectuée.
    PauseFaite,
}

/// État de départ : premier essai, envoi à faire, durée par défaut.
pub open spec fn etat_initial() -> EtatEchange {
    EtatEchange {
        essai: 1,
        tour: 0,
        phase: Phase::Envoi,
        ack_recu: false,
        duree_veille_us: INTERVALLE_VEILLE_US,
    }
}

/// Après un essai sans accusé : essai suivant s'il en reste, sinon fin de
/// cycle sans accusé.
pub open spec fn essai_suivant(s: EtatEchange) -> EtatEchange {
    if s.essai < MAX_ESSAIS {
        EtatEchange { essai: (s.essai + 1) as u32, tour: 0, phase: Phase::Envoi, ..s }
    } else {
        EtatEchange { phase: Phase::Fini, ..s }
    }
}

/// Durée de veille après un accusé portant cette correction : la correction
/// si elle est lisible, la durée par défaut sinon.
pub open spec fn duree_apres_accuse(c: Correction) -> u64 {
    match c {
        Correction::Secondes(x) => duree_veille_spec(Some(x)),
        _ => INTERVALLE_VEILLE_US,
    }
}

/// L'événement répond à l'action en cours.
pub open spec fn evenement_admis(s: EtatEchange, e: Evenement) -> bool {
    match s.phase {
        Phase::Envoi => e is Envoi,
        Phase::Ecoute => e is EcouteDemarree,
        Phase::Sonde => e is Sonde,
        Phase::Pause => e is PauseFaite,
        Phase::Fini => false,
    }
}

/// Transition du cycle sur un événement admis.
pub open spec fn transition(attendu: Seq<u8>, s: EtatEchange, e: Evenement) -> EtatEchange {
    match e {
        Evenement::Envoi(reussi) => if reussi {
            EtatEchange { phase: Phase::Ecoute, ..s }
        } else {
            essai_suivant(s)
        },
        Evenement::EcouteDemarree => EtatEchange { phase: Phase::Sonde, tour: 0, ..s },
        Evenement::Sonde(p) => match p {
            Some(d) => match analyse_accuse_spec(octets_paquet(d), attendu) {
                AnalyseAccuse::Accuse(c) => EtatEchange {
                    phase: Phase::Fini,
                    ack_recu: true,
                    duree_veille_us: duree_apres_accuse(c),
                    ..s
                },
                AnalyseAccuse::Autre => EtatEchange { phase: Phase::Pause, ..s },
            },
            None => EtatEchange { phase: Phase::Pause, ..s },
        },
        Evenement::PauseFaite => if s.tour + 1 < TOURS_ATTENTE_ACK {
            EtatEchange { phase: Phase::Sonde, tour: (s.tour + 1) as u32, ..s }
        } else {
            essai_suivant(s)
        },
    }
}

/// L'action qui correspond à un état.
pub open spec fn action_de(s: EtatEchange) -> ActionEchange {
    match s.phase {
        Phase::Envoi => ActionEchange::Envoyer,
        Phase::Ecoute => ActionEchange::DemarrerEcoute,
        Phase::Sonde => ActionEchange::Sonder,
        Phase::Pause => ActionEchange::Pause(DELAI_TOUR_MS),
        Phase::Fini => ActionEchange::Terminer {
            ack_recu: s.ack_recu,
            duree_veille_us: s.duree_veille_us,
        },
    }
}

/// Le cycle d'échange d'un réveil.
pub struct Echange {
    message: heapless::String<32>,
    attendu: heapless::String<32>,
    etat: EtatEchange,
}

impl Echange {
    /// Le message envoyé.
    pub closed spec fn message_envoye(&self) -> Seq<u8> {
        octets_texte32(self.message)
    }

    /// L'accusé de réception attendu.
    pub closed spec fn accuse_attendu(&self) -> Seq<u8> {
        octets_texte32(self.attendu)
    }

    /// L'état du cycle.
    pub closed spec fn etat(&self) -> EtatEchange {
        self.etat
    }

    /// Cycle d'un réveil où la pesée a retenu `poids_g` grammes (ou rien) :
    /// le message est `COLIS:<g>` ou `RIEN`, l'accusé attendu `ACK_` suivi
    /// du message. Rend la première action (envoyer).
    pub fn new(poids_g: Option<i32>) -> (r: (Self, ActionEchange))
        ensures
            r.0.message_envoye() == message_spec(poids_g),
            r.0.accuse_attendu() == accuse_attendu_spec(message_spec(poids_g)),
            r.0.etat() == etat_initial(),
            etat_valide(r.0.etat()),
            r.1 == action_de(etat_initial()),
    {
        let message = message_pesee(poids_g);
        let attendu = accuse_attendu(texte32_str(&message));
        let etat = EtatEchange {
            essai: 1,
            tour: 0,
            phase: Phase::Envoi,
            ack_recu: false,
            duree_veille_us: INTERVALLE_VEILLE_US,
        };
        (Echange { message, attendu, etat }, ActionEchange::Envoyer)
    }

    /// Le message à envoyer.
    pub fn message(&self) -> (m: &heapless::String<32>)
        ensures
            octets_texte32(*m) == self.message_envoye(),
    {
        &self.message
    }

    /// Donne l'événement qui répond à l'action en cours ; rend l'action
    /// suivante.
    pub fn poursuivre(&mut self, e: Evenement) -> (a: ActionEchange)
        requires
            evenement_admis(old(self).etat(), e),
        ensures
            final(self).message_envoye() == old(self).message_envoye(),
            final(self).accuse_attendu() == old(self).accuse_attendu(),
            final(self).etat() == transition(old(self).accuse_attendu(), old(self).etat(), e),
            a == action_de(final(self).etat()),
    {
        let s = self.etat;
        let suivant = match e {
            Evenement::Envoi(reussi) => if reussi {
                EtatEchange { phase: Phase::Ecoute, ..s }
            } else {
                essai_suivant_exec(s)
            },
            Evenement::EcouteDemarree => EtatEchange { phase: Phase::Sonde, tour: 0, ..s },
            Evenement::Sonde(p) => match p {
                Some(d) => {
                    let attendu = texte32_str(&self.attendu).as_bytes();
                    match analyser_accuse(paquet_octets(&d), attendu) {
                        AnalyseAccuse::Accuse(c) => {
                            let duree = match c {
                                Correction::Secondes(x) => duree_veille_us(Some(x)),
                                _ => INTERVALLE_VEILLE_US,
                            };
                            EtatEchange { phase: Phase::Fini, ack_recu: true, duree_veille_us: duree, ..s }
                        },
                        AnalyseAccuse::Autre => EtatEchange { phase: Phase::Pause, ..s },
                    }
                },
                None => EtatEchange { phase: Phase::Pause, ..s },
            },
            Evenement::PauseFaite => if s.tour < TOURS_ATTENTE_ACK - 1 {
                EtatEchange { phase: Phase::Sonde, tour: s.tour + 1, ..s }
            } else {
                essai_suivant_exec(s)
            },
        };
        self.etat = suivant;
        action_exec(suivant)
    }
}

fn essai_suivant_exec(s: EtatEchange) -> (t: EtatEchange)
    ensures
        t == essai_suivant(s),
{
    if s.essai < MAX_ESSAIS {
        EtatEchange { essai: s.essai + 1, tour: 0, phase: Phase::Envoi, ..s }
    } else {
        EtatEchange { phase: Phase::Fini, ..s }
    }
}

fn action_exec(s: EtatEchange) -> (a: ActionEchange)
    ensures
        a == action_de(s),
{
    match s.phase {
        Phase::Envoi => ActionEchange::Envoyer,
        Phase::Ecoute => ActionEchange::DemarrerEcoute,
        Phase::Sonde => ActionEchange::Sonder,
        Phase::Pause => ActionEchange::Pause(DELAI_TOUR_MS),
        Phase::Fini => ActionEchange::Terminer { ack_recu: s.ack_recu, duree_veille_us: s.duree_veille_us },
    }
}

// ------------------------------------------------------------------ lois

/// États atteignables du cycle : essai entre 1 et 3, sondage entre 0 et
/// 99 ; tant qu'aucun accusé n'est reçu, la durée de veille est celle par
/// défaut ; un accusé reçu termine le cycle.
pub open spec fn etat_valide(s: EtatEchange) -> bool {
    &&& 1 <= s.essai <= MAX_ESSAIS
    &&& s.tour < TOURS_ATTENTE_ACK
    &&& !s.ack_recu ==> s.duree_veille_us == INTERVALLE_VEILLE_US
    &&& s.ack_recu ==> s.phase == Phase::Fini
}

/// Nombre maximal d'événements avant la fin du cycle.
pub open spec fn etapes_restantes(s: EtatEchange) -> nat {
    let par_essai: nat = 2 + 2 * TOURS_ATTENTE_ACK as nat;
    let essais_suivants: nat = ((MAX_ESSAIS - s.essai) * par_essai) as nat;
    match s.phase {
        Phase::Envoi => essais_suivants + par_essai,
        Phase::Ecoute => essais_suivants + (par_essai - 1) as nat,
        Phase::Sonde => essais_suivants + (2 * (TOURS_ATTENTE_ACK - s.tour)) as nat,
        Phase::Pause => essais_suivants + (2 * (TOURS_ATTENTE_ACK - s.tour) - 1) as nat,
        Phase::Fini => 0,
    }
}

/// Le cycle part d'un état valide et se termine en au plus 606 événements
/// (3 essais de 202 : envoi, écoute, 100 sondages et 100 pauses).
pub proof fn loi_cycle_depart()
    ensures
        etat_valide(etat_initial()),
        etapes_restantes(etat_initial()) == 606,
{
}

/// Chaque événement admis, quel qu'il soit (envoi raté, paquet étranger,
/// accusé reçu, pause), garde l'état valide et rapproche strictement de la
/// fin du cycle : toutes les branches convergent vers la fin de cycle.
pub proof fn loi_cycle_progresse(attendu: Seq<u8>, s: EtatEchange, e: Evenement)
    requires
        etat_valide(s),
        s.phase != Phase::Fini,
        evenement_admis(s, e),
    ensures
        etat_valide(transition(attendu, s, e)),
        etapes_restantes(transition(attendu, s, e)) < etapes_restantes(s),
{
    assert((MAX_ESSAIS - s.essai) * (2 + 2 * TOURS_ATTENTE_ACK) == (MAX_ESSAIS - s.essai - 1) * (2
        + 2 * TOURS_ATTENTE_ACK) + (2 + 2 * TOURS_ATTENTE_ACK)) by (nonlinear_arith);
}

/// En fin de cycle, sans accusé reçu, la veille dure l'intervalle par
/// défaut de 12 h ; avec un accusé, elle dure la correction qu'il porte
/// (au moins 5 min), ou 12 h s'il n'en porte pas de lisible.
pub proof fn loi_duree_fin_cycle(attendu: Seq<u8>, s: EtatEchange, e: Evenement)
    requires
        etat_valide(s),
        evenement_admis(s, e),
        transition(attendu, s, e).phase == Phase::Fini,
    ensures
        !transition(attendu, s, e).ack_recu ==> transition(attendu, s, e).duree_veille_us
            == INTERVALLE_VEILLE_US,
        transition(attendu, s, e).ack_recu ==> (e matches Evenement::Sonde(Some(d))
            && analyse_accuse_spec(octets_paquet(d), attendu) matches AnalyseAccuse::Accuse(c)
            && transition(attendu, s, e).duree_veille_us == duree_apres_accuse(c)),
{
}

} // verus!
