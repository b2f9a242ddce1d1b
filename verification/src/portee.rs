//! Émetteurs d'essai : test de portée (une simulation d'ouverture de porte
//! toutes les 4 h, avec un bilan des accusés reçus et manqués) et test de
//! veille (un envoi à chaque réveil par le bouton).
//!
//! Chaque envoi `PING <n>` attend l'accusé exact `ACK <n>` : au plus 3
//! essais, chacun de 100 sondages espacés de 20 ms après le passage en
//! écoute ; un envoi raté passe directement à l'essai suivant. C'est une
//! machine à états comme le cycle d'échange de l'émetteur : l'appelant
//! exécute l'action rendue et rend l'événement qui en résulte à
//! `poursuivre`.

use vstd::prelude::*;
use vstd::string::StringSliceAdditionalSpecFns;
use crate::decimal::{decimal, lemme_longueur_decimal};
use crate::emetteur::{Phase, DELAI_TOUR_MS, MAX_ESSAIS, TOURS_ATTENTE_ACK};
use crate::protocole::{octets_ack_ping, octets_ping, texte_emetteur, texte_utf8};
use crate::recepteur::{ligne_rssi, ligne_rssi_spec};
use crate::tampons::{
    octets_paquet, octets_texte32, paquet_octets, texte32_ajouter, texte32_ecrire_entier, texte32_str,
    texte32_vide,
};

verus! {

// ------------------------------------------------------------------ textes

pub open spec fn octets_essai() -> Seq<u8> {
    seq![69u8, 115, 115, 97, 105, 32, 35]
}

pub open spec fn octets_ok() -> Seq<u8> {
    seq![79u8, 75, 58]
}

pub open spec fn octets_rates() -> Seq<u8> {
    seq![32u8, 32, 82, 65, 84, 69, 83, 58]
}

pub open spec fn octets_aucun_ack() -> Seq<u8> {
    seq![65u8, 85, 67, 85, 78, 32, 65, 67, 75, 32, 33]
}

proof fn lemme_litteraux()
    ensures
        "PING ".spec_bytes() == octets_ping(),
        "ACK ".spec_bytes() == octets_ack_ping(),
        "Essai #".spec_bytes() == octets_essai(),
        "OK:".spec_bytes() == octets_ok(),
        "  RATES:".spec_bytes() == octets_rates(),
        "AUCUN ACK !".spec_bytes() == octets_aucun_ack(),
{
    broadcast use vstd::string::is_ascii_spec_bytes;

    reveal_strlit("PING ");
    reveal_strlit("ACK ");
    reveal_strlit("Essai #");
    reveal_strlit("OK:");
    reveal_strlit("  RATES:");
    reveal_strlit("AUCUN ACK !");
    assert(vstd::string::is_ascii("PING "));
    assert(vstd::string::is_ascii("ACK "));
    assert(vstd::string::is_ascii("Essai #"));
    assert(vstd::string::is_ascii("OK:"));
    assert(vstd::string::is_ascii("  RATES:"));
    assert(vstd::string::is_ascii("AUCUN ACK !"));
    assert("PING ".spec_bytes() =~= octets_ping());
    assert("ACK ".spec_bytes() =~= octets_ack_ping());
    assert("Essai #".spec_bytes() =~= octets_essai());
    assert("OK:".spec_bytes() =~= octets_ok());
    assert("  RATES:".spec_bytes() =~= octets_rates());
    assert("AUCUN ACK !".spec_bytes() =~= octets_aucun_ack());
}

/// Message d'essai numéro `n` : `PING <n>`.
pub open spec fn ping_spec(n: u32) -> Seq<u8> {
    octets_ping() + decimal(n as int)
}

/// Accusé attendu pour l'essai numéro `n` : `ACK <n>`.
pub open spec fn accuse_ping_spec(n: u32) -> Seq<u8> {
    octets_ack_ping() + decimal(n as int)
}

fn texte_numero(prefixe: &str, n: u32) -> (t: heapless::String<32>)
    requires
        prefixe.spec_bytes().len() <= 5,
    ensures
        octets_texte32(t) == prefixe.spec_bytes() + decimal(n as int),
{
    let mut t = texte32_vide();
    proof {
        lemme_longueur_decimal(n as int);
    }
    let _ = texte32_ajouter(&mut t, prefixe);
    let _ = texte32_ecrire_entier(&mut t, n as i64);
    t
}

/// Écrit le message d'essai `PING <n>`.
pub fn message_ping(n: u32) -> (m: heapless::String<32>)
    ensures
        octets_texte32(m) == ping_spec(n),
{
    proof {
        lemme_litteraux();
    }
    texte_numero("PING ", n)
}

/// Écrit l'accusé attendu `ACK <n>`.
pub fn accuse_ping(n: u32) -> (a: heapless::String<32>)
    ensures
        octets_texte32(a) == accuse_ping_spec(n),
{
    proof {
        lemme_litteraux();
    }
    texte_numero("ACK ", n)
}

/// Le texte d'un paquet (le texte vide s'il n'est pas de l'UTF-8 valide)
/// est exactement `attendu`.
pub fn texte_egal(donnees: &[u8], attendu: &[u8]) -> (b: bool)
    ensures
        b == (texte_emetteur(donnees@) == attendu@),
{
    let t: &[u8] = match texte_utf8(donnees) {
        Some(_) => donnees,
        None => {
            let vide: &[u8] = &[];
            assert(vide@ =~= Seq::<u8>::empty());
            vide
        },
    };
    assert(t@ == texte_emetteur(donnees@));
    if t.len() != attendu.len() {
        return false;
    }
    let mut i: usize = 0;
    while i < t.len()
        invariant
            t@ == texte_emetteur(donnees@),
            t@.len() == attendu@.len(),
            0 <= i <= t@.len(),
            t@.take(i as int) == attendu@.take(i as int),
        decreases t@.len() - i,
    {
        if t[i] != attendu[i] {
            assert(t@[i as int] != attendu@[i as int]);
            return false;
        }
        assert(t@.take(i + 1) =~= t@.take(i as int).push(t@[i as int]));
        assert(attendu@.take(i + 1) =~= attendu@.take(i as int).push(attendu@[i as int]));
        i = i + 1;
    }
    assert(t@ =~= t@.take(i as int));
    assert(attendu@ =~= attendu@.take(i as int));
    true
}

// ------------------------------------------------------------------ essais

/// État d'un envoi avec accusé.
#[derive(PartialEq, Eq, Structural, Clone, Copy, Debug)]
pub struct EtatPing {
    /// Numéro de l'essai en cours (de 1 à 3).
    pub essai: u32,
    /// Numéro du sondage en cours dans l'essai (de 0 à 99).
    pub tour: u32,
    pub phase: Phase,
    pub ack_recu: bool,
    /// RSSI de l'accusé reçu (0 s'il n'y en a pas eu).
    pub rssi_ack: i32,
}

/// Action demandée à l'appelant.
#[derive(PartialEq, Eq, Structural, Clone, Copy, Debug)]
pub enum ActionPing {
    /// Envoyer le message (`message()`) par radio.
    Envoyer,
    /// Passer le module radio en écoute continue.
    DemarrerEcoute,
    /// Sonder la réception une fois.
    Sonder,
    /// Attendre ce nombre de millisecondes.
    Pause(u32),
    /// Fin : accusé reçu ou non, et son RSSI.
    Terminer { ack_recu: bool, rssi_dbm: i32 },
}

/// Résultat de l'action, rendu par l'appelant.
pub enum EvenementPing {
    /// Envoi réussi ou non.
    Envoi(bool),
    /// Écoute démarrée.
    EcouteDemarree,
    /// Sonde sans paquet (rien, erreur CRC ou erreur de lecture).
    SondeVide,
    /// Sonde : un paquet reçu, avec son RSSI.
    SondePaquet(heapless::Vec<u8, 32>, i32),
    /// Pause effectuée.
    PauseFaite,
}

/// État de départ : premier essai, envoi à faire.
pub open spec fn depart_ping() -> EtatPing {
    EtatPing { essai: 1, tour: 0, phase: Phase::Envoi, ack_recu: false, rssi_ack: 0 }
}

/// Après un essai sans accusé : essai suivant s'il en reste, sinon fin sans
/// accusé.
pub open spec fn essai_suivant_ping(s: EtatPing) -> EtatPing {
    if s.essai < MAX_ESSAIS {
        EtatPing { essai: (s.essai + 1) as u32, tour: 0, phase: Phase::Envoi, ..s }
    } else {
        EtatPing { phase: Phase::Fini, ..s }
    }
}

/// L'événement répond à l'action en cours.
pub open spec fn evenement_ping_admis(s: EtatPing, e: EvenementPing) -> bool {
    match s.phase {
        Phase::Envoi => e is Envoi,
        Phase::Ecoute => e is EcouteDemarree,
        Phase::Sonde => e is SondeVide || e is SondePaquet,
        Phase::Pause => e is PauseFaite,
        Phase::Fini => false,
    }
}

/// Transition sur un événement admis : seul un paquet dont le texte est
/// exactement l'accusé attendu termine l'attente.
pub open spec fn transition_ping(attendu: Seq<u8>, s: EtatPing, e: EvenementPing) -> EtatPing {
    match e {
        EvenementPing::Envoi(reussi) => if reussi {
            EtatPing { phase: Phase::Ecoute, ..s }
        } else {
            essai_suivant_ping(s)
        },
        EvenementPing::EcouteDemarree => EtatPing { phase: Phase::Sonde, tour: 0, ..s },
        EvenementPing::SondeVide => EtatPing { phase: Phase::Pause, ..s },
        EvenementPing::SondePaquet(d, rssi) => if texte_emetteur(octets_paquet(d)) == attendu {
            EtatPing { phase: Phase::Fini, ack_recu: true, rssi_ack: rssi, ..s }
        } else {
            EtatPing { phase: Phase::Pause, ..s }
        },
        EvenementPing::PauseFaite => if s.tour + 1 < TOURS_ATTENTE_ACK {
            EtatPing { phase: Phase::Sonde, tour: (s.tour + 1) as u32, ..s }
        } else {
            essai_suivant_ping(s)
        },
    }
}

/// L'action qui correspond à un état.
pub open spec fn action_ping(s: EtatPing) -> ActionPing {
    match s.phase {
        Phase::Envoi => ActionPing::Envoyer,
        Phase::Ecoute => ActionPing::DemarrerEcoute,
        Phase::Sonde => ActionPing::Sonder,
        Phase::Pause => ActionPing::Pause(DELAI_TOUR_MS),
        Phase::Fini => ActionPing::Terminer { ack_recu: s.ack_recu, rssi_dbm: s.rssi_ack },
    }
}

/// Un envoi d'essai avec attente de l'accusé exact.
pub struct EchangePing {
    message: heapless::String<32>,
    attendu: heapless::String<32>,
    etat: EtatPing,
}

impl EchangePing {
    /// Le message envoyé.
    pub closed spec fn message_envoye(&self) -> Seq<u8> {
        octets_texte32(self.message)
    }

    /// L'accusé attendu.
    pub closed spec fn accuse_attendu(&self) -> Seq<u8> {
        octets_texte32(self.attendu)
    }

    /// L'état de l'envoi.
    pub closed spec fn etat(&self) -> EtatPing {
        self.etat
    }

    /// Envoi de `PING <n>` avec attente de `ACK <n>` ; rend la première
    /// action (envoyer).
    pub fn new(n: u32) -> (r: (Self, ActionPing))
        ensures
            r.0.message_envoye() == ping_spec(n),
            r.0.accuse_attendu() == accuse_ping_spec(n),
            r.0.etat() == depart_ping(),
            r.1 == action_ping(depart_ping()),
    {
        let message = message_ping(n);
        let attendu = accuse_ping(n);
        let etat = EtatPing { essai: 1, tour: 0, phase: Phase::Envoi, ack_recu: false, rssi_ack: 0 };
        (EchangePing { message, attendu, etat }, ActionPing::Envoyer)
    }

    /// Le message à envoyer.
    pub fn message(&self) -> (m: &heapless::String<32>)
        ensures
            octets_texte32(*m) == self.message_envoye(),
    {
        &self.message
    }

    /// Donne l'événement qui répond à l'action en cours ; rend l'action
    /// suivante.
    pub fn poursuivre(&mut self, e: EvenementPing) -> (a: ActionPing)
        requires
            evenement_ping_admis(old(self).etat(), e),
        ensures
            final(self).message_envoye() == old(self).message_envoye(),
            final(self).accuse_attendu() == old(self).accuse_attendu(),
            final(self).etat() == transition_ping(old(self).accuse_attendu(), old(self).etat(), e),
            a == action_ping(final(self).etat()),
    {
        let s = self.etat;
        let suivant = match e {
            EvenementPing::Envoi(reussi) => if reussi {
                EtatPing { phase: Phase::Ecoute, ..s }
            } else {
                essai_suivant_exec(s)
            },
            EvenementPing::EcouteDemarree => EtatPing { phase: Phase::Sonde, tour: 0, ..s },
            EvenementPing::SondeVide => EtatPing { phase: Phase::Pause, ..s },
            EvenementPing::SondePaquet(d, rssi) => {
                let attendu = texte32_str(&self.attendu).as_bytes();
                if texte_egal(paquet_octets(&d), attendu) {
                    EtatPing { phase: Phase::Fini, ack_recu: true, rssi_ack: rssi, ..s }
                } else {
                    EtatPing { phase: Phase::Pause, ..s }
                }
            },
            EvenementPing::PauseFaite => if s.tour < TOURS_ATTENTE_ACK - 1 {
                EtatPing { phase: Phase::Sonde, tour: s.tour + 1, ..s }
            } else {
                essai_suivant_exec(s)
            },
        };
        self.etat = suivant;
        action_exec(suivant)
    }
}

fn essai_suivant_exec(s: EtatPing) -> (t: EtatPing)
    ensures
        t == essai_suivant_ping(s),
{
    if s.essai < MAX_ESSAIS {
        EtatPing { essai: s.essai + 1, tour: 0, phase: Phase::Envoi, ..s }
    } else {
        EtatPing { phase: Phase::Fini, ..s }
    }
}

fn action_exec(s: EtatPing) -> (a: ActionPing)
    ensures
        a == action_ping(s),
{
    match s.phase {
        Phase::Envoi => ActionPing::Envoyer,
        Phase::Ecoute => ActionPing::DemarrerEcoute,
        Phase::Sonde => ActionPing::Sonder,
        Phase::Pause => ActionPing::Pause(DELAI_TOUR_MS),
        Phase::Fini => ActionPing::Terminer { ack_recu: s.ack_recu, rssi_dbm: s.rssi_ack },
    }
}

// ------------------------------------------------------------------ bilan

/// Bilan du test de portée : simulations faites, accusés reçus, envois
/// ratés (aucun accusé après les 3 essais).
#[derive(PartialEq, Eq, Structural, Clone, Copy, Debug)]
pub struct Bilan {
    pub simulations: u32,
    pub nb_ack: u32,
    pub nb_manques: u32,
}

/// Chaque simulation terminée est comptée une fois, reçue ou ratée.
pub open spec fn bilan_valide(b: Bilan) -> bool {
    b.nb_ack + b.nb_manques <= b.simulations
}

/// Bilan de départ : rien de fait.
pub fn bilan_initial() -> (b: Bilan)
    ensures
        b == (Bilan { simulations: 0, nb_ack: 0, nb_manques: 0 }),
{
    Bilan { simulations: 0, nb_ack: 0, nb_manques: 0 }
}

/// Début d'une simulation : son numéro est le nombre de simulations faites
/// plus un.
pub fn nouvelle_simulation(b: Bilan) -> (r: Bilan)
    requires
        bilan_valide(b),
        b.nb_ack + b.nb_manques == b.simulations,
        b.simulations < u32::MAX,
    ensures
        r == (Bilan { simulations: (b.simulations + 1) as u32, ..b }),
        bilan_valide(r),
{
    Bilan { simulations: b.simulations + 1, ..b }
}

/// Fin de la simulation en cours : un accusé reçu de plus, ou un envoi raté
/// de plus.
pub fn fin_simulation(b: Bilan, ack_recu: bool) -> (r: Bilan)
    requires
        b.nb_ack + b.nb_manques < b.simulations,
    ensures
        r.simulations == b.simulations,
        r.nb_ack == b.nb_ack + (if ack_recu { 1int } else { 0 }),
        r.nb_manques == b.nb_manques + (if ack_recu { 0int } else { 1 }),
        r.nb_ack + r.nb_manques == b.nb_ack + b.nb_manques + 1,
        bilan_valide(r),
{
    if ack_recu {
        Bilan { nb_ack: b.nb_ack + 1, ..b }
    } else {
        Bilan { nb_manques: b.nb_manques + 1, ..b }
    }
}

/// Ligne du numéro de simulation : `Essai #<n>`.
pub open spec fn ligne_essai_spec(n: u32) -> Seq<u8> {
    octets_essai() + decimal(n as int)
}

/// Écrit la ligne du numéro de simulation.
pub fn ligne_essai(n: u32) -> (l: heapless::String<32>)
    ensures
        octets_texte32(l) == ligne_essai_spec(n),
{
    let mut l = texte32_vide();
    proof {
        lemme_litteraux();
        lemme_longueur_decimal(n as int);
    }
    let _ = texte32_ajouter(&mut l, "Essai #");
    let _ = texte32_ecrire_entier(&mut l, n as i64);
    l
}

/// Ligne du bilan : `OK:<accusés>  RATES:<ratés>`.
pub open spec fn ligne_bilan_spec(b: Bilan) -> Seq<u8> {
    octets_ok() + decimal(b.nb_ack as int) + octets_rates() + decimal(b.nb_manques as int)
}

/// Écrit la ligne du bilan.
pub fn ligne_bilan(b: Bilan) -> (l: heapless::String<32>)
    ensures
        octets_texte32(l) == ligne_bilan_spec(b),
{
    let mut l = texte32_vide();
    proof {
        lemme_litteraux();
        lemme_longueur_decimal(b.nb_ack as int);
        lemme_longueur_decimal(b.nb_manques as int);
    }
    let _ = texte32_ajouter(&mut l, "OK:");
    let _ = texte32_ecrire_entier(&mut l, b.nb_ack as i64);
    let _ = texte32_ajouter(&mut l, "  RATES:");
    let _ = texte32_ecrire_entier(&mut l, b.nb_manques as i64);
    l
}

/// Ligne du résultat de la simulation : le RSSI de l'accusé, ou
/// `AUCUN ACK !`.
pub open spec fn ligne_statut_spec(ack_recu: bool, rssi_dbm: i32) -> Seq<u8> {
    if ack_recu {
        ligne_rssi_spec(rssi_dbm)
    } else {
        octets_aucun_ack()
    }
}

/// Écrit la ligne du résultat de la simulation.
pub fn ligne_statut(ack_recu: bool, rssi_dbm: i32) -> (l: heapless::String<32>)
    ensures
        octets_texte32(l) == ligne_statut_spec(ack_recu, rssi_dbm),
{
    if ack_recu {
        ligne_rssi(rssi_dbm)
    } else {
        let mut l = texte32_vide();
        proof {
            lemme_litteraux();
        }
        let _ = texte32_ajouter(&mut l, "AUCUN ACK !");
        l
    }
}

// ------------------------------------------------------------------ lois

/// États atteignables : essai entre 1 et 3, sondage entre 0 et 99 ; un
/// accusé reçu termine l'envoi ; sans accusé, pas de RSSI retenu.
pub open spec fn etat_ping_valide(s: EtatPing) -> bool {
    &&& 1 <= s.essai <= MAX_ESSAIS
    &&& s.tour < TOURS_ATTENTE_ACK
    &&& s.ack_recu ==> s.phase == Phase::Fini
    &&& !s.ack_recu ==> s.rssi_ack == 0
}

/// Nombre maximal d'événements avant la fin de l'envoi.
pub open spec fn etapes_ping(s: EtatPing) -> nat {
    let par_essai: nat = 2 + 2 * TOURS_ATTENTE_ACK as nat;
    let essais_suivants: nat = ((MAX_ESSAIS - s.essai) * par_essai) as nat;
    match s.phase {
        Phase::Envoi => essais_suivants + par_essai,
        Phase::Ecoute => essais_suivants + (par_essai - 1) as nat,
        Phase::Sonde => essais_suivants + (2 * (TOURS_ATTENTE_ACK - s.tour)) as nat,
        Phase::Pause => essais_suivants + (2 * (TOURS_ATTENTE_ACK - s.tour) - 1) as nat,
        Phase::Fini => 0,
    }
}

/// Un envoi d'essai part d'un état valide et se termine en au plus 606
/// événements (3 essais de 202 : envoi, écoute, 100 sondages, 100 pauses).
pub proof fn loi_ping_depart()
    ensures
        etat_ping_valide(depart_ping()),
        etapes_ping(depart_ping()) == 606,
{
}

/// Chaque événement admis garde l'état valide et rapproche strictement de
/// la fin de l'envoi ; l'envoi ne se termine avec un accusé que sur un
/// paquet dont le texte est exactement l'accusé attendu, dont il garde le
/// RSSI.
pub proof fn loi_ping_progresse(attendu: Seq<u8>, s: EtatPing, e: EvenementPing)
    requires
        etat_ping_valide(s),
        s.phase != Phase::Fini,
        evenement_ping_admis(s, e),
    ensures
        etat_ping_valide(transition_ping(attendu, s, e)),
        etapes_ping(transition_ping(attendu, s, e)) < etapes_ping(s),
        transition_ping(attendu, s, e).ack_recu <==> (e matches EvenementPing::SondePaquet(d, r)
            && texte_emetteur(octets_paquet(d)) == attendu),
        transition_ping(attendu, s, e).ack_recu ==> (e matches EvenementPing::SondePaquet(d, r)
            && transition_ping(attendu, s, e).rssi_ack == r),
{
    assert((MAX_ESSAIS - s.essai) * (2 + 2 * TOURS_ATTENTE_ACK) == (MAX_ESSAIS - s.essai - 1) * (2
        + 2 * TOURS_ATTENTE_ACK) + (2 + 2 * TOURS_ATTENTE_ACK)) by (nonlinear_arith);
}

} // verus!
