//! Pilote minimal du module LoRa SX127x, en mode "sondage" (pas
//! d'interruption DIO0).
//!
//! Le pilote est une machine à états : chaque opération (`init`, `envoyer`,
//! `recevoir`, ...) rend une première `Action` ; l'appelant exécute la
//! requête qu'elle porte (échange SPI, broche de reset, pause) et rend la
//! réponse à `poursuivre`, qui donne l'action suivante, jusqu'à une action
//! `Fin` qui porte le résultat de l'opération.
//!
//! Paramètres radio fixés pour que les deux cartes se comprennent :
//! BW 125 kHz, SF7, CR 4/5, en-tête explicite, CRC activé, mot de
//! synchronisation 0x12.
//!
//! Le contrat de chaque pas est le protocole lui-même : `action_prevue`
//! dit, pour une opération et la suite des réponses déjà reçues, quelle est
//! la requête suivante ou le résultat.

use vstd::prelude::*;
use crate::tampons::{
    octets_paquet, octets_trame, paquet_etendre, paquet_vide, trame_etendre, trame_octets,
    trame_pousser, trame_redimensionner, trame_vide,
};

verus! {

// Registres SX127x utilisés (adresses du datasheet Semtech).
pub const REG_FIFO: u8 = 0x00;
pub const REG_OP_MODE: u8 = 0x01;
pub const REG_FRF_MSB: u8 = 0x06;
pub const REG_PA_CONFIG: u8 = 0x09;
pub const REG_OCP: u8 = 0x0B;
pub const REG_LNA: u8 = 0x0C;
pub const REG_FIFO_ADDR_PTR: u8 = 0x0D;
pub const REG_FIFO_TX_BASE_ADDR: u8 = 0x0E;
pub const REG_FIFO_RX_BASE_ADDR: u8 = 0x0F;
pub const REG_FIFO_RX_CURRENT_ADDR: u8 = 0x10;
pub const REG_IRQ_FLAGS: u8 = 0x12;
pub const REG_RX_NB_BYTES: u8 = 0x13;
pub const REG_PKT_RSSI_VALUE: u8 = 0x1A;
pub const REG_RSSI_VALUE: u8 = 0x1B;
pub const REG_MODEM_CONFIG_1: u8 = 0x1D;
pub const REG_MODEM_CONFIG_2: u8 = 0x1E;
pub const REG_PREAMBLE_MSB: u8 = 0x20;
pub const REG_PAYLOAD_LENGTH: u8 = 0x22;
pub const REG_MODEM_CONFIG_3: u8 = 0x26;
pub const REG_SYNC_WORD: u8 = 0x39;
pub const REG_VERSION: u8 = 0x42;
pub const REG_PA_DAC: u8 = 0x4D;

/// Bit "LongRangeMode" (mode LoRa, pas FSK).
pub const MODE_LONG_RANGE: u8 = 0x80;
pub const MODE_SLEEP: u8 = 0x00;
pub const MODE_STDBY: u8 = 0x01;
pub const MODE_TX: u8 = 0x03;
pub const MODE_RX_CONTINUOUS: u8 = 0x05;

pub const IRQ_TX_DONE: u8 = 0x08;
pub const IRQ_RX_DONE: u8 = 0x40;
pub const IRQ_PAYLOAD_CRC_ERROR: u8 = 0x20;

/// Valeur du registre de version d'un SX1276/77/78/79.
pub const VERSION_SX127X: u8 = 0x12;
/// Nombre maximal de sondages de fin d'émission (200 x 10 ms = 2 s).
pub const TOURS_EMISSION: u32 = 200;
/// Pause entre deux sondages de fin d'émission, et autour du reset (ms).
pub const PAUSE_MS: u32 = 10;
/// Taille maximale des données d'un paquet lu ou écrit en une rafale.
pub const TAILLE_PAQUET: usize = 32;

// ------------------------------------------------------------------ trames

/// Trame SPI de lecture d'un registre : l'adresse avec le bit 7 à 0, puis
/// un octet qui sera remplacé par la valeur lue.
pub open spec fn trame_lecture(adresse: u8) -> Seq<u8> {
    seq![adresse & 0x7F, 0u8]
}

/// Trame SPI d'écriture d'un registre : l'adresse avec le bit 7 à 1, puis
/// la valeur.
pub open spec fn trame_ecriture(adresse: u8, valeur: u8) -> Seq<u8> {
    seq![adresse | 0x80, valeur]
}

/// Trame d'écriture en rafale : l'adresse (bit 7 à 1) puis les données,
/// qui ne sont mises que si elles tiennent dans le tampon de 33 octets.
pub open spec fn trame_ecriture_rafale(adresse: u8, d: Seq<u8>) -> Seq<u8> {
    seq![adresse | 0x80] + (if d.len() <= 32 { d } else { Seq::<u8>::empty() })
}

/// Trame de lecture en rafale de `n` octets : l'adresse (bit 7 à 0) puis
/// `n` octets à zéro, quand ils tiennent dans le tampon de 33 octets.
pub open spec fn trame_lecture_rafale(adresse: u8, n: nat) -> Seq<u8> {
    seq![adresse & 0x7F] + (if n <= 32 { Seq::new(n, |i: int| 0u8) } else { Seq::<u8>::empty() })
}

/// Puissance reçue en dBm pour une valeur brute de registre RSSI (formule
/// du datasheet pour la voie HF).
pub open spec fn rssi_dbm(brut: u8) -> int {
    -157 + brut
}

// ------------------------------------------------------------------ types

/// Trame SPI échangée en place : un registre (2 octets) ou une rafale.
pub enum Trame {
    Registre([u8; 2]),
    Rafale(heapless::Vec<u8, 33>),
}

/// Requête que l'appelant doit exécuter pour le pilote.
pub enum Requete {
    /// Échange SPI en place de la trame ; la réponse rend la trame reçue.
    Transfert(Trame),
    /// Mettre la broche de reset au niveau haut (`true`) ou bas (`false`).
    Reset(bool),
    /// Attendre ce nombre de millisecondes.
    Pause(u32),
}

/// Réponse de l'appelant à une requête.
pub enum Reponse {
    /// Trame reçue, de même forme et même longueur que la trame envoyée.
    Transfert(Trame),
    /// Reset ou pause effectués.
    Fait,
    /// Le bus SPI ou la broche de reset a rendu une erreur.
    Echec,
}

/// Résultat d'une sonde de réception, voir `Sx127x::recevoir`.
pub enum Reception {
    Rien,
    ErreurCrc,
    Paquet { donnees: heapless::Vec<u8, 32>, rssi_dbm: i32 },
}

/// Valeur rendue par une opération réussie.
pub enum Sortie {
    Fait,
    Octet(u8),
    Dbm(i32),
    Recu(Reception),
}

/// Erreur d'une opération.
#[derive(PartialEq, Eq, Structural, Clone, Copy, Debug)]
pub enum ErreurRadio {
    /// Le bus SPI ou la broche de reset a échoué.
    Bus,
    /// Le registre de version ne vaut pas 0x12 : module absent ou inconnu.
    VersionInconnue(u8),
    /// L'émission n'a jamais signalé TxDone.
    DelaiEmission,
}

/// Action suivante du pilote.
pub enum Action {
    Requete(Requete),
    Fin(Result<Sortie, ErreurRadio>),
}

// ------------------------------------------------------------------ vues

pub enum TrameVue {
    Registre(Seq<u8>),
    Rafale(Seq<u8>),
}

pub enum RequeteVue {
    Transfert(TrameVue),
    Reset(bool),
    Pause(u32),
}

pub enum ReponseVue {
    Transfert(TrameVue),
    Fait,
    Echec,
}

pub enum ReceptionVue {
    Rien,
    ErreurCrc,
    Paquet(Seq<u8>, int),
}

pub enum SortieVue {
    Fait,
    Octet(u8),
    Dbm(int),
    Recu(ReceptionVue),
}

pub enum ActionVue {
    Requete(RequeteVue),
    Fin(Result<SortieVue, ErreurRadio>),
}

impl View for Trame {
    type V = TrameVue;

    open spec fn view(&self) -> TrameVue {
        match self {
            Trame::Registre(b) => TrameVue::Registre(b@),
            Trame::Rafale(v) => TrameVue::Rafale(octets_trame(*v)),
        }
    }
}

impl View for Requete {
    type V = RequeteVue;

    open spec fn view(&self) -> RequeteVue {
        match self {
            Requete::Transfert(t) => RequeteVue::Transfert(t@),
            Requete::Reset(h) => RequeteVue::Reset(*h),
            Requete::Pause(ms) => RequeteVue::Pause(*ms),
        }
    }
}

impl View for Reponse {
    type V = ReponseVue;

    open spec fn view(&self) -> ReponseVue {
        match self {
            Reponse::Transfert(t) => ReponseVue::Transfert(t@),
            Reponse::Fait => ReponseVue::Fait,
            Reponse::Echec => ReponseVue::Echec,
        }
    }
}

impl View for Reception {
    type V = ReceptionVue;

    open spec fn view(&self) -> ReceptionVue {
        match self {
            Reception::Rien => ReceptionVue::Rien,
            Reception::ErreurCrc => ReceptionVue::ErreurCrc,
            Reception::Paquet { donnees, rssi_dbm } => ReceptionVue::Paquet(
                octets_paquet(*donnees),
                *rssi_dbm as int,
            ),
        }
    }
}

impl View for Sortie {
    type V = SortieVue;

    open spec fn view(&self) -> SortieVue {
        match self {
            Sortie::Fait => SortieVue::Fait,
            Sortie::Octet(o) => SortieVue::Octet(*o),
            Sortie::Dbm(d) => SortieVue::Dbm(*d as int),
            Sortie::Recu(r) => SortieVue::Recu(r@),
        }
    }
}

impl View for Action {
    type V = ActionVue;

    open spec fn view(&self) -> ActionVue {
        match self {
            Action::Requete(q) => ActionVue::Requete(q@),
            Action::Fin(Ok(s)) => ActionVue::Fin(Ok(s@)),
            Action::Fin(Err(e)) => ActionVue::Fin(Err(*e)),
        }
    }
}

// ------------------------------------------------------------------ protocole

/// Opération en cours, avec ses paramètres.
pub enum Commande {
    Aucune,
    Init(u32),
    Envoi(Seq<u8>),
    DemarrerEcoute,
    Recevoir,
    RssiInstantane,
    LireOpMode,
    LireVersion,
    Dormir,
}

/// Requête de lecture d'un registre.
pub open spec fn lire(adresse: u8) -> RequeteVue {
    RequeteVue::Transfert(TrameVue::Registre(trame_lecture(adresse)))
}

/// Requête d'écriture d'un registre.
pub open spec fn ecrire(adresse: u8, valeur: u8) -> RequeteVue {
    RequeteVue::Transfert(TrameVue::Registre(trame_ecriture(adresse, valeur)))
}

/// Octet lu dans la réponse à une lecture de registre.
pub open spec fn octet_lu(r: ReponseVue) -> u8 {
    match r {
        ReponseVue::Transfert(TrameVue::Registre(b)) => b[1],
        _ => 0,
    }
}

/// Octets reçus en réponse à une rafale.
pub open spec fn octets_recus(r: ReponseVue) -> Seq<u8> {
    match r {
        ReponseVue::Transfert(TrameVue::Rafale(o)) => o,
        _ => Seq::<u8>::empty(),
    }
}

/// La dernière réponse signale une erreur de bus.
pub open spec fn echec_final(h: Seq<ReponseVue>) -> bool {
    h.len() > 0 && h.last() is Echec
}

/// Valeur du registre de fréquence : Frf = f * 2^19 / 32 MHz.
pub open spec fn frf(frequence_hz: u32) -> nat {
    (frequence_hz as nat * 524288) / 32_000_000
}

/// Les requêtes de `init` : reset matériel, lecture de la version, puis
/// passage en mode LoRa et configuration radio fixe.
pub open spec fn plan_init(frequence_hz: u32) -> Seq<RequeteVue> {
    let x = frf(frequence_hz);
    seq![
        RequeteVue::Reset(false),
        RequeteVue::Pause(PAUSE_MS),
        RequeteVue::Reset(true),
        RequeteVue::Pause(PAUSE_MS),
        lire(REG_VERSION),
        ecrire(REG_OP_MODE, MODE_LONG_RANGE | MODE_SLEEP),
        RequeteVue::Pause(PAUSE_MS),
        ecrire(REG_OP_MODE, MODE_LONG_RANGE | MODE_STDBY),
        ecrire(REG_FRF_MSB, ((x / 65536) % 256) as u8),
        ecrire((REG_FRF_MSB + 1) as u8, ((x / 256) % 256) as u8),
        ecrire((REG_FRF_MSB + 2) as u8, (x % 256) as u8),
        ecrire(REG_FIFO_TX_BASE_ADDR, 0x00),
        ecrire(REG_FIFO_RX_BASE_ADDR, 0x00),
        ecrire(REG_LNA, 0x23),
        ecrire(REG_MODEM_CONFIG_1, 0x72),
        ecrire(REG_MODEM_CONFIG_2, 0x74),
        ecrire(REG_MODEM_CONFIG_3, 0x04),
        ecrire(REG_PREAMBLE_MSB, 0x00),
        ecrire((REG_PREAMBLE_MSB + 1) as u8, 0x08),
        ecrire(REG_SYNC_WORD, 0x12),
        ecrire(REG_PA_CONFIG, 0x8F),
        ecrire(REG_PA_DAC, 0x87),
        ecrire(REG_OCP, 0x20u8 | 0x11u8),
        ecrire(REG_IRQ_FLAGS, 0xFF)
    ]
}

/// Nombre de requêtes de `init`.
pub const PAS_INIT: usize = 24;

/// `init` : les requêtes du plan dans l'ordre ; arrêt sur erreur de bus,
/// ou après la lecture de version si elle ne vaut pas 0x12.
pub open spec fn action_init(frequence_hz: u32, h: Seq<ReponseVue>) -> ActionVue {
    if echec_final(h) {
        ActionVue::Fin(Err(ErreurRadio::Bus))
    } else if h.len() >= 5 && octet_lu(h[4]) != VERSION_SX127X {
        ActionVue::Fin(Err(ErreurRadio::VersionInconnue(octet_lu(h[4]))))
    } else if h.len() < PAS_INIT {
        ActionVue::Requete(plan_init(frequence_hz)[h.len() as int])
    } else {
        ActionVue::Fin(Ok(SortieVue::Fait))
    }
}

/// Les requêtes qui précèdent l'attente de fin d'émission : mode veille,
/// pointeur FIFO à 0, longueur (modulo 256), données, mode émission.
pub open spec fn debut_envoi(d: Seq<u8>) -> Seq<RequeteVue> {
    seq![
        ecrire(REG_OP_MODE, MODE_LONG_RANGE | MODE_STDBY),
        ecrire(REG_FIFO_ADDR_PTR, 0x00),
        ecrire(REG_PAYLOAD_LENGTH, (d.len() % 256) as u8),
        RequeteVue::Transfert(TrameVue::Rafale(trame_ecriture_rafale(REG_FIFO, d))),
        ecrire(REG_OP_MODE, MODE_LONG_RANGE | MODE_TX)
    ]
}

/// La réponse à une lecture des drapeaux IRQ signale TxDone.
pub open spec fn emission_finie(r: ReponseVue) -> bool {
    octet_lu(r) & IRQ_TX_DONE != 0
}

/// `envoyer` : les cinq requêtes de `debut_envoi`, puis au plus 200
/// sondages des drapeaux IRQ séparés de pauses de 10 ms ; au premier
/// TxDone, effacement des drapeaux et succès ; après 200 sondages sans
/// TxDone, erreur de délai.
pub open spec fn action_envoi(d: Seq<u8>, h: Seq<ReponseVue>) -> ActionVue {
    let n = h.len();
    if echec_final(h) {
        ActionVue::Fin(Err(ErreurRadio::Bus))
    } else if n < 5 {
        ActionVue::Requete(debut_envoi(d)[n as int])
    } else if (n - 5) % 2 == 1 {
        if emission_finie(h[n - 1]) {
            ActionVue::Requete(ecrire(REG_IRQ_FLAGS, 0xFF))
        } else {
            ActionVue::Requete(RequeteVue::Pause(PAUSE_MS))
        }
    } else if n >= 7 && emission_finie(h[n - 2]) {
        ActionVue::Fin(Ok(SortieVue::Fait))
    } else if (n - 5) / 2 >= TOURS_EMISSION {
        ActionVue::Fin(Err(ErreurRadio::DelaiEmission))
    } else {
        ActionVue::Requete(lire(REG_IRQ_FLAGS))
    }
}

/// `recevoir` : lecture des drapeaux IRQ ; rien si RxDone n'est pas levé ;
/// erreur CRC (après effacement des drapeaux) si le CRC est faux ; sinon
/// lecture du paquet à l'adresse courante de la FIFO, de sa longueur, de
/// ses données et de son RSSI, puis effacement des drapeaux.
pub open spec fn action_reception(h: Seq<ReponseVue>) -> ActionVue {
    let n = h.len();
    if n == 0 {
        ActionVue::Requete(lire(REG_IRQ_FLAGS))
    } else if echec_final(h) {
        ActionVue::Fin(Err(ErreurRadio::Bus))
    } else if octet_lu(h[0]) & IRQ_RX_DONE == 0 {
        ActionVue::Fin(Ok(SortieVue::Recu(ReceptionVue::Rien)))
    } else if octet_lu(h[0]) & IRQ_PAYLOAD_CRC_ERROR != 0 {
        if n == 1 {
            ActionVue::Requete(ecrire(REG_IRQ_FLAGS, 0xFF))
        } else {
            ActionVue::Fin(Ok(SortieVue::Recu(ReceptionVue::ErreurCrc)))
        }
    } else if n == 1 {
        ActionVue::Requete(lire(REG_FIFO_RX_CURRENT_ADDR))
    } else if n == 2 {
        ActionVue::Requete(ecrire(REG_FIFO_ADDR_PTR, octet_lu(h[1])))
    } else if n == 3 {
        ActionVue::Requete(lire(REG_RX_NB_BYTES))
    } else if n == 4 {
        ActionVue::Requete(
            RequeteVue::Transfert(
                TrameVue::Rafale(trame_lecture_rafale(REG_FIFO, octet_lu(h[3]) as nat)),
            ),
        )
    } else if n == 5 {
        ActionVue::Requete(lire(REG_PKT_RSSI_VALUE))
    } else if n == 6 {
        ActionVue::Requete(ecrire(REG_IRQ_FLAGS, 0xFF))
    } else {
        ActionVue::Fin(
            Ok(
                SortieVue::Recu(
                    ReceptionVue::Paquet(
                        octets_recus(h[4]).subrange(1, 1 + octet_lu(h[3])),
                        rssi_dbm(octet_lu(h[5])),
                    ),
                ),
            ),
        )
    }
}

/// Opération d'une seule requête : la requête, puis le résultat (ou
/// l'erreur de bus).
pub open spec fn action_unique(q: RequeteVue, s: SortieVue, h: Seq<ReponseVue>) -> ActionVue {
    if h.len() == 0 {
        ActionVue::Requete(q)
    } else if echec_final(h) {
        ActionVue::Fin(Err(ErreurRadio::Bus))
    } else {
        ActionVue::Fin(Ok(s))
    }
}

/// Ce que fait le pilote pour l'opération `c` après les réponses `h`.
pub open spec fn action_prevue(c: Commande, h: Seq<ReponseVue>) -> ActionVue {
    match c {
        Commande::Aucune => ActionVue::Fin(Ok(SortieVue::Fait)),
        Commande::Init(f) => action_init(f, h),
        Commande::Envoi(d) => action_envoi(d, h),
        Commande::DemarrerEcoute => action_unique(
            ecrire(REG_OP_MODE, MODE_LONG_RANGE | MODE_RX_CONTINUOUS),
            SortieVue::Fait,
            h,
        ),
        Commande::Recevoir => action_reception(h),
        Commande::RssiInstantane => action_unique(
            lire(REG_RSSI_VALUE),
            SortieVue::Dbm(rssi_dbm(octet_lu(h[0]))),
            h,
        ),
        Commande::LireOpMode => action_unique(
            lire(REG_OP_MODE),
            SortieVue::Octet(octet_lu(h[0])),
            h,
        ),
        Commande::LireVersion => action_unique(
            lire(REG_VERSION),
            SortieVue::Octet(octet_lu(h[0])),
            h,
        ),
        Commande::Dormir => action_unique(ecrire(REG_OP_MODE, MODE_LONG_RANGE | MODE_SLEEP), SortieVue::Fait, h),
    }
}

/// Une réponse a la forme attendue pour la requête : une trame de même
/// forme et de même longueur, ou une erreur, pour un échange SPI ; fait ou
/// erreur pour le reset ; fait pour une pause.
pub open spec fn forme_admise(q: RequeteVue, r: ReponseVue) -> bool {
    match q {
        RequeteVue::Transfert(TrameVue::Registre(o)) => match r {
            ReponseVue::Transfert(TrameVue::Registre(p)) => p.len() == 2,
            ReponseVue::Echec => true,
            _ => false,
        },
        RequeteVue::Transfert(TrameVue::Rafale(o)) => match r {
            ReponseVue::Transfert(TrameVue::Rafale(p)) => p.len() == o.len(),
            ReponseVue::Echec => true,
            _ => false,
        },
        RequeteVue::Reset(_) => r is Fait || r is Echec,
        RequeteVue::Pause(_) => r is Fait,
    }
}

/// Réponses que `poursuivre` accepte : de la forme attendue, et, pour la
/// longueur d'un paquet reçu, au plus 32 octets (le tampon de lecture n'en
/// tient pas plus).
pub open spec fn reponse_admise(c: Commande, h: Seq<ReponseVue>, r: ReponseVue) -> bool {
    &&& action_prevue(c, h) matches ActionVue::Requete(q) && forme_admise(q, r)
    &&& (c is Recevoir && h.len() == 3 && !(r is Echec)) ==> octet_lu(r) <= 32
}

// ------------------------------------------------------------------ registres

/// Les réponses `h` forment le déroulement d'une opération : chacune répond
/// à une requête du pilote, rendue avant elle.
pub open spec fn parcours(c: Commande, h: Seq<ReponseVue>) -> bool {
    forall|k: int| 0 <= k < h.len() ==> (#[trigger] action_prevue(c, h.take(k))) is Requete
}

/// Les requêtes émises pendant l'opération `c`, dans l'ordre, une par
/// réponse reçue.
pub open spec fn requetes(c: Commande, h: Seq<ReponseVue>) -> Seq<RequeteVue> {
    Seq::new(h.len(), |k: int| action_prevue(c, h.take(k))->Requete_0)
}

/// Écriture de registre que porte une requête : l'adresse (bit 7 ôté) et
/// la valeur, pour une trame de registre dont le bit 7 de l'adresse est à
/// 1 ; rien pour une lecture, une rafale, un reset ou une pause.
pub open spec fn ecriture(q: RequeteVue) -> Option<(u8, u8)> {
    match q {
        RequeteVue::Transfert(TrameVue::Registre(b)) => if b.len() == 2 && b[0] & 0x80 != 0 {
            Some((b[0] & 0x7F, b[1]))
        } else {
            None
        },
        _ => None,
    }
}

/// Modèle des registres de la puce : la dernière valeur écrite au registre
/// `adresse` par la suite de requêtes `qs`, s'il y en a une.
pub open spec fn valeur_registre(qs: Seq<RequeteVue>, adresse: u8) -> Option<u8>
    decreases qs.len(),
{
    if qs.len() == 0 {
        None
    } else {
        match ecriture(qs.last()) {
            Some(w) => if w.0 == adresse {
                Some(w.1)
            } else {
                valeur_registre(qs.drop_last(), adresse)
            },
            None => valeur_registre(qs.drop_last(), adresse),
        }
    }
}

// ------------------------------------------------------------------ pilote

/// Forme de la réponse attendue à la requête en cours.
pub enum Forme {
    Registre,
    Rafale(usize),
    Reset,
    Pause,
}

/// La forme décrit bien les réponses admises pour la requête `q`.
pub open spec fn forme_de(f: Forme, q: RequeteVue) -> bool {
    match f {
        Forme::Registre => q matches RequeteVue::Transfert(TrameVue::Registre(o)) && o.len() == 2,
        Forme::Rafale(n) => q matches RequeteVue::Transfert(TrameVue::Rafale(o)) && o.len() == n,
        Forme::Reset => q is Reset,
        Forme::Pause => q is Pause,
    }
}

enum Unique {
    Ecoute,
    Sommeil,
    OpMode,
    Version,
    Rssi,
}

enum Etat {
    Repos,
    Init { frequence_hz: u32, n: usize },
    EnvoiDebut { rafale: heapless::Vec<u8, 33>, longueur: u8, n: usize },
    EnvoiSuite { longueur_rafale: usize, n: usize, efface: bool },
    Reception { n: usize, irq: u8, longueur: u8, donnees: heapless::Vec<u8, 32>, rssi: u8 },
    Unique { quoi: Unique },
}

/// Le pilote : l'opération en cours et son avancement.
pub struct Sx127x {
    etat: Etat,
    commande: Ghost<Commande>,
    historique: Ghost<Seq<ReponseVue>>,
}

spec fn commande_unique(u: Unique) -> Commande {
    match u {
        Unique::Ecoute => Commande::DemarrerEcoute,
        Unique::Sommeil => Commande::Dormir,
        Unique::OpMode => Commande::LireOpMode,
        Unique::Version => Commande::LireVersion,
        Unique::Rssi => Commande::RssiInstantane,
    }
}

spec fn etat_coherent(e: Etat, c: Commande, h: Seq<ReponseVue>) -> bool {
    match e {
        Etat::Repos => action_prevue(c, h) is Fin,
        Etat::Init { frequence_hz, n } => {
            &&& c == Commande::Init(frequence_hz)
            &&& n == h.len()
            &&& action_prevue(c, h) is Requete
        },
        Etat::EnvoiDebut { rafale, longueur, n } => {
            &&& c is Envoi
            &&& n == h.len()
            &&& n <= 2
            &&& !echec_final(h)
            &&& octets_trame(rafale) == trame_ecriture_rafale(REG_FIFO, c->Envoi_0)
            &&& longueur == (c->Envoi_0.len() % 256) as u8
        },
        Etat::EnvoiSuite { longueur_rafale, n, efface } => {
            &&& c is Envoi
            &&& n == h.len()
            &&& 3 <= n
            &&& longueur_rafale == trame_ecriture_rafale(REG_FIFO, c->Envoi_0).len()
            &&& action_prevue(c, h) is Requete
            &&& (n >= 5 && (n - 5) % 2 == 1 ==> efface == emission_finie(h[n - 1]))
        },
        Etat::Reception { n, irq, longueur, donnees, rssi } => {
            &&& c is Recevoir
            &&& n == h.len()
            &&& action_prevue(c, h) is Requete
            &&& (n >= 1 ==> irq == octet_lu(h[0]))
            &&& (n >= 4 ==> longueur == octet_lu(h[3]) && longueur <= 32)
            &&& (n >= 5 ==> octets_paquet(donnees) == octets_recus(h[4]).subrange(1, 1 + longueur))
            &&& (n >= 6 ==> rssi == octet_lu(h[5]))
        },
        Etat::Unique { quoi } => c == commande_unique(quoi) && h.len() == 0,
    }
}

fn requete_lire(adresse: u8) -> (q: Requete)
    ensures
        q@ == lire(adresse),
{
    let t: [u8; 2] = [adresse & 0x7F, 0];
    assert(t@ =~= trame_lecture(adresse));
    Requete::Transfert(Trame::Registre(t))
}

fn requete_ecrire(adresse: u8, valeur: u8) -> (q: Requete)
    ensures
        q@ == ecrire(adresse, valeur),
{
    let t: [u8; 2] = [adresse | 0x80, valeur];
    assert(t@ =~= trame_ecriture(adresse, valeur));
    Requete::Transfert(Trame::Registre(t))
}

fn octet(r: &Reponse) -> (o: u8)
    ensures
        o == octet_lu(r@),
{
    match r {
        Reponse::Transfert(Trame::Registre(b)) => b[1],
        _ => 0,
    }
}

fn est_echec(r: &Reponse) -> (b: bool)
    ensures
        b == (r@ is Echec),
{
    match r {
        Reponse::Echec => true,
        _ => false,
    }
}

/// Les octets du registre de fréquence, du plus fort au plus faible.
fn octets_frf(frequence_hz: u32) -> (o: (u8, u8, u8))
    ensures
        o.0 == ((frf(frequence_hz) / 65536) % 256) as u8,
        o.1 == ((frf(frequence_hz) / 256) % 256) as u8,
        o.2 == (frf(frequence_hz) % 256) as u8,
{
    let f: u64 = frequence_hz as u64;
    assert(f * 524288 <= 0xffff_ffff * 524288) by (nonlinear_arith)
        requires f <= 0xffff_ffff;
    let x: u64 = f * 524288 / 32_000_000;
    (((x / 65536) % 256) as u8, ((x / 256) % 256) as u8, (x % 256) as u8)
}

/// Requête numéro `i` du plan d'initialisation.
fn requete_init(frequence_hz: u32, i: usize) -> (q: Requete)
    requires
        i < PAS_INIT,
    ensures
        q@ == plan_init(frequence_hz)[i as int],
{
    let ghost p = plan_init(frequence_hz);
    match i {
        0 => Requete::Reset(false),
        1 => Requete::Pause(PAUSE_MS),
        2 => Requete::Reset(true),
        3 => Requete::Pause(PAUSE_MS),
        4 => requete_lire(REG_VERSION),
        5 => requete_ecrire(REG_OP_MODE, MODE_LONG_RANGE | MODE_SLEEP),
        6 => Requete::Pause(PAUSE_MS),
        7 => requete_ecrire(REG_OP_MODE, MODE_LONG_RANGE | MODE_STDBY),
        8 => {
            let o = octets_frf(frequence_hz);
            requete_ecrire(REG_FRF_MSB, o.0)
        },
        9 => {
            let o = octets_frf(frequence_hz);
            requete_ecrire(REG_FRF_MSB + 1, o.1)
        },
        10 => {
            let o = octets_frf(frequence_hz);
            requete_ecrire(REG_FRF_MSB + 2, o.2)
        },
        11 => requete_ecrire(REG_FIFO_TX_BASE_ADDR, 0x00),
        12 => requete_ecrire(REG_FIFO_RX_BASE_ADDR, 0x00),
        13 => requete_ecrire(REG_LNA, 0x23),
        14 => requete_ecrire(REG_MODEM_CONFIG_1, 0x72),
        15 => requete_ecrire(REG_MODEM_CONFIG_2, 0x74),
        16 => requete_ecrire(REG_MODEM_CONFIG_3, 0x04),
        17 => requete_ecrire(REG_PREAMBLE_MSB, 0x00),
        18 => requete_ecrire(REG_PREAMBLE_MSB + 1, 0x08),
        19 => requete_ecrire(REG_SYNC_WORD, 0x12),
        20 => requete_ecrire(REG_PA_CONFIG, 0x8F),
        21 => requete_ecrire(REG_PA_DAC, 0x87),
        22 => requete_ecrire(REG_OCP, 0x20 | 0x11),
        _ => requete_ecrire(REG_IRQ_FLAGS, 0xFF),
    }
}

/// Pas de `init` après la réponse `r` (dernière de `h`).
fn pas_init(frequence_hz: u32, n: usize, r: &Reponse, Ghost(h): Ghost<Seq<ReponseVue>>) -> (res: (Etat, Action))
    requires
        h.len() == n + 1,
        h.last() == r@,
        action_prevue(Commande::Init(frequence_hz), h.drop_last()) is Requete,
    ensures
        etat_coherent(res.0, Commande::Init(frequence_hz), h),
        res.1@ == action_prevue(Commande::Init(frequence_hz), h),
{
    let n1 = n + 1;
    if est_echec(r) {
        return (Etat::Repos, Action::Fin(Err(ErreurRadio::Bus)));
    }
    if n1 == 5 {
        let v = octet(r);
        if v != VERSION_SX127X {
            return (Etat::Repos, Action::Fin(Err(ErreurRadio::VersionInconnue(v))));
        }
    }
    if n1 > 5 {
        assert(h.drop_last()[4] == h[4]);
    }
    if n1 < PAS_INIT {
        (Etat::Init { frequence_hz, n: n1 }, Action::Requete(requete_init(frequence_hz, n1)))
    } else {
        (Etat::Repos, Action::Fin(Ok(Sortie::Fait)))
    }
}

/// Pas de `envoyer` avant l'envoi des données, après la réponse `r`.
fn pas_envoi_debut(
    rafale: heapless::Vec<u8, 33>,
    longueur: u8,
    n: usize,
    r: &Reponse,
    Ghost(d): Ghost<Seq<u8>>,
    Ghost(h): Ghost<Seq<ReponseVue>>,
) -> (res: (Etat, Action))
    requires
        h.len() == n + 1,
        h.last() == r@,
        n <= 2,
        octets_trame(rafale) == trame_ecriture_rafale(REG_FIFO, d),
        longueur == (d.len() % 256) as u8,
    ensures
        etat_coherent(res.0, Commande::Envoi(d), h),
        res.1@ == action_prevue(Commande::Envoi(d), h),
{
    let n1 = n + 1;
    if est_echec(r) {
        return (Etat::Repos, Action::Fin(Err(ErreurRadio::Bus)));
    }
    if n1 == 1 {
        (Etat::EnvoiDebut { rafale, longueur, n: n1 }, Action::Requete(requete_ecrire(REG_FIFO_ADDR_PTR, 0x00)))
    } else if n1 == 2 {
        (Etat::EnvoiDebut { rafale, longueur, n: n1 }, Action::Requete(requete_ecrire(REG_PAYLOAD_LENGTH, longueur)))
    } else {
        let longueur_rafale = trame_octets(&rafale).len();
        (
            Etat::EnvoiSuite { longueur_rafale, n: n1, efface: false },
            Action::Requete(Requete::Transfert(Trame::Rafale(rafale))),
        )
    }
}

/// Pas de `envoyer` après l'envoi des données, après la réponse `r`.
fn pas_envoi_suite(
    longueur_rafale: usize,
    n: usize,
    efface: bool,
    r: &Reponse,
    Ghost(d): Ghost<Seq<u8>>,
    Ghost(h): Ghost<Seq<ReponseVue>>,
) -> (res: (Etat, Action))
    requires
        h.len() == n + 1,
        h.last() == r@,
        3 <= n,
        longueur_rafale == trame_ecriture_rafale(REG_FIFO, d).len(),
        action_prevue(Commande::Envoi(d), h.drop_last()) is Requete,
        n >= 5 && (n - 5) % 2 == 1 ==> efface == emission_finie(h[n - 1]),
    ensures
        etat_coherent(res.0, Commande::Envoi(d), h),
        res.1@ == action_prevue(Commande::Envoi(d), h),
{
    let n1 = n + 1;
    if est_echec(r) {
        return (Etat::Repos, Action::Fin(Err(ErreurRadio::Bus)));
    }
    if n1 == 4 {
        return (
            Etat::EnvoiSuite { longueur_rafale, n: n1, efface },
            Action::Requete(requete_ecrire(REG_OP_MODE, MODE_LONG_RANGE | MODE_TX)),
        );
    }
    let m = n1 - 5;
    if m % 2 == 1 {
        let fini = octet(r) & IRQ_TX_DONE != 0;
        if fini {
            (Etat::EnvoiSuite { longueur_rafale, n: n1, efface: true }, Action::Requete(requete_ecrire(REG_IRQ_FLAGS, 0xFF)))
        } else {
            (Etat::EnvoiSuite { longueur_rafale, n: n1, efface: false }, Action::Requete(Requete::Pause(PAUSE_MS)))
        }
    } else {
        assert(n1 >= 7 ==> h[n1 - 2] == h.drop_last()[n - 1]);
        if n1 >= 7 && efface {
            (Etat::Repos, Action::Fin(Ok(Sortie::Fait)))
        } else if m / 2 >= TOURS_EMISSION as usize {
            (Etat::Repos, Action::Fin(Err(ErreurRadio::DelaiEmission)))
        } else {
            (Etat::EnvoiSuite { longueur_rafale, n: n1, efface: false }, Action::Requete(requete_lire(REG_IRQ_FLAGS)))
        }
    }
}

/// Pas de `recevoir` après la réponse `r`.
fn pas_reception(
    n: usize,
    irq: u8,
    longueur: u8,
    donnees: heapless::Vec<u8, 32>,
    rssi: u8,
    r: &Reponse,
    Ghost(h): Ghost<Seq<ReponseVue>>,
) -> (res: (Etat, Action))
    requires
        h.len() == n + 1,
        h.last() == r@,
        etat_coherent(
            Etat::Reception { n, irq, longueur, donnees, rssi },
            Commande::Recevoir,
            h.drop_last(),
        ),
        reponse_admise(Commande::Recevoir, h.drop_last(), r@),
    ensures
        etat_coherent(res.0, Commande::Recevoir, h),
        res.1@ == action_prevue(Commande::Recevoir, h),
{
    let ghost h0 = h.drop_last();
    let n1 = n + 1;
    if est_echec(r) {
        return (Etat::Repos, Action::Fin(Err(ErreurRadio::Bus)));
    }
    if n1 >= 2 {
        assert(h[0] == h0[0]);
    }
    if n1 >= 5 {
        assert(h[3] == h0[3]);
    }
    if n1 >= 6 {
        assert(h[4] == h0[4]);
    }
    if n1 >= 7 {
        assert(h[5] == h0[5]);
    }
    if n1 == 1 {
        let irq = octet(r);
        if irq & IRQ_RX_DONE == 0 {
            (Etat::Repos, Action::Fin(Ok(Sortie::Recu(Reception::Rien))))
        } else if irq & IRQ_PAYLOAD_CRC_ERROR != 0 {
            (Etat::Reception { n: n1, irq, longueur, donnees, rssi }, Action::Requete(requete_ecrire(REG_IRQ_FLAGS, 0xFF)))
        } else {
            (Etat::Reception { n: n1, irq, longueur, donnees, rssi }, Action::Requete(requete_lire(REG_FIFO_RX_CURRENT_ADDR)))
        }
    } else if n1 == 2 {
        if irq & IRQ_PAYLOAD_CRC_ERROR != 0 {
            (Etat::Repos, Action::Fin(Ok(Sortie::Recu(Reception::ErreurCrc))))
        } else {
            let adresse = octet(r);
            (Etat::Reception { n: n1, irq, longueur, donnees, rssi }, Action::Requete(requete_ecrire(REG_FIFO_ADDR_PTR, adresse)))
        }
    } else if n1 == 3 {
        (Etat::Reception { n: n1, irq, longueur, donnees, rssi }, Action::Requete(requete_lire(REG_RX_NB_BYTES)))
    } else if n1 == 4 {
        let longueur = octet(r);
        let mut t = trame_vide();
        let _ = trame_pousser(&mut t, REG_FIFO & 0x7F);
        let _ = trame_redimensionner(&mut t, 1 + longueur as usize, 0);
        assert(octets_trame(t) =~= trame_lecture_rafale(REG_FIFO, longueur as nat));
        (Etat::Reception { n: n1, irq, longueur, donnees, rssi }, Action::Requete(Requete::Transfert(Trame::Rafale(t))))
    } else if n1 == 5 {
        let mut donnees = paquet_vide();
        match r {
            Reponse::Transfert(Trame::Rafale(w)) => {
                let o = trame_octets(w);
                let morceau = vstd::slice::slice_subrange(o, 1, 1 + longueur as usize);
                let _ = paquet_etendre(&mut donnees, morceau);
                assert(octets_paquet(donnees) =~= octets_recus(h[4]).subrange(1, 1 + longueur));
            },
            _ => {},
        }
        (Etat::Reception { n: n1, irq, longueur, donnees, rssi }, Action::Requete(requete_lire(REG_PKT_RSSI_VALUE)))
    } else if n1 == 6 {
        let rssi = octet(r);
        (Etat::Reception { n: n1, irq, longueur, donnees, rssi }, Action::Requete(requete_ecrire(REG_IRQ_FLAGS, 0xFF)))
    } else {
        let dbm: i32 = -157 + rssi as i32;
        (Etat::Repos, Action::Fin(Ok(Sortie::Recu(Reception::Paquet { donnees, rssi_dbm: dbm }))))
    }
}

/// Pas d'une opération d'une seule requête, après la réponse `r`.
fn pas_unique(quoi: Unique, r: &Reponse, Ghost(h): Ghost<Seq<ReponseVue>>) -> (res: (Etat, Action))
    requires
        h.len() == 1,
        h.last() == r@,
    ensures
        etat_coherent(res.0, commande_unique(quoi), h),
        res.1@ == action_prevue(commande_unique(quoi), h),
{
    if est_echec(r) {
        return (Etat::Repos, Action::Fin(Err(ErreurRadio::Bus)));
    }
    assert(h[0] == r@);
    let o = octet(r);
    let sortie = match quoi {
        Unique::Ecoute => Sortie::Fait,
        Unique::Sommeil => Sortie::Fait,
        Unique::OpMode => Sortie::Octet(o),
        Unique::Version => Sortie::Octet(o),
        Unique::Rssi => Sortie::Dbm(-157 + o as i32),
    };
    (Etat::Repos, Action::Fin(Ok(sortie)))
}

impl Sx127x {
    /// Les opérations en cours et terminées, vues comme une commande et la
    /// suite des réponses reçues depuis son début.
    pub closed spec fn commande(&self) -> Commande {
        self.commande@
    }

    pub closed spec fn historique(&self) -> Seq<ReponseVue> {
        self.historique@
    }

    /// Cohérence interne du pilote.
    pub closed spec fn bien_forme(&self) -> bool {
        &&& etat_coherent(self.etat, self.commande@, self.historique@)
        &&& parcours(self.commande@, self.historique@)
    }

    /// Les réponses reçues répondent chacune à une requête du pilote.
    pub proof fn lemme_parcours(&self)
        requires
            self.bien_forme(),
        ensures
            parcours(self.commande(), self.historique()),
    {
    }

    /// Une requête attend sa réponse.
    pub open spec fn en_cours(&self) -> bool {
        action_prevue(self.commande(), self.historique()) is Requete
    }

    /// Un pilote sans opération en cours.
    pub fn new() -> (s: Self)
        ensures
            s.bien_forme(),
            s.commande() == Commande::Aucune,
            s.historique() == Seq::<ReponseVue>::empty(),
            !s.en_cours(),
    {
        Sx127x { etat: Etat::Repos, commande: Ghost(Commande::Aucune), historique: Ghost(Seq::empty()) }
    }

    /// Vrai tant que la dernière action rendue est une requête.
    pub fn attend_reponse(&self) -> (b: bool)
        requires
            self.bien_forme(),
        ensures
            b == self.en_cours(),
    {
        match &self.etat {
            Etat::Repos => false,
            _ => true,
        }
    }

    /// Initialise le module : reset matériel, vérification de présence
    /// (registre de version = 0x12), puis configuration radio fixe.
    pub fn init(&mut self, frequence_hz: u32) -> (a: Action)
        ensures
            final(self).bien_forme(),
            final(self).commande() == Commande::Init(frequence_hz),
            final(self).historique() == Seq::<ReponseVue>::empty(),
            a@ == action_prevue(final(self).commande(), final(self).historique()),
    {
        *self = Sx127x {
            etat: Etat::Init { frequence_hz, n: 0 },
            commande: Ghost(Commande::Init(frequence_hz)),
            historique: Ghost(Seq::empty()),
        };
        Action::Requete(Requete::Reset(false))
    }
    /// Émission : écrit les données dans la FIFO, passe en émission, puis
    /// attend TxDone (au plus 200 sondages espacés de 10 ms).
    pub fn envoyer(&mut self, donnees: &[u8]) -> (a: Action)
        ensures
            final(self).bien_forme(),
            final(self).commande() == Commande::Envoi(donnees@),
            final(self).historique() == Seq::<ReponseVue>::empty(),
            a@ == action_prevue(final(self).commande(), final(self).historique()),
    {
        let mut rafale = trame_vide();
        let _ = trame_pousser(&mut rafale, REG_FIFO | 0x80);
        let _ = trame_etendre(&mut rafale, donnees);
        assert(octets_trame(rafale) =~= trame_ecriture_rafale(REG_FIFO, donnees@));
        let longueur: u8 = (donnees.len() % 256) as u8;
        *self = Sx127x {
            etat: Etat::EnvoiDebut { rafale, longueur, n: 0 },
            commande: Ghost(Commande::Envoi(donnees@)),
            historique: Ghost(Seq::empty()),
        };
        Action::Requete(requete_ecrire(REG_OP_MODE, MODE_LONG_RANGE | MODE_STDBY))
    }

    /// Passe en écoute continue (à lancer une fois avant de sonder avec
    /// `recevoir`).
    pub fn demarrer_ecoute(&mut self) -> (a: Action)
        ensures
            final(self).bien_forme(),
            final(self).commande() == Commande::DemarrerEcoute,
            final(self).historique() == Seq::<ReponseVue>::empty(),
            a@ == action_prevue(final(self).commande(), final(self).historique()),
    {
        *self = Sx127x {
            etat: Etat::Unique { quoi: Unique::Ecoute },
            commande: Ghost(Commande::DemarrerEcoute),
            historique: Ghost(Seq::empty()),
        };
        Action::Requete(requete_ecrire(REG_OP_MODE, MODE_LONG_RANGE | MODE_RX_CONTINUOUS))
    }

    /// Sonde non bloquante de réception : distingue "rien", "paquet avec
    /// erreur CRC" et "paquet reçu" (données et RSSI).
    pub fn recevoir(&mut self) -> (a: Action)
        ensures
            final(self).bien_forme(),
            final(self).commande() == Commande::Recevoir,
            final(self).historique() == Seq::<ReponseVue>::empty(),
            a@ == action_prevue(final(self).commande(), final(self).historique()),
    {
        *self = Sx127x {
            etat: Etat::Reception { n: 0, irq: 0, longueur: 0, donnees: paquet_vide(), rssi: 0 },
            commande: Ghost(Commande::Recevoir),
            historique: Ghost(Seq::empty()),
        };
        Action::Requete(requete_lire(REG_IRQ_FLAGS))
    }

    /// RSSI instantané du canal (bruit ambiant), en dBm.
    pub fn rssi_instantane(&mut self) -> (a: Action)
        ensures
            final(self).bien_forme(),
            final(self).commande() == Commande::RssiInstantane,
            final(self).historique() == Seq::<ReponseVue>::empty(),
            a@ == action_prevue(final(self).commande(), final(self).historique()),
    {
        *self = Sx127x {
            etat: Etat::Unique { quoi: Unique::Rssi },
            commande: Ghost(Commande::RssiInstantane),
            historique: Ghost(Seq::empty()),
        };
        Action::Requete(requete_lire(REG_RSSI_VALUE))
    }

    /// Relit le registre RegOpMode tel qu'il est sur la puce.
    pub fn lire_op_mode(&mut self) -> (a: Action)
        ensures
            final(self).bien_forme(),
            final(self).commande() == Commande::LireOpMode,
            final(self).historique() == Seq::<ReponseVue>::empty(),
            a@ == action_prevue(final(self).commande(), final(self).historique()),
    {
        *self = Sx127x {
            etat: Etat::Unique { quoi: Unique::OpMode },
            commande: Ghost(Commande::LireOpMode),
            historique: Ghost(Seq::empty()),
        };
        Action::Requete(requete_lire(REG_OP_MODE))
    }

    /// Lit le registre de version (0x12 pour un SX1276/77/78/79), sans
    /// reset ni configuration : vérifie seulement le câblage SPI.
    pub fn lire_version(&mut self) -> (a: Action)
        ensures
            final(self).bien_forme(),
            final(self).commande() == Commande::LireVersion,
            final(self).historique() == Seq::<ReponseVue>::empty(),
            a@ == action_prevue(final(self).commande(), final(self).historique()),
    {
        *self = Sx127x {
            etat: Etat::Unique { quoi: Unique::Version },
            commande: Ghost(Commande::LireVersion),
            historique: Ghost(Seq::empty()),
        };
        Action::Requete(requete_lire(REG_VERSION))
    }

    /// Passe la puce radio en mode SLEEP.
    pub fn dormir(&mut self) -> (a: Action)
        ensures
            final(self).bien_forme(),
            final(self).commande() == Commande::Dormir,
            final(self).historique() == Seq::<ReponseVue>::empty(),
            a@ == action_prevue(final(self).commande(), final(self).historique()),
    {
        *self = Sx127x {
            etat: Etat::Unique { quoi: Unique::Sommeil },
            commande: Ghost(Commande::Dormir),
            historique: Ghost(Seq::empty()),
        };
        Action::Requete(requete_ecrire(REG_OP_MODE, MODE_LONG_RANGE | MODE_SLEEP))
    }

    /// Forme de la réponse attendue à la requête en cours.
    pub fn forme_attendue(&self) -> (f: Forme)
        requires
            self.bien_forme(),
            self.en_cours(),
        ensures
            action_prevue(self.commande(), self.historique()) matches ActionVue::Requete(q)
                && forme_de(f, q),
    {
        match &self.etat {
            Etat::Repos => Forme::Pause,
            Etat::Init { frequence_hz, n } => {
                if *n == 0 || *n == 2 {
                    Forme::Reset
                } else if *n == 1 || *n == 3 || *n == 6 {
                    Forme::Pause
                } else {
                    Forme::Registre
                }
            },
            Etat::EnvoiDebut { .. } => Forme::Registre,
            Etat::EnvoiSuite { longueur_rafale, n, efface } => {
                if *n == 3 {
                    Forme::Rafale(*longueur_rafale)
                } else if *n >= 5 && (*n - 5) % 2 == 1 && !*efface {
                    Forme::Pause
                } else {
                    Forme::Registre
                }
            },
            Etat::Reception { n, irq, longueur, donnees, rssi } => {
                if *n == 4 {
                    Forme::Rafale(1 + *longueur as usize)
                } else {
                    Forme::Registre
                }
            },
            Etat::Unique { quoi } => Forme::Registre,
        }
    }

    /// La réponse est admise par `poursuivre` (voir `reponse_admise`).
    pub fn accepte(&self, r: &Reponse) -> (b: bool)
        requires
            self.bien_forme(),
            self.en_cours(),
        ensures
            b == reponse_admise(self.commande(), self.historique(), r@),
    {
        let f = self.forme_attendue();
        let forme_ok = match (f, r) {
            (Forme::Registre, Reponse::Transfert(Trame::Registre(p))) => true,
            (Forme::Rafale(n), Reponse::Transfert(Trame::Rafale(w))) => trame_octets(w).len() == n,
            (Forme::Reset, Reponse::Fait) => true,
            (Forme::Pause, Reponse::Fait) => true,
            (Forme::Registre, Reponse::Echec) => true,
            (Forme::Rafale(_), Reponse::Echec) => true,
            (Forme::Reset, Reponse::Echec) => true,
            _ => false,
        };
        let taille_ok = match &self.etat {
            Etat::Reception { n, irq, longueur, donnees, rssi } => *n != 3 || est_echec(r) || octet(r) <= 32,
            _ => true,
        };
        forme_ok && taille_ok
    }

    /// Donne au pilote la réponse à la requête en cours et rend l'action
    /// suivante.
    pub fn poursuivre(&mut self, reponse: Reponse) -> (a: Action)
        requires
            old(self).bien_forme(),
            old(self).en_cours(),
            reponse_admise(old(self).commande(), old(self).historique(), reponse@),
        ensures
            final(self).bien_forme(),
            final(self).commande() == old(self).commande(),
            final(self).historique() == old(self).historique().push(reponse@),
            a@ == action_prevue(final(self).commande(), final(self).historique()),
    {
        let ghost c = self.commande@;
        let ghost h = self.historique@.push(reponse@);
        assert(h.drop_last() =~= self.historique@);
        assert forall|k: int| 0 <= k < h.len() implies (#[trigger] action_prevue(c, h.take(k))) is Requete by {
            if k < h.len() - 1 {
                assert(h.take(k) =~= self.historique@.take(k));
            } else {
                assert(h.take(k) =~= self.historique@);
            }
        }
        let mut etat = Etat::Repos;
        core::mem::swap(&mut etat, &mut self.etat);
        let (suivant, action) = match etat {
            Etat::Repos => {
                assert(false);
                (Etat::Repos, Action::Fin(Ok(Sortie::Fait)))
            },
            Etat::Init { frequence_hz, n } => pas_init(frequence_hz, n, &reponse, Ghost(h)),
            Etat::EnvoiDebut { rafale, longueur, n } => pas_envoi_debut(
                rafale,
                longueur,
                n,
                &reponse,
                Ghost(c->Envoi_0),
                Ghost(h),
            ),
            Etat::EnvoiSuite { longueur_rafale, n, efface } => pas_envoi_suite(
                longueur_rafale,
                n,
                efface,
                &reponse,
                Ghost(c->Envoi_0),
                Ghost(h),
            ),
            Etat::Reception { n, irq, longueur, donnees, rssi } => pas_reception(
                n,
                irq,
                longueur,
                donnees,
                rssi,
                &reponse,
                Ghost(h),
            ),
            Etat::Unique { quoi } => pas_unique(quoi, &reponse, Ghost(h)),
        };
        self.etat = suivant;
        self.historique = Ghost(h);
        action
    }
}

// ------------------------------------------------------------------ lois

/// Nombre de réponses après lequel une opération est forcément terminée.
pub open spec fn reponses_max(c: Commande) -> nat {
    match c {
        Commande::Aucune => 0,
        Commande::Init(_) => PAS_INIT as nat,
        Commande::Envoi(_) => 5 + 2 * TOURS_EMISSION as nat,
        Commande::Recevoir => 7,
        _ => 1,
    }
}

/// Toute opération se termine en un nombre borné d'échanges, quelles que
/// soient les réponses du module : 24 pour `init`, 405 pour `envoyer`
/// (au plus 200 sondages de fin d'émission), 7 pour `recevoir`, 1 pour les
/// autres.
pub proof fn loi_operations_bornees(c: Commande, h: Seq<ReponseVue>)
    requires
        h.len() == reponses_max(c),
    ensures
        action_prevue(c, h) is Fin,
{
}

/// `envoyer` ne réussit qu'après un sondage où le module a signalé
/// TxDone, suivi de l'effacement des drapeaux.
pub proof fn loi_envoi_reussi(d: Seq<u8>, h: Seq<ReponseVue>)
    requires
        action_prevue(Commande::Envoi(d), h) == ActionVue::Fin(Ok::<SortieVue, ErreurRadio>(SortieVue::Fait)),
    ensures
        h.len() >= 7,
        (h.len() - 5) % 2 == 0,
        emission_finie(h[h.len() - 2]),
        action_prevue(Commande::Envoi(d), h.take(h.len() - 1)) == ActionVue::Requete(
            ecrire(REG_IRQ_FLAGS, 0xFF),
        ),
{
    let n = h.len();
    let h1 = h.take(n - 1);
    assert(h1.len() == n - 1);
    assert(h1[n - 2] == h[n - 2]);
    assert(h1.last() == h[n - 2]);
    assert(0u8 & IRQ_TX_DONE == 0) by (bit_vector);
    assert(!echec_final(h1));
    assert((h1.len() - 5) % 2 == 1);
    assert(emission_finie(h1[h1.len() - 1]));
}

/// `init` s'arrête sur `VersionInconnue(v)` exactement quand le registre de
/// version lu vaut `v` différent de 0x12 ; sinon il poursuit la
/// configuration.
pub proof fn loi_init_version(f: u32, h: Seq<ReponseVue>)
    requires
        h.len() == 5,
        !echec_final(h),
    ensures
        octet_lu(h[4]) != VERSION_SX127X ==> action_prevue(Commande::Init(f), h)
            == ActionVue::Fin(Err::<SortieVue, ErreurRadio>(ErreurRadio::VersionInconnue(octet_lu(h[4])))),
        octet_lu(h[4]) == VERSION_SX127X ==> action_prevue(Commande::Init(f), h)
            == ActionVue::Requete(ecrire(REG_OP_MODE, MODE_LONG_RANGE | MODE_SLEEP)),
{
}

/// Une trame de lecture porte l'adresse avec le bit 7 à 0, une trame
/// d'écriture l'adresse avec le bit 7 à 1 : pour une adresse de registre
/// (moins de 0x80), la lecture envoie l'adresse telle quelle et l'écriture
/// l'adresse plus 0x80.
pub proof fn loi_bit_ecriture(adresse: u8, valeur: u8)
    requires
        adresse < 0x80,
    ensures
        trame_lecture(adresse)[0] == adresse,
        trame_ecriture(adresse, valeur)[0] == adresse + 0x80,
        trame_ecriture(adresse, valeur)[1] == valeur,
{
    assert(adresse & 0x7F == adresse) by (bit_vector)
        requires adresse < 0x80;
    assert(adresse | 0x80 == adresse + 0x80) by (bit_vector)
        requires adresse < 0x80;
}

/// Pour une fréquence sous 1,024 GHz, les trois octets écrits dans les
/// registres de fréquence recomposent Frf = f * 2^19 / 32 MHz.
pub proof fn loi_frequence(f: u32)
    requires
        f < 1_024_000_000,
    ensures
        ((frf(f) / 65536) % 256) * 65536 + ((frf(f) / 256) % 256) * 256 + frf(f) % 256 == frf(f),
{
    let x = frf(f);
    assert(x < 16777216) by (nonlinear_arith)
        requires x == (f as nat * 524288) / 32_000_000, f < 1_024_000_000;
    assert(((x / 65536) % 256) * 65536 + ((x / 256) % 256) * 256 + x % 256 == x) by (nonlinear_arith)
        requires x < 16777216;
}

/// Quand le module répond sans erreur de bus et que sa version vaut 0x12,
/// `init` émet exactement les 24 requêtes de `plan_init`, dans l'ordre,
/// puis réussit.
pub proof fn loi_init_complete(f: u32, h: Seq<ReponseVue>)
    requires
        h.len() == PAS_INIT,
        forall|i: int| 0 <= i < h.len() ==> !(#[trigger] h[i] is Echec),
        octet_lu(h[4]) == VERSION_SX127X,
    ensures
        forall|k: int|
            0 <= k < PAS_INIT ==> action_prevue(Commande::Init(f), #[trigger] h.take(k))
                == ActionVue::Requete(plan_init(f)[k]),
        action_prevue(Commande::Init(f), h) == ActionVue::Fin(Ok::<SortieVue, ErreurRadio>(SortieVue::Fait)),
{
    assert forall|k: int| 0 <= k < PAS_INIT implies action_prevue(Commande::Init(f), #[trigger] h.take(k))
        == ActionVue::Requete(plan_init(f)[k]) by {
        let p = h.take(k);
        if k > 0 {
            assert(p.last() == h[k - 1]);
        }
        if k >= 5 {
            assert(p[4] == h[4]);
        }
    }
}

/// Une trame d'écriture écrit la valeur à l'adresse ; une trame de lecture
/// n'écrit rien.
proof fn lemme_ecriture(adresse: u8, valeur: u8)
    requires
        adresse < 0x80,
    ensures
        ecriture(ecrire(adresse, valeur)) == Some((adresse, valeur)),
        ecriture(lire(adresse)) is None,
{
    assert((adresse | 0x80) & 0x80 != 0) by (bit_vector);
    assert((adresse | 0x80) & 0x7F == adresse) by (bit_vector)
        requires adresse < 0x80;
    assert((adresse & 0x7F) & 0x80 == 0) by (bit_vector);
}

/// Des requêtes qui n'écrivent pas au registre `adresse` ne changent pas
/// sa valeur.
proof fn lemme_registre_inchange(qs: Seq<RequeteVue>, k: int, adresse: u8)
    requires
        0 <= k <= qs.len(),
        forall|i: int| k <= i < qs.len() ==> !(#[trigger] ecriture(qs[i]) matches Some(w) && w.0 == adresse),
    ensures
        valeur_registre(qs, adresse) == valeur_registre(qs.take(k), adresse),
    decreases qs.len(),
{
    if qs.len() > k {
        assert(ecriture(qs[qs.len() - 1]) == ecriture(qs.last()));
        let p = qs.drop_last();
        assert forall|i: int| k <= i < p.len() implies !(#[trigger] ecriture(p[i]) matches Some(w) && w.0 == adresse) by {
            assert(p[i] == qs[i]);
        }
        lemme_registre_inchange(p, k, adresse);
        assert(p.take(k) =~= qs.take(k));
    } else {
        assert(qs.take(k) =~= qs);
    }
}

/// Un `init` réussi a reçu exactement 24 réponses et émis exactement les
/// requêtes de `plan_init`.
proof fn lemme_init_reussi(f: u32, h: Seq<ReponseVue>)
    requires
        parcours(Commande::Init(f), h),
        action_prevue(Commande::Init(f), h) == ActionVue::Fin(Ok::<SortieVue, ErreurRadio>(SortieVue::Fait)),
    ensures
        h.len() == PAS_INIT,
        requetes(Commande::Init(f), h) == plan_init(f),
{
    if h.len() > PAS_INIT {
        let p = h.take(PAS_INIT as int);
        assert(action_prevue(Commande::Init(f), p) is Requete);
        assert(p.len() == PAS_INIT);
    }
    let r = requetes(Commande::Init(f), h);
    assert forall|k: int| 0 <= k < h.len() implies r[k] == plan_init(f)[k] by {
        assert(action_prevue(Commande::Init(f), h.take(k)) is Requete);
        assert(h.take(k).len() == k);
    }
    assert(r =~= plan_init(f));
}

/// Une opération d'une seule requête réussie a reçu une seule réponse.
proof fn lemme_unique_reussi(c: Commande, h: Seq<ReponseVue>)
    requires
        c is DemarrerEcoute,
        parcours(c, h),
        action_prevue(c, h) == ActionVue::Fin(Ok::<SortieVue, ErreurRadio>(SortieVue::Fait)),
    ensures
        h.len() == 1,
        requetes(c, h) == seq![ecrire(REG_OP_MODE, MODE_LONG_RANGE | MODE_RX_CONTINUOUS)],
{
    if h.len() > 1 {
        assert(action_prevue(c, h.take(1)) is Requete);
        assert(h.take(1).len() == 1);
        assert(h.take(1).last() == h[0]);
    }
    assert(h.take(0).len() == 0);
    assert(requetes(c, h) =~= seq![ecrire(REG_OP_MODE, MODE_LONG_RANGE | MODE_RX_CONTINUOUS)]);
}

/// Modèle des registres de la puce, qui garde la dernière valeur écrite à
/// chaque registre : après un `init` réussi, RegOpMode vaut 0x81 (LoRa,
/// veille) ; après `demarrer_ecoute` réussi, il vaut 0x85 (LoRa, réception
/// continue). Si la puce rend à la lecture la valeur qu'elle garde,
/// `lire_op_mode` émet la seule trame [0x01, 0x00] et rend 0x85.
pub proof fn loi_mode_ecoute(f: u32, h1: Seq<ReponseVue>, h2: Seq<ReponseVue>, h3: Seq<ReponseVue>)
    requires
        parcours(Commande::Init(f), h1),
        action_prevue(Commande::Init(f), h1) == ActionVue::Fin(Ok::<SortieVue, ErreurRadio>(SortieVue::Fait)),
        parcours(Commande::DemarrerEcoute, h2),
        action_prevue(Commande::DemarrerEcoute, h2) == ActionVue::Fin(
            Ok::<SortieVue, ErreurRadio>(SortieVue::Fait),
        ),
        h3.len() == 1,
        !(h3[0] is Echec),
        Some(octet_lu(h3[0])) == valeur_registre(
            requetes(Commande::Init(f), h1) + requetes(Commande::DemarrerEcoute, h2),
            REG_OP_MODE,
        ),
    ensures
        valeur_registre(requetes(Commande::Init(f), h1), REG_OP_MODE) == Some(0x81u8),
        valeur_registre(
            requetes(Commande::Init(f), h1) + requetes(Commande::DemarrerEcoute, h2),
            REG_OP_MODE,
        ) == Some(0x85u8),
        requetes(Commande::LireOpMode, h3) == seq![lire(REG_OP_MODE)],
        trame_lecture(REG_OP_MODE) == seq![0x01u8, 0x00u8],
        action_prevue(Commande::LireOpMode, h3) == ActionVue::Fin(
            Ok::<SortieVue, ErreurRadio>(SortieVue::Octet(0x85)),
        ),
{
    lemme_init_reussi(f, h1);
    lemme_unique_reussi(Commande::DemarrerEcoute, h2);
    let p = plan_init(f);
    let x = frf(f);
    lemme_ecriture(REG_OP_MODE, MODE_LONG_RANGE | MODE_STDBY);
    lemme_ecriture(REG_OP_MODE, MODE_LONG_RANGE | MODE_RX_CONTINUOUS);
    lemme_ecriture(REG_FRF_MSB, ((x / 65536) % 256) as u8);
    lemme_ecriture((REG_FRF_MSB + 1) as u8, ((x / 256) % 256) as u8);
    lemme_ecriture((REG_FRF_MSB + 2) as u8, (x % 256) as u8);
    lemme_ecriture(REG_FIFO_TX_BASE_ADDR, 0x00);
    lemme_ecriture(REG_FIFO_RX_BASE_ADDR, 0x00);
    lemme_ecriture(REG_LNA, 0x23);
    lemme_ecriture(REG_MODEM_CONFIG_1, 0x72);
    lemme_ecriture(REG_MODEM_CONFIG_2, 0x74);
    lemme_ecriture(REG_MODEM_CONFIG_3, 0x04);
    lemme_ecriture(REG_PREAMBLE_MSB, 0x00);
    lemme_ecriture((REG_PREAMBLE_MSB + 1) as u8, 0x08);
    lemme_ecriture(REG_SYNC_WORD, 0x12);
    lemme_ecriture(REG_PA_CONFIG, 0x8F);
    lemme_ecriture(REG_PA_DAC, 0x87);
    lemme_ecriture(REG_OCP, 0x20u8 | 0x11u8);
    lemme_ecriture(REG_IRQ_FLAGS, 0xFF);
    assert(MODE_LONG_RANGE | MODE_STDBY == 0x81u8) by (bit_vector);
    assert(MODE_LONG_RANGE | MODE_RX_CONTINUOUS == 0x85u8) by (bit_vector);
    assert(REG_OP_MODE & 0x7F == 0x01u8) by (bit_vector);
    assert forall|i: int| 8 <= i < p.len() implies !(#[trigger] ecriture(p[i]) matches Some(w) && w.0
        == REG_OP_MODE) by {
        assert(8 <= i < 24);
        if i == 8 {} else if i == 9 {} else if i == 10 {} else if i == 11 {} else if i == 12 {}
        else if i == 13 {} else if i == 14 {} else if i == 15 {} else if i == 16 {} else if i == 17 {}
        else if i == 18 {} else if i == 19 {} else if i == 20 {} else if i == 21 {} else if i == 22 {}
        else {}
    }
    lemme_registre_inchange(p, 8, REG_OP_MODE);
    let p8 = p.take(8);
    assert(p8.last() == p[7]);
    assert(valeur_registre(p8, REG_OP_MODE) == Some(0x81u8));
    let q = p + requetes(Commande::DemarrerEcoute, h2);
    assert(q.last() == ecrire(REG_OP_MODE, MODE_LONG_RANGE | MODE_RX_CONTINUOUS));
    assert(valeur_registre(q, REG_OP_MODE) == Some(0x85u8));
    assert(h3.take(0).len() == 0);
    assert(requetes(Commande::LireOpMode, h3) =~= seq![lire(REG_OP_MODE)]);
    assert(trame_lecture(REG_OP_MODE) =~= seq![0x01u8, 0x00u8]);
}

/// Trame SPI de registre donnée octet par octet.
pub open spec fn trame_registre(a: u8, b: u8) -> RequeteVue {
    RequeteVue::Transfert(TrameVue::Registre(seq![a, b]))
}

proof fn lemme_octets_trames()
    ensures
        REG_IRQ_FLAGS & 0x7F == 0x12u8,
        REG_FIFO_RX_CURRENT_ADDR & 0x7F == 0x10u8,
        REG_FIFO_ADDR_PTR | 0x80 == 0x8Du8,
        REG_RX_NB_BYTES & 0x7F == 0x13u8,
        REG_FIFO & 0x7F == 0x00u8,
        REG_FIFO | 0x80 == 0x80u8,
        REG_PKT_RSSI_VALUE & 0x7F == 0x1Au8,
        REG_IRQ_FLAGS | 0x80 == 0x92u8,
        REG_OP_MODE | 0x80 == 0x81u8,
        MODE_LONG_RANGE | MODE_STDBY == 0x81u8,
        MODE_LONG_RANGE | MODE_TX == 0x83u8,
        REG_PAYLOAD_LENGTH | 0x80 == 0xA2u8,
{
    assert(REG_IRQ_FLAGS & 0x7F == 0x12u8) by (bit_vector);
    assert(REG_FIFO_RX_CURRENT_ADDR & 0x7F == 0x10u8) by (bit_vector);
    assert(REG_FIFO_ADDR_PTR | 0x80 == 0x8Du8) by (bit_vector);
    assert(REG_RX_NB_BYTES & 0x7F == 0x13u8) by (bit_vector);
    assert(REG_FIFO & 0x7F == 0x00u8) by (bit_vector);
    assert(REG_FIFO | 0x80 == 0x80u8) by (bit_vector);
    assert(REG_PKT_RSSI_VALUE & 0x7F == 0x1Au8) by (bit_vector);
    assert(REG_IRQ_FLAGS | 0x80 == 0x92u8) by (bit_vector);
    assert(REG_OP_MODE | 0x80 == 0x81u8) by (bit_vector);
    assert(MODE_LONG_RANGE | MODE_STDBY == 0x81u8) by (bit_vector);
    assert(MODE_LONG_RANGE | MODE_TX == 0x83u8) by (bit_vector);
    assert(REG_PAYLOAD_LENGTH | 0x80 == 0xA2u8) by (bit_vector);
}

/// `recevoir` lit d'abord RegIrqFlags (trame [0x12, 0x00]) ; sa décision
/// ne dépend que des bits RxDone (0x40) et PayloadCrcError (0x20) de
/// l'octet lu `f`, quels que soient les autres bits (ValidHeader 0x10 par
/// exemple) : sans RxDone, rien n'est reçu ; avec RxDone et sans erreur de
/// CRC, la requête suivante lit RegFifoRxCurrentAddr (trame [0x10, 0x00]) ;
/// avec RxDone et une erreur de CRC, elle efface les drapeaux (trame
/// [0x92, 0xFF]).
pub proof fn loi_reception_drapeaux(h: Seq<ReponseVue>)
    requires
        h.len() == 1,
        !(h[0] is Echec),
    ensures
        action_prevue(Commande::Recevoir, Seq::<ReponseVue>::empty()) == ActionVue::Requete(
            trame_registre(0x12, 0x00),
        ),
        (action_prevue(Commande::Recevoir, h) == ActionVue::Fin(
            Ok::<SortieVue, ErreurRadio>(SortieVue::Recu(ReceptionVue::Rien)),
        )) <==> octet_lu(h[0]) & 0x40 == 0,
        octet_lu(h[0]) & 0x40 != 0 && octet_lu(h[0]) & 0x20 == 0 ==> action_prevue(Commande::Recevoir, h)
            == ActionVue::Requete(trame_registre(0x10, 0x00)),
        octet_lu(h[0]) & 0x40 != 0 && octet_lu(h[0]) & 0x20 != 0 ==> action_prevue(Commande::Recevoir, h)
            == ActionVue::Requete(trame_registre(0x92, 0xFF)),
{
    lemme_octets_trames();
    assert(trame_lecture(REG_IRQ_FLAGS) =~= seq![0x12u8, 0x00u8]);
    assert(trame_lecture(REG_FIFO_RX_CURRENT_ADDR) =~= seq![0x10u8, 0x00u8]);
    assert(trame_ecriture(REG_IRQ_FLAGS, 0xFF) =~= seq![0x92u8, 0xFFu8]);
}

/// Réception complète d'un paquet sans erreur : drapeaux lus avec RxDone et
/// sans erreur de CRC, puis exactement les requêtes lire RegFifoRxCurrentAddr,
/// placer le pointeur FIFO à l'adresse lue, lire RegRxNbBytes (`n` octets,
/// au plus 32), lire la FIFO en rafale ([0x00] suivi de `n` zéros), lire
/// RegPktRssiValue, effacer les drapeaux ; le résultat est le paquet des `n`
/// octets reçus après l'adresse, avec un RSSI de (valeur lue - 157) dBm.
pub proof fn loi_reception_paquet(h: Seq<ReponseVue>)
    requires
        h.len() == 7,
        forall|i: int| 0 <= i < 7 ==> !(#[trigger] h[i] is Echec),
        octet_lu(h[0]) & 0x40 != 0,
        octet_lu(h[0]) & 0x20 == 0,
        octet_lu(h[3]) <= 32,
    ensures
        parcours(Commande::Recevoir, h),
        requetes(Commande::Recevoir, h) == seq![
            trame_registre(0x12, 0x00),
            trame_registre(0x10, 0x00),
            trame_registre(0x8D, octet_lu(h[1])),
            trame_registre(0x13, 0x00),
            RequeteVue::Transfert(TrameVue::Rafale(seq![0x00u8] + Seq::new(octet_lu(h[3]) as nat, |i: int| 0u8))),
            trame_registre(0x1A, 0x00),
            trame_registre(0x92, 0xFF),
        ],
        action_prevue(Commande::Recevoir, h) == ActionVue::Fin(
            Ok::<SortieVue, ErreurRadio>(
                SortieVue::Recu(
                    ReceptionVue::Paquet(
                        octets_recus(h[4]).subrange(1, 1 + octet_lu(h[3])),
                        octet_lu(h[5]) - 157,
                    ),
                ),
            ),
        ),
{
    lemme_octets_trames();
    let n = octet_lu(h[3]);
    assert(trame_lecture(REG_IRQ_FLAGS) =~= seq![0x12u8, 0x00u8]);
    assert(trame_lecture(REG_FIFO_RX_CURRENT_ADDR) =~= seq![0x10u8, 0x00u8]);
    assert(trame_ecriture(REG_FIFO_ADDR_PTR, octet_lu(h[1])) =~= seq![0x8Du8, octet_lu(h[1])]);
    assert(trame_lecture(REG_RX_NB_BYTES) =~= seq![0x13u8, 0x00u8]);
    assert(trame_lecture_rafale(REG_FIFO, n as nat) =~= seq![0x00u8] + Seq::new(n as nat, |i: int| 0u8));
    assert(trame_lecture(REG_PKT_RSSI_VALUE) =~= seq![0x1Au8, 0x00u8]);
    assert(trame_ecriture(REG_IRQ_FLAGS, 0xFF) =~= seq![0x92u8, 0xFFu8]);
    assert forall|k: int| 0 <= k < 7 implies (#[trigger] h.take(k)).len() == k && (forall|j: int|
        0 <= j < k ==> h.take(k)[j] == h[j]) by {}
    let r = requetes(Commande::Recevoir, h);
    assert(h.take(1)[0] == h[0]);
    assert(h.take(2)[0] == h[0] && h.take(2)[1] == h[1]);
    assert(h.take(3)[0] == h[0] && h.take(3)[1] == h[1] && h.take(3)[2] == h[2]);
    assert(h.take(4)[0] == h[0] && h.take(4)[3] == h[3]);
    assert(h.take(5)[0] == h[0] && h.take(5)[3] == h[3] && h.take(5)[4] == h[4]);
    assert(h.take(6)[0] == h[0] && h.take(6)[5] == h[5]);
    assert(r =~= seq![
        trame_registre(0x12, 0x00),
        trame_registre(0x10, 0x00),
        trame_registre(0x8D, octet_lu(h[1])),
        trame_registre(0x13, 0x00),
        RequeteVue::Transfert(TrameVue::Rafale(seq![0x00u8] + Seq::new(n as nat, |i: int| 0u8))),
        trame_registre(0x1A, 0x00),
        trame_registre(0x92, 0xFF),
    ]);
}

/// `envoyer` émet d'abord exactement : RegOpMode en veille LoRa ([0x81,
/// 0x81]), pointeur FIFO à 0 ([0x8D, 0x00]), RegPayloadLength à la longueur
/// des données modulo 256 ([0xA2, n]), la rafale FIFO ([0x80] suivi de
/// toutes les données quand elles tiennent en 32 octets, [0x80] seul
/// sinon), puis RegOpMode en émission ([0x81, 0x83]) ; ensuite il lit les
/// drapeaux IRQ ([0x12, 0x00]).
pub proof fn loi_envoi_donnees(d: Seq<u8>, h: Seq<ReponseVue>)
    requires
        h.len() == 5,
        forall|i: int| 0 <= i < 5 ==> !(#[trigger] h[i] is Echec),
    ensures
        parcours(Commande::Envoi(d), h),
        requetes(Commande::Envoi(d), h) == seq![
            trame_registre(0x81, 0x81),
            trame_registre(0x8D, 0x00),
            trame_registre(0xA2, (d.len() % 256) as u8),
            RequeteVue::Transfert(TrameVue::Rafale(seq![0x80u8] + (if d.len() <= 32 { d } else { Seq::<u8>::empty() }))),
            trame_registre(0x81, 0x83),
        ],
        d.len() <= 32 ==> requetes(Commande::Envoi(d), h)[3] == RequeteVue::Transfert(
            TrameVue::Rafale(seq![0x80u8] + d),
        ),
        action_prevue(Commande::Envoi(d), h) == ActionVue::Requete(trame_registre(0x12, 0x00)),
{
    lemme_octets_trames();
    assert(trame_ecriture(REG_OP_MODE, MODE_LONG_RANGE | MODE_STDBY) =~= seq![0x81u8, 0x81u8]);
    assert(trame_ecriture(REG_FIFO_ADDR_PTR, 0x00) =~= seq![0x8Du8, 0x00u8]);
    assert(trame_ecriture(REG_PAYLOAD_LENGTH, (d.len() % 256) as u8) =~= seq![0xA2u8, (d.len() % 256) as u8]);
    assert(trame_ecriture(REG_OP_MODE, MODE_LONG_RANGE | MODE_TX) =~= seq![0x81u8, 0x83u8]);
    assert(trame_lecture(REG_IRQ_FLAGS) =~= seq![0x12u8, 0x00u8]);
    assert forall|k: int| 0 <= k <= 5 implies (#[trigger] h.take(k)).len() == k && (forall|j: int|
        0 <= j < k ==> h.take(k)[j] == h[j]) by {}
    assert(h.take(1).last() == h[0]);
    assert(h.take(2).last() == h[1]);
    assert(h.take(3).last() == h[2]);
    assert(h.take(4).last() == h[3]);
    assert(h.last() == h[4]);
    let r = requetes(Commande::Envoi(d), h);
    assert(r =~= seq![
        trame_registre(0x81, 0x81),
        trame_registre(0x8D, 0x00),
        trame_registre(0xA2, (d.len() % 256) as u8),
        RequeteVue::Transfert(TrameVue::Rafale(seq![0x80u8] + (if d.len() <= 32 { d } else { Seq::<u8>::empty() }))),
        trame_registre(0x81, 0x83),
    ]);
}

/// Après les cinq requêtes de départ, `envoyer` sonde les drapeaux IRQ
/// ([0x12, 0x00]) puis, sans TxDone (bit 0x08) dans l'octet lu, attend
/// 10 ms avant le sondage suivant ; au premier TxDone il efface les
/// drapeaux ([0x92, 0xFF]) puis réussit ; après 200 sondages sans TxDone,
/// il s'arrête sur l'erreur de délai.
pub proof fn loi_envoi_sondages(d: Seq<u8>, h: Seq<ReponseVue>)
    requires
        h.len() >= 5,
        !(h.last() is Echec),
    ensures
        (h.len() - 5) % 2 == 1 && octet_lu(h.last()) & 0x08 != 0 ==> action_prevue(Commande::Envoi(d), h)
            == ActionVue::Requete(trame_registre(0x92, 0xFF)),
        (h.len() - 5) % 2 == 1 && octet_lu(h.last()) & 0x08 == 0 ==> action_prevue(Commande::Envoi(d), h)
            == ActionVue::Requete(RequeteVue::Pause(10)),
        (h.len() - 5) % 2 == 0 && h.len() >= 7 && octet_lu(h[h.len() - 2]) & 0x08 != 0 ==> action_prevue(
            Commande::Envoi(d),
            h,
        ) == ActionVue::Fin(Ok::<SortieVue, ErreurRadio>(SortieVue::Fait)),
        (h.len() - 5) % 2 == 0 && (h.len() == 5 || octet_lu(h[h.len() - 2]) & 0x08 == 0) && h.len() < 5 + 2
            * 200 ==> action_prevue(Commande::Envoi(d), h) == ActionVue::Requete(trame_registre(0x12, 0x00)),
        (h.len() - 5) % 2 == 0 && (h.len() == 5 || octet_lu(h[h.len() - 2]) & 0x08 == 0) && h.len() >= 5 + 2
            * 200 ==> action_prevue(Commande::Envoi(d), h) == ActionVue::Fin(
            Err::<SortieVue, ErreurRadio>(ErreurRadio::DelaiEmission),
        ),
{
    lemme_octets_trames();
    assert(trame_lecture(REG_IRQ_FLAGS) =~= seq![0x12u8, 0x00u8]);
    assert(trame_ecriture(REG_IRQ_FLAGS, 0xFF) =~= seq![0x92u8, 0xFFu8]);
    assert(h.last() == h[h.len() - 1]);
}

/// Un paquet reçu avec une erreur de CRC (RxDone 0x40 et PayloadCrcError
/// 0x20 dans les drapeaux) n'est pas lu : après l'effacement des drapeaux,
/// `recevoir` rend l'erreur CRC.
pub proof fn loi_reception_crc(h: Seq<ReponseVue>)
    requires
        h.len() == 2,
        !(h[0] is Echec),
        !(h[1] is Echec),
        octet_lu(h[0]) & 0x40 != 0,
        octet_lu(h[0]) & 0x20 != 0,
    ensures
        action_prevue(Commande::Recevoir, h) == ActionVue::Fin(
            Ok::<SortieVue, ErreurRadio>(SortieVue::Recu(ReceptionVue::ErreurCrc)),
        ),
{
}

} // verus!
