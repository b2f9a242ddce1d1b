//! Décisions du récepteur pour chaque paquet reçu : accusé de réception,
//! compte des courriers et lignes affichées sur l'écran ; et celles du
//! récepteur d'essai (compte des paquets, lecture du bruit du canal un
//! tour de boucle sur dix, lignes de son écran).

use vstd::prelude::*;
use vstd::string::StringSliceAdditionalSpecFns;
use crate::decimal::{decimal, lemme_longueur_decimal};
use crate::protocole::{
    accuse_attendu_spec, accuse_reception, accuse_spec, analyse_accuse_spec, analyser_message,
    loi_accuse_reconnu, message_lu, message_spec, texte_recepteur, AnalyseAccuse, Correction, Message,
};
use crate::tampons::{octets_texte32, octets_texte48, texte32_ajouter, texte32_ecrire_entier, texte32_vide};
use crate::temps::{
    correction_horloge, correction_spec, decalage_paris, en_i64, loi_prochain_reveil, HEURE,
};

verus! {

/// Nombre de courriers reçus après ce message : un de plus pour un colis.
pub open spec fn total_apres(nb_recus: u32, message: Option<Message>) -> int {
    match message {
        Some(Message::Colis(_)) => nb_recus + 1,
        _ => nb_recus as int,
    }
}

/// Compte un courrier de plus quand le message annonce un colis.
pub fn nouveau_total(nb_recus: u32, message: Option<Message>) -> (n: u32)
    requires
        message matches Some(Message::Colis(_)) ==> nb_recus < u32::MAX,
    ensures
        n == total_apres(nb_recus, message),
{
    match message {
        Some(Message::Colis(_)) => nb_recus + 1,
        _ => nb_recus,
    }
}

/// Correction d'horloge jointe à l'accusé, en `i64`, pour l'heure UTC
/// `maintenant_s` si elle est connue (voir `correction_spec`).
pub open spec fn correction_envoyee(maintenant_s: Option<u64>) -> Option<i64> {
    match correction_spec(maintenant_s) {
        Some(s) => Some(s as i64),
        None => None,
    }
}

/// Ce que le récepteur fait d'un paquet reçu.
pub struct TraitementPaquet {
    /// Le message lu, s'il est valide (`COLIS:<g>` ou `RIEN`).
    pub message: Option<Message>,
    /// L'accusé de réception à envoyer, pour un message valide seulement.
    pub accuse: Option<heapless::String<48>>,
    /// Le nombre de courriers reçus après ce paquet.
    pub nb_recus: u32,
}

/// Traite un paquet reçu : un message valide reçoit un accusé de réception
/// (avec la correction d'horloge quand l'heure UTC `maintenant_s` est
/// connue) ; un colis compte un courrier de plus ; tout autre paquet est
/// ignoré.
pub fn traiter_paquet(nb_recus: u32, donnees: &[u8], maintenant_s: Option<u64>) -> (t: TraitementPaquet)
    requires
        message_lu(donnees@) matches Some(Message::Colis(_)) ==> nb_recus < u32::MAX,
    ensures
        t.message == message_lu(donnees@),
        t.nb_recus == total_apres(nb_recus, message_lu(donnees@)),
        t.accuse is Some <==> message_lu(donnees@) is Some,
        t.accuse matches Some(a) ==> octets_texte48(a) == accuse_spec(
            texte_recepteur(donnees@),
            correction_envoyee(maintenant_s),
        ),
{
    let message = analyser_message(donnees);
    match message {
        Some(_) => {
            let correction = correction_horloge(maintenant_s);
            let accuse = accuse_reception(donnees, correction);
            TraitementPaquet { message, accuse: Some(accuse), nb_recus: nouveau_total(nb_recus, message) }
        },
        None => TraitementPaquet { message, accuse: None, nb_recus },
    }
}

/// Tout message de l'émetteur reçoit du récepteur un accusé que
/// l'émetteur reconnaît, avec la correction d'horloge que le récepteur y a
/// mise (aucune quand il ne connaît pas l'heure).
pub proof fn loi_recepteur_repond(poids_g: Option<i32>, maintenant_s: Option<u64>)
    ensures
        message_lu(message_spec(poids_g)) is Some,
        analyse_accuse_spec(
            accuse_spec(texte_recepteur(message_spec(poids_g)), correction_envoyee(maintenant_s)),
            accuse_attendu_spec(message_spec(poids_g)),
        ) == AnalyseAccuse::Accuse(
            match correction_envoyee(maintenant_s) {
                Some(s) => Correction::Secondes(s as u64),
                None => Correction::Absente,
            },
        ),
{
    if let Some(x) = maintenant_s {
        let t = en_i64(x);
        let local = t + decalage_paris(t as i64) * HEURE;
        loi_prochain_reveil(local);
    }
    loi_accuse_reconnu(poids_g, correction_envoyee(maintenant_s));
}

pub open spec fn octets_colis_recu() -> Seq<u8> {
    seq![67u8, 111, 108, 105, 115, 32, 114, 101, 99, 117, 32, 58, 32]
}

pub open spec fn octets_gramme() -> Seq<u8> {
    seq![32u8, 103]
}

pub open spec fn octets_rssi() -> Seq<u8> {
    seq![82u8, 83, 83, 73, 32]
}

pub open spec fn octets_dbm() -> Seq<u8> {
    seq![32u8, 100, 66, 109]
}

pub open spec fn octets_recus() -> Seq<u8> {
    seq![82u8, 101, 99, 117, 115, 58, 32]
}

pub open spec fn octets_bruit() -> Seq<u8> {
    seq![66u8, 114, 117, 105, 116, 58, 32]
}

pub open spec fn octets_rien_recu() -> Seq<u8> {
    seq![40u8, 114, 105, 101, 110, 32, 114, 101, 99, 117, 41]
}

pub open spec fn octets_total() -> Seq<u8> {
    seq![84u8, 111, 116, 97, 108, 32, 58, 32]
}

proof fn lemme_litteraux()
    ensures
        "Colis recu : ".spec_bytes() == octets_colis_recu(),
        " g".spec_bytes() == octets_gramme(),
        "RSSI ".spec_bytes() == octets_rssi(),
        " dBm".spec_bytes() == octets_dbm(),
        "Total : ".spec_bytes() == octets_total(),
        "Recus: ".spec_bytes() == octets_recus(),
        "Bruit: ".spec_bytes() == octets_bruit(),
        "(rien recu)".spec_bytes() == octets_rien_recu(),
{
    broadcast use vstd::string::is_ascii_spec_bytes;

    reveal_strlit("Colis recu : ");
    reveal_strlit(" g");
    reveal_strlit("RSSI ");
    reveal_strlit(" dBm");
    reveal_strlit("Total : ");
    reveal_strlit("Recus: ");
    reveal_strlit("Bruit: ");
    reveal_strlit("(rien recu)");
    assert(vstd::string::is_ascii("Recus: "));
    assert(vstd::string::is_ascii("Bruit: "));
    assert(vstd::string::is_ascii("(rien recu)"));
    assert("Recus: ".spec_bytes() =~= octets_recus());
    assert("Bruit: ".spec_bytes() =~= octets_bruit());
    assert("(rien recu)".spec_bytes() =~= octets_rien_recu());
    assert(vstd::string::is_ascii("Colis recu : "));
    assert(vstd::string::is_ascii(" g"));
    assert(vstd::string::is_ascii("RSSI "));
    assert(vstd::string::is_ascii(" dBm"));
    assert(vstd::string::is_ascii("Total : "));
    assert("Colis recu : ".spec_bytes() =~= octets_colis_recu());
    assert(" g".spec_bytes() =~= octets_gramme());
    assert("RSSI ".spec_bytes() =~= octets_rssi());
    assert(" dBm".spec_bytes() =~= octets_dbm());
    assert("Total : ".spec_bytes() =~= octets_total());
}

/// Première ligne de l'écran : le poids d'un colis, sinon le texte reçu
/// (vide s'il ne tient pas en 32 octets).
pub open spec fn ligne_message_spec(poids_g: Option<i32>, texte: Seq<u8>) -> Seq<u8> {
    match poids_g {
        Some(g) => octets_colis_recu() + decimal(g as int) + octets_gramme(),
        None => if texte.len() <= 32 {
            texte
        } else {
            Seq::<u8>::empty()
        },
    }
}

/// Écrit la première ligne de l'écran.
pub fn ligne_message(poids_g: Option<i32>, texte: &str) -> (l: heapless::String<32>)
    ensures
        octets_texte32(l) == ligne_message_spec(poids_g, texte.spec_bytes()),
{
    let mut l = texte32_vide();
    proof {
        lemme_litteraux();
    }
    match poids_g {
        Some(g) => {
            let _ = texte32_ajouter(&mut l, "Colis recu : ");
            proof {
                lemme_longueur_decimal(g as int);
            }
            let _ = texte32_ecrire_entier(&mut l, g as i64);
            let _ = texte32_ajouter(&mut l, " g");
        },
        None => {
            let _ = texte32_ajouter(&mut l, texte);
        },
    }
    l
}

/// Ligne du RSSI : `RSSI <dBm> dBm`.
pub open spec fn ligne_rssi_spec(rssi_dbm: i32) -> Seq<u8> {
    octets_rssi() + decimal(rssi_dbm as int) + octets_dbm()
}

/// Écrit la ligne du RSSI du dernier paquet.
pub fn ligne_rssi(rssi_dbm: i32) -> (l: heapless::String<32>)
    ensures
        octets_texte32(l) == ligne_rssi_spec(rssi_dbm),
{
    let mut l = texte32_vide();
    proof {
        lemme_litteraux();
        lemme_longueur_decimal(rssi_dbm as int);
    }
    let _ = texte32_ajouter(&mut l, "RSSI ");
    let _ = texte32_ecrire_entier(&mut l, rssi_dbm as i64);
    let _ = texte32_ajouter(&mut l, " dBm");
    l
}

/// Ligne du total : `Total : <n>`.
pub open spec fn ligne_total_spec(nb_recus: u32) -> Seq<u8> {
    octets_total() + decimal(nb_recus as int)
}

/// Écrit la ligne du nombre de courriers reçus.
pub fn ligne_total(nb_recus: u32) -> (l: heapless::String<32>)
    ensures
        octets_texte32(l) == ligne_total_spec(nb_recus),
{
    let mut l = texte32_vide();
    proof {
        lemme_litteraux();
        lemme_longueur_decimal(nb_recus as int);
    }
    let _ = texte32_ajouter(&mut l, "Total : ");
    let _ = texte32_ecrire_entier(&mut l, nb_recus as i64);
    l
}

// ------------------------------------------------------------------ récepteur d'essai

/// Nombre de tours de boucle entre deux lectures du bruit du canal.
pub const TOURS_ENTRE_BRUIT: u32 = 10;

/// Tour de boucle suivant du récepteur d'essai : le compteur avance d'un
/// tour, et le bruit du canal est lu quand il atteint un multiple de 10.
pub fn tour_suivant(compteur: u32) -> (r: (u32, bool))
    requires
        compteur < u32::MAX,
    ensures
        r.0 == compteur + 1,
        r.1 == ((compteur + 1) % TOURS_ENTRE_BRUIT as int == 0),
{
    let c = compteur + 1;
    (c, c % TOURS_ENTRE_BRUIT == 0)
}

/// Le récepteur d'essai compte chaque paquet reçu.
pub fn paquet_compte(nb_recus: u32) -> (n: u32)
    requires
        nb_recus < u32::MAX,
    ensures
        n == nb_recus + 1,
{
    nb_recus + 1
}

/// Ligne du compte de paquets : `Recus: <n>`.
pub open spec fn ligne_recus_spec(nb_recus: u32) -> Seq<u8> {
    octets_recus() + decimal(nb_recus as int)
}

/// Écrit la ligne du compte de paquets du récepteur d'essai.
pub fn ligne_recus(nb_recus: u32) -> (l: heapless::String<32>)
    ensures
        octets_texte32(l) == ligne_recus_spec(nb_recus),
{
    let mut l = texte32_vide();
    proof {
        lemme_litteraux();
        lemme_longueur_decimal(nb_recus as int);
    }
    let _ = texte32_ajouter(&mut l, "Recus: ");
    let _ = texte32_ecrire_entier(&mut l, nb_recus as i64);
    l
}

/// Ligne du bruit du canal : `Bruit: <dBm> dBm`.
pub open spec fn ligne_bruit_spec(rssi_dbm: i32) -> Seq<u8> {
    octets_bruit() + decimal(rssi_dbm as int) + octets_dbm()
}

/// Écrit la ligne du bruit du canal (RSSI instantané).
pub fn ligne_bruit(rssi_dbm: i32) -> (l: heapless::String<32>)
    ensures
        octets_texte32(l) == ligne_bruit_spec(rssi_dbm),
{
    let mut l = texte32_vide();
    proof {
        lemme_litteraux();
        lemme_longueur_decimal(rssi_dbm as int);
    }
    let _ = texte32_ajouter(&mut l, "Bruit: ");
    let _ = texte32_ecrire_entier(&mut l, rssi_dbm as i64);
    let _ = texte32_ajouter(&mut l, " dBm");
    l
}

/// Ligne du dernier paquet : son texte (vide s'il ne tient pas en 32
/// octets), ou `(rien recu)` avant le premier.
pub open spec fn ligne_dernier_spec(texte: Option<Seq<u8>>) -> Seq<u8> {
    match texte {
        Some(t) => if t.len() <= 32 {
            t
        } else {
            Seq::<u8>::empty()
        },
        None => octets_rien_recu(),
    }
}

/// Écrit la ligne du dernier paquet reçu par le récepteur d'essai.
pub fn ligne_dernier(texte: Option<&str>) -> (l: heapless::String<32>)
    ensures
        octets_texte32(l) == ligne_dernier_spec(
            match texte {
                Some(t) => Some(t.spec_bytes()),
                None => None,
            },
        ),
{
    let mut l = texte32_vide();
    proof {
        lemme_litteraux();
    }
    match texte {
        Some(t) => {
            let _ = texte32_ajouter(&mut l, t);
        },
        None => {
            let _ = texte32_ajouter(&mut l, "(rien recu)");
        },
    }
    l
}

} // verus!
