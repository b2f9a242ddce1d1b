//! Messages échangés entre l'émetteur (dans la boîte aux lettres) et le
//! récepteur (dans la maison).
//!
//! L'émetteur envoie `COLIS:<grammes>` quand un poids est détecté, `RIEN`
//! sinon. Le récepteur répond `ACK_<message>`, suivi de `:<secondes>` quand
//! il connaît l'heure : le nombre de secondes jusqu'au prochain réveil
//! (12h00 ou 18h00, heure de Paris), que l'émetteur prend comme durée de
//! veille, avec un plancher de 5 minutes.

use vstd::prelude::*;
use vstd::string::StringSliceAdditionalSpecFns;
use vstd::utf8::valid_utf8;
use crate::decimal::{
    decimal, decimal_nat, lecture_i32, lecture_u64, lemme_decimal_ascii, lemme_longueur_decimal,
    lemme_relire_i32, lemme_relire_u64, lire_i32, lire_u64,
};
use crate::tampons::{
    octets_texte32, octets_texte48, texte32_ajouter, texte32_ecrire_entier, texte32_vide,
    texte48_ajouter, texte48_ecrire_entier, texte48_vide,
};

verus! {

// ------------------------------------------------------------------ textes fixes

pub open spec fn octets_colis() -> Seq<u8> {
    seq![67u8, 79, 76, 73, 83, 58]
}

pub open spec fn octets_rien() -> Seq<u8> {
    seq![82u8, 73, 69, 78]
}

pub open spec fn octets_ack() -> Seq<u8> {
    seq![65u8, 67, 75, 95]
}

pub open spec fn octets_non_utf8() -> Seq<u8> {
    seq![40u8, 110, 111, 110, 45, 85, 84, 70, 56, 41]
}

/// Code ASCII de `:`.
pub const DEUX_POINTS: u8 = 58;

proof fn lemme_colis()
    ensures
        "COLIS:".spec_bytes() == octets_colis(),
{
    reveal_strlit("COLIS:");
    broadcast use vstd::string::is_ascii_spec_bytes;

    assert(vstd::string::is_ascii("COLIS:"));
    assert("COLIS:".spec_bytes() =~= octets_colis());
}

proof fn lemme_rien()
    ensures
        "RIEN".spec_bytes() == octets_rien(),
{
    reveal_strlit("RIEN");
    broadcast use vstd::string::is_ascii_spec_bytes;

    assert(vstd::string::is_ascii("RIEN"));
    assert("RIEN".spec_bytes() =~= octets_rien());
}

proof fn lemme_ack()
    ensures
        "ACK_".spec_bytes() == octets_ack(),
{
    reveal_strlit("ACK_");
    broadcast use vstd::string::is_ascii_spec_bytes;

    assert(vstd::string::is_ascii("ACK_"));
    assert("ACK_".spec_bytes() =~= octets_ack());
}

proof fn lemme_deux_points()
    ensures
        ":".spec_bytes() == seq![DEUX_POINTS],
{
    reveal_strlit(":");
    broadcast use vstd::string::is_ascii_spec_bytes;

    assert(vstd::string::is_ascii(":"));
    assert(":".spec_bytes() =~= seq![DEUX_POINTS]);
}

proof fn lemme_non_utf8()
    ensures
        "(non-UTF8)".spec_bytes() == octets_non_utf8(),
{
    reveal_strlit("(non-UTF8)");
    broadcast use vstd::string::is_ascii_spec_bytes;

    assert(vstd::string::is_ascii("(non-UTF8)"));
    assert("(non-UTF8)".spec_bytes() =~= octets_non_utf8());
}

/// `core::str::from_utf8` : le texte si les octets sont de l'UTF-8 valide
/// (au sens de `vstd::utf8::valid_utf8`), sinon rien.
#[verifier::external_body]
pub(crate) fn texte_utf8(o: &[u8]) -> (r: Option<&str>)
    ensures
        r is Some <==> valid_utf8(o@),
        r matches Some(t) ==> t.spec_bytes() == o@,
{
    core::str::from_utf8(o).ok()
}

// ------------------------------------------------------------------ émetteur

/// Message de l'émetteur : `COLIS:<grammes>` si un poids a été retenu,
/// `RIEN` sinon.
pub open spec fn message_spec(poids_g: Option<i32>) -> Seq<u8> {
    match poids_g {
        Some(g) => octets_colis() + decimal(g as int),
        None => octets_rien(),
    }
}

/// Construit le message de l'émetteur.
pub fn message_pesee(poids_g: Option<i32>) -> (m: heapless::String<32>)
    ensures
        octets_texte32(m) == message_spec(poids_g),
{
    let mut m = texte32_vide();
    proof {
        lemme_colis();
        lemme_rien();
    }
    match poids_g {
        Some(g) => {
            let _ = texte32_ajouter(&mut m, "COLIS:");
            proof {
                lemme_longueur_decimal(g as int);
            }
            let _ = texte32_ecrire_entier(&mut m, g as i64);
        },
        None => {
            let _ = texte32_ajouter(&mut m, "RIEN");
        },
    }
    m
}

/// Accusé de réception attendu pour un message : `ACK_` suivi du message,
/// ou `ACK_` seul si le tout ne tient pas en 32 octets.
pub open spec fn accuse_attendu_spec(message: Seq<u8>) -> Seq<u8> {
    if octets_ack().len() + message.len() <= 32 {
        octets_ack() + message
    } else {
        octets_ack()
    }
}

/// Construit l'accusé de réception attendu pour `message`.
pub fn accuse_attendu(message: &str) -> (a: heapless::String<32>)
    ensures
        octets_texte32(a) == accuse_attendu_spec(message.spec_bytes()),
{
    let mut a = texte32_vide();
    proof {
        lemme_ack();
    }
    let _ = texte32_ajouter(&mut a, "ACK_");
    let _ = texte32_ajouter(&mut a, message);
    a
}

/// Correction d'horloge portée par un accusé de réception.
#[derive(PartialEq, Eq, Structural, Clone, Copy, Debug)]
pub enum Correction {
    /// Rien après l'accusé attendu (ou autre chose que `:`).
    Absente,
    /// `:` suivi d'un texte qui n'est pas un `u64`.
    Illisible,
    /// `:` suivi d'un nombre de secondes.
    Secondes(u64),
}

/// Ce qu'un paquet reçu par l'émetteur représente.
#[derive(PartialEq, Eq, Structural, Clone, Copy, Debug)]
pub enum AnalyseAccuse {
    /// Pas l'accusé attendu.
    Autre,
    /// L'accusé attendu, avec la correction d'horloge éventuelle.
    Accuse(Correction),
}

/// Le texte d'un paquet tel que l'émetteur le lit : ses octets s'ils sont
/// de l'UTF-8 valide, sinon le texte vide.
pub open spec fn texte_emetteur(donnees: Seq<u8>) -> Seq<u8> {
    if valid_utf8(donnees) {
        donnees
    } else {
        Seq::<u8>::empty()
    }
}

/// Analyse d'un paquet par l'émetteur : c'est l'accusé attendu si son
/// texte commence par `attendu` ; la suite, si elle commence par `:`, est
/// lue comme un nombre de secondes.
pub open spec fn analyse_accuse_spec(donnees: Seq<u8>, attendu: Seq<u8>) -> AnalyseAccuse {
    let t = texte_emetteur(donnees);
    if attendu.len() <= t.len() && t.take(attendu.len() as int) == attendu {
        let reste = t.skip(attendu.len() as int);
        if reste.len() > 0 && reste[0] == DEUX_POINTS {
            match lecture_u64(reste.drop_first()) {
                Some(s) => AnalyseAccuse::Accuse(Correction::Secondes(s)),
                None => AnalyseAccuse::Accuse(Correction::Illisible),
            }
        } else {
            AnalyseAccuse::Accuse(Correction::Absente)
        }
    } else {
        AnalyseAccuse::Autre
    }
}

/// Analyse un paquet reçu par l'émetteur en attente de l'accusé `attendu`.
pub fn analyser_accuse(donnees: &[u8], attendu: &[u8]) -> (r: AnalyseAccuse)
    ensures
        r == analyse_accuse_spec(donnees@, attendu@),
{
    let t: &[u8] = match texte_utf8(donnees) {
        Some(_) => donnees,
        None => {
            let vide: &[u8] = &[];
            assert(vide@ =~= Seq::<u8>::empty());
            vide
        },
    };
    assert(t@ == texte_emetteur(donnees@));
    if attendu.len() > t.len() {
        return AnalyseAccuse::Autre;
    }
    let mut i: usize = 0;
    while i < attendu.len()
        invariant
            t@ == texte_emetteur(donnees@),
            attendu@.len() <= t@.len(),
            0 <= i <= attendu@.len(),
            t@.take(i as int) == attendu@.take(i as int),
        decreases attendu@.len() - i,
    {
        if t[i] != attendu[i] {
            assert(t@.take(attendu@.len() as int)[i as int] != attendu@[i as int]);
            assert(t@.take(attendu@.len() as int) != attendu@);
            return AnalyseAccuse::Autre;
        }
        assert(t@.take(i + 1) =~= t@.take(i as int).push(t@[i as int]));
        assert(attendu@.take(i + 1) =~= attendu@.take(i as int).push(attendu@[i as int]));
        i = i + 1;
    }
    assert(attendu@.take(attendu@.len() as int) =~= attendu@);
    let k = attendu.len();
    let ghost reste = t@.skip(k as int);
    if k < t.len() && t[k] == DEUX_POINTS {
        let apres = vstd::slice::slice_subrange(t, k + 1, t.len());
        assert(apres@ =~= reste.drop_first());
        match lire_u64(apres) {
            Some(s) => AnalyseAccuse::Accuse(Correction::Secondes(s)),
            None => AnalyseAccuse::Accuse(Correction::Illisible),
        }
    } else {
        AnalyseAccuse::Accuse(Correction::Absente)
    }
}

/// Durée de veille par défaut, sans correction reçue : 12 h (en µs).
pub const INTERVALLE_VEILLE_US: u64 = 43_200_000_000;

/// Plancher de la durée de veille corrigée : 5 min (en µs).
pub const DUREE_VEILLE_MIN_US: u64 = 300_000_000;

/// Durée de veille qui suit un échange : la correction reçue, convertie en
/// µs (saturée à `u64::MAX`) et au moins 5 min ; 12 h sans correction.
pub open spec fn duree_veille_spec(correction: Option<u64>) -> u64 {
    match correction {
        Some(s) => {
            let us = if s * 1_000_000 > u64::MAX { u64::MAX as int } else { s * 1_000_000 };
            if us < DUREE_VEILLE_MIN_US { DUREE_VEILLE_MIN_US } else { us as u64 }
        },
        None => INTERVALLE_VEILLE_US,
    }
}

/// Durée de veille en µs pour la correction reçue, s'il y en a une.
pub fn duree_veille_us(correction: Option<u64>) -> (d: u64)
    ensures
        d == duree_veille_spec(correction),
{
    match correction {
        Some(s) => {
            let us = match s.checked_mul(1_000_000) {
                Some(v) => v,
                None => u64::MAX,
            };
            if us < DUREE_VEILLE_MIN_US {
                DUREE_VEILLE_MIN_US
            } else {
                us
            }
        },
        None => INTERVALLE_VEILLE_US,
    }
}

// ------------------------------------------------------------------ récepteur

/// Message reçu par le récepteur.
#[derive(PartialEq, Eq, Structural, Clone, Copy, Debug)]
pub enum Message {
    /// `COLIS:<grammes>`.
    Colis(i32),
    /// `RIEN`.
    Rien,
}

/// Le texte d'un paquet tel que le récepteur l'affiche : ses octets s'ils
/// sont de l'UTF-8 valide, sinon `(non-UTF8)`.
pub open spec fn texte_recepteur(donnees: Seq<u8>) -> Seq<u8> {
    if valid_utf8(donnees) {
        donnees
    } else {
        octets_non_utf8()
    }
}

/// Lecture d'un message : `COLIS:` suivi d'un `i32`, ou exactement `RIEN`.
pub open spec fn message_lu(donnees: Seq<u8>) -> Option<Message> {
    let t = texte_recepteur(donnees);
    if t.len() >= 6 && t.take(6) == octets_colis() && lecture_i32(t.skip(6)) is Some {
        Some(Message::Colis(lecture_i32(t.skip(6))->0))
    } else if t == octets_rien() {
        Some(Message::Rien)
    } else {
        None
    }
}

/// Le texte du paquet reçu, comme le récepteur l'affiche et le renvoie.
pub fn texte_recu(donnees: &[u8]) -> (t: &str)
    ensures
        t.spec_bytes() == texte_recepteur(donnees@),
{
    proof {
        lemme_non_utf8();
    }
    match texte_utf8(donnees) {
        Some(t) => t,
        None => "(non-UTF8)",
    }
}

/// Lit le message d'un paquet reçu par le récepteur.
pub fn analyser_message(donnees: &[u8]) -> (m: Option<Message>)
    ensures
        m == message_lu(donnees@),
{
    let texte = texte_recu(donnees);
    let t = texte.as_bytes();
    assert(t@ == texte_recepteur(donnees@));
    if t.len() >= 6 && t[0] == 67 && t[1] == 79 && t[2] == 76 && t[3] == 73 && t[4] == 83 && t[5] == 58 {
        assert(t@.take(6) =~= octets_colis());
        let reste = vstd::slice::slice_subrange(t, 6, t.len());
        assert(reste@ =~= t@.skip(6));
        match lire_i32(reste) {
            Some(g) => return Some(Message::Colis(g)),
            None => {},
        }
    } else if t.len() >= 6 {
        assert(t@.take(6) != octets_colis()) by {
            if t@.take(6) == octets_colis() {
                assert(t@.take(6)[0] == t@[0]);
                assert(t@.take(6)[1] == t@[1]);
                assert(t@.take(6)[2] == t@[2]);
                assert(t@.take(6)[3] == t@[3]);
                assert(t@.take(6)[4] == t@[4]);
                assert(t@.take(6)[5] == t@[5]);
            }
        }
    }
    if t.len() == 4 && t[0] == 82 && t[1] == 73 && t[2] == 69 && t[3] == 78 {
        assert(t@ =~= octets_rien());
        Some(Message::Rien)
    } else {
        assert(t@ != octets_rien()) by {
            if t@ == octets_rien() {
                assert(t@[0] == 82 && t@[1] == 73 && t@[2] == 69 && t@[3] == 78);
            }
        }
        None
    }
}

/// Accusé de réception du récepteur, écrit comme `write!(ack, "ACK_{}:{}",
/// texte, s)` (ou sans `:{}` sans correction) dans un texte de 48 octets :
/// chaque morceau n'est ajouté que s'il tient, et l'écriture s'arrête au
/// premier qui ne tient pas.
pub open spec fn accuse_spec(texte: Seq<u8>, correction: Option<i64>) -> Seq<u8> {
    let a = octets_ack();
    if a.len() + texte.len() > 48 {
        a
    } else {
        let b = a + texte;
        match correction {
            None => b,
            Some(s) => if b.len() + 1 > 48 {
                b
            } else {
                let c = b.push(DEUX_POINTS);
                if c.len() + decimal(s as int).len() > 48 {
                    c
                } else {
                    c + decimal(s as int)
                }
            },
        }
    }
}

/// Construit l'accusé de réception du récepteur pour un paquet reçu.
/// Une correction d'horloge est toujours positive ou nulle.
pub fn accuse_reception(donnees: &[u8], correction: Option<i64>) -> (a: heapless::String<48>)
    requires
        correction matches Some(s) ==> s >= 0,
    ensures
        octets_texte48(a) == accuse_spec(texte_recepteur(donnees@), correction),
{
    let texte = texte_recu(donnees);
    let mut a = texte48_vide();
    proof {
        lemme_ack();
        lemme_deux_points();
    }
    let _ = texte48_ajouter(&mut a, "ACK_");
    let r = texte48_ajouter(&mut a, texte);
    if r.is_err() {
        return a;
    }
    match correction {
        None => a,
        Some(s) => {
            let r2 = texte48_ajouter(&mut a, ":");
            if r2.is_err() {
                return a;
            }
            let place = 48 - texte.len() - 5;
            if chiffres(s) <= place {
                let _ = texte48_ecrire_entier(&mut a, s);
            }
            a
        },
    }
}

/// Nombre de chiffres de l'écriture décimale d'un entier positif ou nul.
fn chiffres(s: i64) -> (k: usize)
    requires
        s >= 0,
    ensures
        k == decimal(s as int).len(),
{
    proof {
        lemme_longueur_decimal(s as int);
    }
    let mut k: usize = 1;
    let mut v: i64 = s;
    while v >= 10
        invariant
            0 <= v,
            1 <= k,
            decimal(s as int).len() <= 19,
            decimal(s as int).len() == decimal_nat(v as nat).len() + k - 1,
        decreases v,
    {
        v = v / 10;
        k = k + 1;
    }
    k
}

// ------------------------------------------------------------------ lois

/// Des octets ASCII forment de l'UTF-8 valide.
pub proof fn lemme_ascii_utf8(b: Seq<u8>)
    requires
        forall|i: int| 0 <= i < b.len() ==> #[trigger] b[i] < 0x80,
    ensures
        valid_utf8(b),
    decreases b.len(),
{
    if b.len() > 0 {
        let x = b[0];
        assert((x & 0x7F) as u32 == x as u32) by (bit_vector)
            requires x < 0x80;
        let reste = b.subrange(1, b.len() as int);
        assert(vstd::utf8::pop_first_scalar(b) =~= reste);
        assert forall|i: int| 0 <= i < reste.len() implies #[trigger] reste[i] < 0x80 by {
            assert(reste[i] == b[i + 1]);
        }
        lemme_ascii_utf8(reste);
    }
}

/// Les messages de l'émetteur sont en ASCII, de 17 octets au plus.
pub proof fn lemme_message_ascii(poids_g: Option<i32>)
    ensures
        forall|i: int| 0 <= i < message_spec(poids_g).len() ==> #[trigger] message_spec(poids_g)[i] < 0x80,
        message_spec(poids_g).len() <= 17,
{
    match poids_g {
        Some(g) => {
            lemme_decimal_ascii(g as int);
            lemme_longueur_decimal(g as int);
            let m = message_spec(poids_g);
            assert forall|i: int| 0 <= i < m.len() implies #[trigger] m[i] < 0x80 by {
                if i >= 6 {
                    assert(m[i] == decimal(g as int)[i - 6]);
                }
            }
        },
        None => {},
    }
}

/// Le récepteur comprend tout message de l'émetteur : `COLIS:<g>` est lu
/// comme un colis de `g` grammes, `RIEN` comme rien ; et l'émetteur
/// reconnaît l'accusé de réception que le récepteur lui rend pour ce
/// message, avec la correction d'horloge exacte qu'il porte (ou aucune).
pub proof fn loi_accuse_reconnu(poids_g: Option<i32>, correction: Option<i64>)
    requires
        correction matches Some(s) ==> s >= 0,
    ensures
        message_lu(message_spec(poids_g)) == Some(
            match poids_g {
                Some(g) => Message::Colis(g),
                None => Message::Rien,
            },
        ),
        analyse_accuse_spec(
            accuse_spec(texte_recepteur(message_spec(poids_g)), correction),
            accuse_attendu_spec(message_spec(poids_g)),
        ) == AnalyseAccuse::Accuse(
            match correction {
                Some(s) => Correction::Secondes(s as u64),
                None => Correction::Absente,
            },
        ),
{
    let m = message_spec(poids_g);
    lemme_message_ascii(poids_g);
    lemme_ascii_utf8(m);
    assert(texte_recepteur(m) == m);
    match poids_g {
        Some(g) => {
            assert(m.take(6) =~= octets_colis());
            assert(m.skip(6) =~= decimal(g as int));
            lemme_relire_i32(g);
        },
        None => {},
    }
    let attendu = accuse_attendu_spec(m);
    assert(attendu == octets_ack() + m);
    let b = octets_ack() + m;
    let ack = accuse_spec(m, correction);
    match correction {
        None => {
            assert(ack == b);
        },
        Some(s) => {
            lemme_longueur_decimal(s as int);
            lemme_decimal_ascii(s as int);
            lemme_relire_u64(s as u64);
            assert(ack == b.push(DEUX_POINTS) + decimal(s as int));
        },
    }
    assert forall|i: int| 0 <= i < ack.len() implies #[trigger] ack[i] < 0x80 by {
        if i >= 4 && i < 4 + m.len() {
            assert(ack[i] == m[i - 4]);
        }
        if correction is Some && i > 4 + m.len() {
            assert(ack[i] == decimal(correction->0 as int)[i - 5 - m.len()]);
        }
    }
    lemme_ascii_utf8(ack);
    assert(texte_emetteur(ack) == ack);
    assert(ack.take(attendu.len() as int) =~= attendu);
    let reste = ack.skip(attendu.len() as int);
    match correction {
        None => {
            assert(reste.len() == 0);
        },
        Some(s) => {
            assert(reste =~= seq![DEUX_POINTS] + decimal(s as int));
            assert(reste.drop_first() =~= decimal(s as int));
        },
    }
}

// ------------------------------------------------------------------ test de portée

pub open spec fn octets_ping() -> Seq<u8> {
    seq![80u8, 73, 78, 71, 32]
}

pub open spec fn octets_ack_ping() -> Seq<u8> {
    seq![65u8, 67, 75, 32]
}

proof fn lemme_ping()
    ensures
        "ACK ".spec_bytes() == octets_ack_ping(),
{
    reveal_strlit("ACK ");
    broadcast use vstd::string::is_ascii_spec_bytes;

    assert(vstd::string::is_ascii("ACK "));
    assert("ACK ".spec_bytes() =~= octets_ack_ping());
}

/// Réponse du récepteur de test à un paquet : pour `PING <n>`, l'accusé
/// `ACK <n>` (ou `ACK ` seul si le tout ne tient pas en 32 octets) ; rien
/// pour tout autre texte.
pub open spec fn reponse_ping_spec(texte: Seq<u8>) -> Option<Seq<u8>> {
    if texte.len() >= 5 && texte.take(5) == octets_ping() {
        let numero = texte.skip(5);
        Some(
            if octets_ack_ping().len() + numero.len() <= 32 {
                octets_ack_ping() + numero
            } else {
                octets_ack_ping()
            },
        )
    } else {
        None
    }
}

/// Après un préfixe ASCII de `k` octets, un texte UTF-8 valide a une
/// frontière de caractère.
proof fn lemme_frontiere_ascii(b: Seq<u8>, k: int)
    requires
        vstd::utf8::valid_utf8(b),
        0 <= k <= b.len(),
        forall|i: int| 0 <= i < k ==> #[trigger] b[i] < 0x80,
    ensures
        vstd::utf8::is_char_boundary(b, k),
    decreases k,
{
    if k > 0 {
        let reste = b.subrange(1, b.len() as int);
        assert(vstd::utf8::pop_first_scalar(b) =~= reste);
        assert forall|i: int| 0 <= i < k - 1 implies #[trigger] reste[i] < 0x80 by {
            assert(reste[i] == b[i + 1]);
        }
        lemme_frontiere_ascii(reste, k - 1);
    }
}

/// Réponse du récepteur de test au texte reçu.
pub fn reponse_ping(texte: &str) -> (r: Option<heapless::String<32>>)
    ensures
        r matches Some(a) ==> reponse_ping_spec(texte.spec_bytes()) == Some(octets_texte32(a)),
        r is None ==> reponse_ping_spec(texte.spec_bytes()) is None,
{
    let t = texte.as_bytes();
    if t.len() >= 5 && t[0] == 80 && t[1] == 73 && t[2] == 78 && t[3] == 71 && t[4] == 32 {
        assert(t@.take(5) =~= octets_ping());
        proof {
            vstd::utf8::encode_utf8_valid_utf8(texte@);
            lemme_frontiere_ascii(t@, 5);
        }
        let (_, numero) = texte.split_at(5);
        let mut a = texte32_vide();
        proof {
            lemme_ping();
        }
        let _ = texte32_ajouter(&mut a, "ACK ");
        let _ = texte32_ajouter(&mut a, numero);
        Some(a)
    } else {
        assert(t@.len() >= 5 ==> t@.take(5) != octets_ping()) by {
            if t@.len() >= 5 && t@.take(5) == octets_ping() {
                assert(t@.take(5)[0] == t@[0] && t@.take(5)[1] == t@[1] && t@.take(5)[2] == t@[2]
                    && t@.take(5)[3] == t@[3] && t@.take(5)[4] == t@[4]);
            }
        }
        None
    }
}

} // verus!
