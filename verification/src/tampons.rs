//! Tampons de capacité fixe de la bibliothèque `heapless` : trames SPI
//! (33 octets), données de paquet (32 octets) et messages texte (32 ou 48
//! octets). Leur contenu est nommé par une fonction de spécification par
//! type ; chaque opération utilisée est décrite telle que la source de
//! `heapless` la montre : une écriture qui ne tient pas dans la capacité
//! échoue sans rien modifier.

use vstd::prelude::*;
use crate::decimal::decimal;
use core::fmt::Write;
use vstd::string::StringSliceAdditionalSpecFns;

verus! {

#[verifier::external_type_specification]
#[verifier::external_body]
#[verifier::reject_recursive_types(T)]
pub struct ExVecFixe<T, const N: usize>(heapless::Vec<T, N>);

#[verifier::external_type_specification]
#[verifier::external_body]
pub struct ExChaineFixe<const N: usize>(heapless::String<N>);

#[verifier::external_type_specification]
#[verifier::external_body]
pub struct ExErreurFormat(core::fmt::Error);

/// Contenu d'un tampon de trame SPI (capacité 33 octets).
pub uninterp spec fn octets_trame(v: heapless::Vec<u8, 33>) -> Seq<u8>;

/// Contenu d'un tampon de données de paquet (capacité 32 octets).
pub uninterp spec fn octets_paquet(v: heapless::Vec<u8, 32>) -> Seq<u8>;

/// Octets d'un texte de capacité 32 octets.
pub uninterp spec fn octets_texte32(s: heapless::String<32>) -> Seq<u8>;

/// Octets d'un texte de capacité 48 octets.
pub uninterp spec fn octets_texte48(s: heapless::String<48>) -> Seq<u8>;

/// Octets d'un texte de capacité 64 octets.
pub uninterp spec fn octets_texte64(s: heapless::String<64>) -> Seq<u8>;

// ---------------------------------------------------------------- trames

/// `heapless::Vec::<u8, 33>::new` : une trame vide.
#[verifier::external_body]
pub(crate) fn trame_vide() -> (v: heapless::Vec<u8, 33>)
    ensures
        octets_trame(v) == Seq::<u8>::empty(),
{
    heapless::Vec::new()
}

/// `heapless::Vec::<u8, 33>::push` : ajoute l'octet s'il reste de la place,
/// sinon le rend en erreur sans rien modifier.
#[verifier::external_body]
pub(crate) fn trame_pousser(v: &mut heapless::Vec<u8, 33>, x: u8) -> (r: Result<(), u8>)
    ensures
        octets_trame(*old(v)).len() < 33 ==> r is Ok && octets_trame(*final(v))
            == octets_trame(*old(v)).push(x),
        octets_trame(*old(v)).len() >= 33 ==> r is Err && octets_trame(*final(v))
            == octets_trame(*old(v)),
{
    v.push(x)
}

/// `heapless::Vec::<u8, 33>::extend_from_slice` : ajoute tous les octets
/// s'ils tiennent ensemble, sinon échoue sans rien modifier.
#[verifier::external_body]
pub(crate) fn trame_etendre(v: &mut heapless::Vec<u8, 33>, o: &[u8]) -> (r: Result<(), ()>)
    ensures
        octets_trame(*old(v)).len() + o@.len() <= 33 ==> r is Ok && octets_trame(*final(v))
            == octets_trame(*old(v)) + o@,
        octets_trame(*old(v)).len() + o@.len() > 33 ==> r is Err && octets_trame(*final(v))
            == octets_trame(*old(v)),
{
    v.extend_from_slice(o)
}

/// `heapless::Vec::<u8, 33>::resize` : allonge avec `x` (ou raccourcit)
/// jusqu'à `n` octets si `n` tient dans la capacité, sinon échoue sans rien
/// modifier.
#[verifier::external_body]
pub(crate) fn trame_redimensionner(v: &mut heapless::Vec<u8, 33>, n: usize, x: u8) -> (r: Result<(), ()>)
    ensures
        n <= 33 ==> r is Ok && octets_trame(*final(v)) == (if n <= octets_trame(*old(v)).len() {
            octets_trame(*old(v)).take(n as int)
        } else {
            octets_trame(*old(v)) + Seq::new((n - octets_trame(*old(v)).len()) as nat, |i: int| x)
        }),
        n > 33 ==> r is Err && octets_trame(*final(v)) == octets_trame(*old(v)),
{
    v.resize(n, x)
}

/// `heapless::Vec::<u8, 33>::as_slice` : les octets de la trame.
#[verifier::external_body]
pub(crate) fn trame_octets(v: &heapless::Vec<u8, 33>) -> (o: &[u8])
    ensures
        o@ == octets_trame(*v),
{
    v.as_slice()
}

// ---------------------------------------------------------------- paquets

/// `heapless::Vec::<u8, 32>::new` : un paquet vide.
#[verifier::external_body]
pub(crate) fn paquet_vide() -> (v: heapless::Vec<u8, 32>)
    ensures
        octets_paquet(v) == Seq::<u8>::empty(),
{
    heapless::Vec::new()
}

/// `heapless::Vec::<u8, 32>::extend_from_slice` : ajoute tous les octets
/// s'ils tiennent ensemble, sinon échoue sans rien modifier.
#[verifier::external_body]
pub(crate) fn paquet_etendre(v: &mut heapless::Vec<u8, 32>, o: &[u8]) -> (r: Result<(), ()>)
    ensures
        octets_paquet(*old(v)).len() + o@.len() <= 32 ==> r is Ok && octets_paquet(*final(v))
            == octets_paquet(*old(v)) + o@,
        octets_paquet(*old(v)).len() + o@.len() > 32 ==> r is Err && octets_paquet(*final(v))
            == octets_paquet(*old(v)),
{
    v.extend_from_slice(o)
}

/// `heapless::Vec::<u8, 32>::as_slice` : les octets du paquet.
#[verifier::external_body]
pub(crate) fn paquet_octets(v: &heapless::Vec<u8, 32>) -> (o: &[u8])
    ensures
        o@ == octets_paquet(*v),
{
    v.as_slice()
}

// ---------------------------------------------------------------- textes

/// `heapless::String::<32>::new` : un texte vide.
#[verifier::external_body]
pub(crate) fn texte32_vide() -> (s: heapless::String<32>)
    ensures
        octets_texte32(s) == Seq::<u8>::empty(),
{
    heapless::String::new()
}

/// `heapless::String::<32>::push_str` : ajoute les octets de `t` s'ils
/// tiennent, sinon échoue sans rien modifier.
#[verifier::external_body]
pub(crate) fn texte32_ajouter(s: &mut heapless::String<32>, t: &str) -> (r: Result<(), ()>)
    ensures
        octets_texte32(*old(s)).len() + t.spec_bytes().len() <= 32 ==> r is Ok
            && octets_texte32(*final(s)) == octets_texte32(*old(s)) + t.spec_bytes(),
        octets_texte32(*old(s)).len() + t.spec_bytes().len() > 32 ==> r is Err
            && octets_texte32(*final(s)) == octets_texte32(*old(s)),
{
    s.push_str(t)
}

/// `write!(s, "{}", n)` sur un `heapless::String::<32>` : quand l'écriture
/// décimale de `n` tient dans la place restante, elle est ajoutée.
#[verifier::external_body]
pub(crate) fn texte32_ecrire_entier(s: &mut heapless::String<32>, n: i64) -> (r: Result<(), core::fmt::Error>)
    requires
        octets_texte32(*old(s)).len() + decimal(n as int).len() <= 32,
    ensures
        r is Ok,
        octets_texte32(*final(s)) == octets_texte32(*old(s)) + decimal(n as int),
{
    write!(s, "{}", n)
}

/// `heapless::String::<32>::as_str` : le texte, dont les octets sont
/// ceux du tampon.
#[verifier::external_body]
pub(crate) fn texte32_str(s: &heapless::String<32>) -> (t: &str)
    ensures
        t.spec_bytes() == octets_texte32(*s),
{
    s.as_str()
}

/// `heapless::String::<32>::try_from(t)` : le texte si ses octets tiennent
/// en 32, sinon une erreur.
#[verifier::external_body]
pub(crate) fn texte32_depuis(t: &str) -> (r: Result<heapless::String<32>, ()>)
    ensures
        t.spec_bytes().len() <= 32 ==> r is Ok && octets_texte32(r->Ok_0) == t.spec_bytes(),
        t.spec_bytes().len() > 32 ==> r is Err,
{
    heapless::String::try_from(t)
}

/// `heapless::String::<64>::try_from(t)` : le texte si ses octets tiennent
/// en 64, sinon une erreur.
#[verifier::external_body]
pub(crate) fn texte64_depuis(t: &str) -> (r: Result<heapless::String<64>, ()>)
    ensures
        t.spec_bytes().len() <= 64 ==> r is Ok && octets_texte64(r->Ok_0) == t.spec_bytes(),
        t.spec_bytes().len() > 64 ==> r is Err,
{
    heapless::String::try_from(t)
}

/// `heapless::String::<48>::new` : un texte vide.
#[verifier::external_body]
pub(crate) fn texte48_vide() -> (s: heapless::String<48>)
    ensures
        octets_texte48(s) == Seq::<u8>::empty(),
{
    heapless::String::new()
}

/// `heapless::String::<48>::push_str` : ajoute les octets de `t` s'ils
/// tiennent, sinon échoue sans rien modifier.
#[verifier::external_body]
pub(crate) fn texte48_ajouter(s: &mut heapless::String<48>, t: &str) -> (r: Result<(), ()>)
    ensures
        octets_texte48(*old(s)).len() + t.spec_bytes().len() <= 48 ==> r is Ok
            && octets_texte48(*final(s)) == octets_texte48(*old(s)) + t.spec_bytes(),
        octets_texte48(*old(s)).len() + t.spec_bytes().len() > 48 ==> r is Err
            && octets_texte48(*final(s)) == octets_texte48(*old(s)),
{
    s.push_str(t)
}

/// `write!(s, "{}", n)` sur un `heapless::String::<48>` : quand l'écriture
/// décimale de `n` tient dans la place restante, elle est ajoutée.
#[verifier::external_body]
pub(crate) fn texte48_ecrire_entier(s: &mut heapless::String<48>, n: i64) -> (r: Result<(), core::fmt::Error>)
    requires
        octets_texte48(*old(s)).len() + decimal(n as int).len() <= 48,
    ensures
        r is Ok,
        octets_texte48(*final(s)) == octets_texte48(*old(s)) + decimal(n as int),
{
    write!(s, "{}", n)
}

} // verus!
