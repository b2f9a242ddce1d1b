//! Écriture décimale des entiers et lecture d'entiers décimaux dans un texte
//! ASCII, selon les règles de `str::parse` pour `u64` et `i32` : signe
//! facultatif, au moins un chiffre, rien d'autre, valeur dans l'intervalle
//! du type.

use vstd::prelude::*;

verus! {

/// Code ASCII de `0`.
pub const CHIFFRE_ZERO: u8 = 48;

/// Un octet est un chiffre ASCII.
pub open spec fn est_chiffre(c: u8) -> bool {
    48 <= c <= 57
}

/// Tous les octets sont des chiffres ASCII.
pub open spec fn que_des_chiffres(s: Seq<u8>) -> bool {
    forall|i: int| 0 <= i < s.len() ==> est_chiffre(#[trigger] s[i])
}

/// Valeur d'une suite de chiffres décimaux (le premier est le plus fort).
pub open spec fn valeur_chiffres(s: Seq<u8>) -> nat
    decreases s.len(),
{
    if s.len() == 0 {
        0
    } else {
        valeur_chiffres(s.drop_last()) * 10 + (s.last() - 48) as nat
    }
}

/// Écriture décimale d'un entier naturel, sans zéro de tête.
pub open spec fn decimal_nat(n: nat) -> Seq<u8>
    decreases n,
{
    if n < 10 {
        seq![(48 + n) as u8]
    } else {
        decimal_nat(n / 10).push((48 + n % 10) as u8)
    }
}

/// Écriture décimale d'un entier relatif, précédée de `-` s'il est négatif
/// (c'est ce qu'écrit `{}` pour un entier).
pub open spec fn decimal(n: int) -> Seq<u8> {
    if n < 0 {
        seq![45u8] + decimal_nat((-n) as nat)
    } else {
        decimal_nat(n as nat)
    }
}

/// Le texte sans son signe `+` de tête, s'il en a un.
pub open spec fn sans_plus(s: Seq<u8>) -> Seq<u8> {
    if s.len() > 0 && s[0] == 43 {
        s.drop_first()
    } else {
        s
    }
}

/// Ce que `str::parse::<u64>` rend pour ce texte : `+` facultatif, au moins
/// un chiffre, rien d'autre, valeur au plus `u64::MAX`.
pub open spec fn lecture_u64(s: Seq<u8>) -> Option<u64> {
    let corps = sans_plus(s);
    if corps.len() > 0 && que_des_chiffres(corps) && valeur_chiffres(corps) <= u64::MAX {
        Some(valeur_chiffres(corps) as u64)
    } else {
        None
    }
}

/// Ce que `str::parse::<i32>` rend pour ce texte : `+` ou `-` facultatif,
/// au moins un chiffre, rien d'autre, valeur dans l'intervalle de `i32`.
pub open spec fn lecture_i32(s: Seq<u8>) -> Option<i32> {
    if s.len() > 0 && s[0] == 45 {
        let corps = s.drop_first();
        if corps.len() > 0 && que_des_chiffres(corps) && valeur_chiffres(corps) <= 0x8000_0000 {
            Some((0 - valeur_chiffres(corps)) as i32)
        } else {
            None
        }
    } else {
        let corps = sans_plus(s);
        if corps.len() > 0 && que_des_chiffres(corps) && valeur_chiffres(corps) <= i32::MAX {
            Some(valeur_chiffres(corps) as i32)
        } else {
            None
        }
    }
}

/// Ajouter un chiffre au bout multiplie la valeur par dix et ajoute ce chiffre.
pub proof fn lemme_valeur_pousser(s: Seq<u8>, c: u8)
    ensures
        valeur_chiffres(s.push(c)) == valeur_chiffres(s) * 10 + (c - 48) as nat,
{
    assert(s.push(c).drop_last() =~= s);
}

/// Sur des chiffres, la valeur d'un préfixe ne dépasse pas celle du tout.
pub proof fn lemme_valeur_prefixe(s: Seq<u8>, i: int)
    requires
        0 <= i <= s.len(),
        que_des_chiffres(s),
    ensures
        valeur_chiffres(s.take(i)) <= valeur_chiffres(s),
    decreases s.len() - i,
{
    if i < s.len() {
        lemme_valeur_prefixe(s, i + 1);
        assert(s.take(i + 1) =~= s.take(i).push(s[i]));
        lemme_valeur_pousser(s.take(i), s[i]);
    } else {
        assert(s.take(i) =~= s);
    }
}

/// Valeur des chiffres `s[debut..]`, calculée en s'arrêtant dès qu'elle
/// dépasse `borne` : `Some(v)` si tous sont des chiffres et `v <= borne`,
/// sinon `None`.
fn valeur_bornee(s: &[u8], debut: usize, borne: u64) -> (r: Option<u64>)
    requires
        debut <= s@.len(),
        borne >= 9,
    ensures
        r == (if que_des_chiffres(s@.skip(debut as int)) && valeur_chiffres(s@.skip(debut as int)) <= borne {
            Some(valeur_chiffres(s@.skip(debut as int)) as u64)
        } else {
            None::<u64>
        }),
{
    let ghost corps = s@.skip(debut as int);
    let mut v: u64 = 0;
    let mut i: usize = debut;
    while i < s.len()
        invariant
            debut <= i <= s@.len(),
            corps == s@.skip(debut as int),
            que_des_chiffres(corps.take(i - debut)),
            v == valeur_chiffres(corps.take(i - debut)),
            v <= borne,
            borne >= 9,
        decreases s@.len() - i,
    {
        let c = s[i];
        proof {
            assert(corps.take(i + 1 - debut) =~= corps.take(i - debut).push(c));
            lemme_valeur_pousser(corps.take(i - debut), c);
        }
        if c < 48 || c > 57 {
            assert(!est_chiffre(corps[i - debut]));
            return None;
        }
        let d: u64 = (c - 48) as u64;
        if v > (borne - d) / 10 {
            proof {
                assert(v * 10 + d > borne) by (nonlinear_arith)
                    requires v > (borne - d) / 10, d <= 9, d <= borne;
                assert(que_des_chiffres(corps.take(i + 1 - debut)));
                if que_des_chiffres(corps) {
                    lemme_valeur_prefixe(corps, i + 1 - debut);
                }
            }
            return None;
        }
        proof {
            assert(v * 10 + d <= borne) by (nonlinear_arith)
                requires v <= (borne - d) / 10, d <= borne;
        }
        v = v * 10 + d;
        i = i + 1;
    }
    assert(corps.take(i - debut) =~= corps);
    Some(v)
}

/// Lit un `u64` écrit en décimal, comme `str::parse::<u64>`.
pub fn lire_u64(s: &[u8]) -> (r: Option<u64>)
    ensures
        r == lecture_u64(s@),
{
    let debut: usize = if s.len() > 0 && s[0] == 43 { 1 } else { 0 };
    assert(s@.skip(debut as int) =~= sans_plus(s@));
    if debut >= s.len() {
        return None;
    }
    valeur_bornee(s, debut, u64::MAX)
}

/// Lit un `i32` écrit en décimal, comme `str::parse::<i32>`.
pub fn lire_i32(s: &[u8]) -> (r: Option<i32>)
    ensures
        r == lecture_i32(s@),
{
    if s.len() > 0 && s[0] == 45 {
        assert(s@.skip(1) =~= s@.drop_first());
        if s.len() == 1 {
            return None;
        }
        match valeur_bornee(s, 1, 0x8000_0000) {
            Some(v) => {
                let n: i64 = 0 - (v as i64);
                Some(n as i32)
            },
            None => None,
        }
    } else {
        let debut: usize = if s.len() > 0 && s[0] == 43 { 1 } else { 0 };
        assert(s@.skip(debut as int) =~= sans_plus(s@));
        if debut >= s.len() {
            return None;
        }
        match valeur_bornee(s, debut, 0x7fff_ffff) {
            Some(v) => Some(v as i32),
            None => None,
        }
    }
}

/// 10 puissance `k`.
pub open spec fn puissance10(k: nat) -> nat
    decreases k,
{
    if k == 0 {
        1
    } else {
        10 * puissance10((k - 1) as nat)
    }
}

/// Un entier naturel sous 10^k s'écrit en au plus k chiffres (k >= 1).
pub proof fn lemme_longueur_decimal_nat(n: nat, k: nat)
    requires
        n < puissance10(k),
        k >= 1,
    ensures
        decimal_nat(n).len() <= k,
    decreases k,
{
    if n >= 10 {
        if k == 1 {
            assert(puissance10(1) == 10) by {
                reveal_with_fuel(puissance10, 2);
            }
        }
        assert(n / 10 < puissance10((k - 1) as nat));
        lemme_longueur_decimal_nat(n / 10, (k - 1) as nat);
    }
}

/// L'écriture décimale d'un entier de 32 bits (signé ou non) a au plus 11
/// octets, 10 s'il est positif ou nul ; celle d'un `i64` positif ou nul au
/// plus 19.
pub proof fn lemme_longueur_decimal(n: int)
    requires
        -0x8000_0000 <= n <= 0x7fff_ffff_ffff_ffff,
    ensures
        -0x8000_0000 <= n <= 0xffff_ffff ==> decimal(n).len() <= 11,
        0 <= n <= 0xffff_ffff ==> decimal(n).len() <= 10,
        n >= 0 ==> decimal(n).len() <= 19,
{
    assert(puissance10(10) == 10_000_000_000) by {
        reveal_with_fuel(puissance10, 11);
    }
    assert(puissance10(19) == 10_000_000_000_000_000_000) by {
        reveal_with_fuel(puissance10, 20);
    }
    if n < 0 {
        lemme_longueur_decimal_nat((-n) as nat, 10);
    } else if n <= 0xffff_ffff {
        lemme_longueur_decimal_nat(n as nat, 10);
    } else {
        lemme_longueur_decimal_nat(n as nat, 19);
    }
}

/// L'écriture décimale d'un entier naturel est faite de chiffres, a au
/// moins un chiffre, et vaut cet entier.
pub proof fn lemme_decimal_nat(n: nat)
    ensures
        decimal_nat(n).len() >= 1,
        que_des_chiffres(decimal_nat(n)),
        valeur_chiffres(decimal_nat(n)) == n,
    decreases n,
{
    if n >= 10 {
        lemme_decimal_nat(n / 10);
        lemme_valeur_pousser(decimal_nat(n / 10), (48 + n % 10) as u8);
        assert(n == (n / 10) * 10 + n % 10) by (nonlinear_arith);
        assert forall|i: int| 0 <= i < decimal_nat(n).len() implies est_chiffre(#[trigger] decimal_nat(n)[i]) by {
            if i < decimal_nat(n / 10).len() {
                assert(decimal_nat(n)[i] == decimal_nat(n / 10)[i]);
            }
        }
    } else {
        lemme_valeur_pousser(Seq::<u8>::empty(), (48 + n) as u8);
        assert(Seq::<u8>::empty().push((48 + n) as u8) =~= seq![(48 + n) as u8]);
    }
}

/// Relire l'écriture décimale d'un `u64` redonne ce nombre.
pub proof fn lemme_relire_u64(x: u64)
    ensures
        lecture_u64(decimal(x as int)) == Some(x),
{
    lemme_decimal_nat(x as nat);
    assert(decimal(x as int) == decimal_nat(x as nat));
    assert(sans_plus(decimal_nat(x as nat)) == decimal_nat(x as nat));
}

/// Relire l'écriture décimale d'un `i32` redonne ce nombre.
pub proof fn lemme_relire_i32(g: i32)
    ensures
        lecture_i32(decimal(g as int)) == Some(g),
{
    if g < 0 {
        let c = decimal_nat((-g) as nat);
        lemme_decimal_nat((-g) as nat);
        assert((seq![45u8] + c).drop_first() =~= c);
        assert((seq![45u8] + c)[0] == 45);
    } else {
        lemme_decimal_nat(g as nat);
        assert(sans_plus(decimal_nat(g as nat)) == decimal_nat(g as nat));
    }
}

/// L'écriture décimale d'un entier n'a que des octets ASCII (chiffres et
/// `-`).
pub proof fn lemme_decimal_ascii(n: int)
    ensures
        forall|i: int| 0 <= i < decimal(n).len() ==> #[trigger] decimal(n)[i] < 0x80,
{
    if n < 0 {
        lemme_decimal_nat((-n) as nat);
        assert forall|i: int| 0 <= i < decimal(n).len() implies #[trigger] decimal(n)[i] < 0x80 by {
            if i > 0 {
                assert(decimal(n)[i] == decimal_nat((-n) as nat)[i - 1]);
            }
        }
    } else {
        lemme_decimal_nat(n as nat);
    }
}

} // verus!
