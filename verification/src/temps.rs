//! Heure de Paris et prochain réveil de l'émetteur.
//!
//! Une date-heure "naïve" (sans fuseau) est représentée par son nombre de
//! secondes depuis le 1er janvier 1970 à 00:00:00, comme
//! `chrono::NaiveDateTime::and_utc().timestamp()` : chaque jour compte
//! 86 400 secondes et commence à un multiple de 86 400. Ajouter une durée,
//! passer au jour précédent ou suivant, ou mesurer un écart en secondes
//! sont alors des additions et des soustractions. Le calendrier (année d'un
//! instant, minuit d'une date, jour de la semaine, heure d'un jour) est
//! demandé à `chrono`.
//!
//! Règle européenne : l'heure d'été va du dernier dimanche de mars 01h00
//! UTC au dernier dimanche d'octobre 01h00 UTC ; Paris est à UTC+2 pendant
//! l'heure d'été, UTC+1 sinon.

use vstd::prelude::*;

verus! {

/// Première année que `chrono::NaiveDate` représente.
pub const ANNEE_MIN: i32 = -262143;
/// Dernière année que `chrono::NaiveDate` représente.
pub const ANNEE_MAX: i32 = 262142;
/// Premier instant représentable : 1er janvier de `ANNEE_MIN`, 00:00:00.
pub const INSTANT_MIN: i64 = -8_334_601_228_800;
/// Dernier instant représentable (à la seconde) : 31 décembre de
/// `ANNEE_MAX`, 23:59:59.
pub const INSTANT_MAX: i64 = 8_210_266_876_799;
/// Secondes par jour.
pub const JOUR: i64 = 86_400;
/// Secondes par heure.
pub const HEURE: i64 = 3_600;

/// L'instant est représentable par `chrono`.
pub open spec fn instant_valide(t: int) -> bool {
    INSTANT_MIN <= t <= INSTANT_MAX
}

/// L'année est bissextile (calendrier grégorien proleptique).
pub open spec fn bissextile(a: int) -> bool {
    (a % 4 == 0 && a % 100 != 0) || a % 400 == 0
}

/// Nombre de jours du mois.
pub open spec fn jours_du_mois(a: int, m: int) -> int {
    if m == 2 {
        if bissextile(a) { 29 } else { 28 }
    } else if m == 4 || m == 6 || m == 9 || m == 11 {
        30
    } else {
        31
    }
}

/// La date existe et `chrono` la représente.
pub open spec fn date_valide(a: int, m: int, j: int) -> bool {
    &&& ANNEE_MIN <= a <= ANNEE_MAX
    &&& 1 <= m <= 12
    &&& 1 <= j <= jours_du_mois(a, m)
}

/// Année civile de l'instant `t`, selon `chrono`.
pub uninterp spec fn annee_civile(t: i64) -> i32;

/// Instant de minuit (00:00:00) de la date `a`-`m`-`j`, selon `chrono`.
pub uninterp spec fn minuit_civil(a: i32, m: u32, j: u32) -> i64;

/// `chrono::DateTime::from_timestamp(t, 0)` puis `Datelike::year` : l'année
/// de l'instant, qui est dans l'intervalle des années représentables.
#[verifier::external_body]
fn annee_de(t: i64) -> (a: i32)
    requires
        instant_valide(t as int),
    ensures
        a == annee_civile(t),
        ANNEE_MIN <= a <= ANNEE_MAX,
{
    chrono::Datelike::year(&chrono::DateTime::from_timestamp(t, 0).unwrap().naive_utc())
}

/// `chrono::NaiveDate::from_ymd_opt(a, m, j)` puis `and_hms_opt(0, 0, 0)` et
/// `and_utc().timestamp()` : l'instant de minuit de cette date, début d'un
/// jour représentable, au moins `j - 1` jours après le premier instant
/// représentable.
#[verifier::external_body]
fn minuit_du(a: i32, m: u32, j: u32) -> (t: i64)
    requires
        date_valide(a as int, m as int, j as int),
    ensures
        t == minuit_civil(a, m, j),
        t as int % JOUR as int == 0,
        INSTANT_MIN + (j - 1) * JOUR <= t <= INSTANT_MAX - (JOUR - 1),
{
    chrono::NaiveDate::from_ymd_opt(a, m, j).unwrap().and_hms_opt(0, 0, 0).unwrap().and_utc().timestamp()
}

/// `Datelike::weekday` puis `Weekday::num_days_from_monday` sur la date de
/// l'instant `t` : 0 pour lundi, ..., 6 pour dimanche. Le 1er janvier 1970
/// était un jeudi (3), et chaque jour avance d'un rang modulo 7.
#[verifier::external_body]
fn jour_semaine(t: i64) -> (w: u32)
    requires
        instant_valide(t as int),
    ensures
        w as int == (t as int / JOUR as int + 3) % 7,
{
    chrono::Datelike::weekday(&chrono::DateTime::from_timestamp(t, 0).unwrap().naive_utc()).num_days_from_monday()
}

/// `DateTime::date_naive` puis `NaiveDate::and_hms_opt(heure, 0, 0)` et
/// `and_utc().timestamp()` : l'instant à `heure`:00:00 le jour de `t`.
#[verifier::external_body]
fn a_heure(t: i64, heure: u32) -> (r: i64)
    requires
        instant_valide(t as int),
        heure < 24,
    ensures
        r as int == (t as int / JOUR as int) * JOUR + heure * HEURE,
{
    chrono::DateTime::from_timestamp(t, 0).unwrap().date_naive().and_hms_opt(heure, 0, 0).unwrap().and_utc().timestamp()
}

// ------------------------------------------------------------------ dimanches

/// Minuit du dernier dimanche au plus tard le jour de minuit `t` : on
/// recule d'autant de jours qu'il en faut pour tomber sur un dimanche.
pub open spec fn recul_dimanche(t: int) -> int {
    t - JOUR * ((t / JOUR as int + 4) % 7)
}

/// Recule jour par jour depuis le minuit `minuit` jusqu'à un dimanche.
pub fn dernier_dimanche_depuis(minuit: i64) -> (d: i64)
    requires
        minuit as int % JOUR as int == 0,
        INSTANT_MIN + 6 * JOUR <= minuit <= INSTANT_MAX,
    ensures
        d == recul_dimanche(minuit as int),
{
    let mut jour = minuit;
    let ghost k: int = 0;
    while jour_semaine(jour) != 6
        invariant
            0 <= k <= 6,
            jour == minuit - k * JOUR,
            k <= (minuit as int / JOUR as int + 4) % 7,
            minuit as int % JOUR as int == 0,
            INSTANT_MIN + 6 * JOUR <= minuit <= INSTANT_MAX,
        decreases 6 - k,
    {
        proof {
            assert((jour as int) / (JOUR as int) == minuit as int / JOUR as int - k) by (nonlinear_arith)
                requires jour == minuit - k * JOUR, minuit as int % JOUR as int == 0;
        }
        jour = jour - JOUR;
        proof {
            k = k + 1;
        }
    }
    proof {
        assert((jour as int) / (JOUR as int) == minuit as int / JOUR as int - k) by (nonlinear_arith)
            requires jour == minuit - k * JOUR, minuit as int % JOUR as int == 0;
    }
    jour
}

/// Minuit du dernier dimanche du mois `m` de l'année `a` (un mois de 31
/// jours).
pub open spec fn dernier_dimanche_spec(a: i32, m: u32) -> int {
    recul_dimanche(minuit_civil(a, m, 31) as int)
}

/// Renvoie le minuit du dernier dimanche d'un mois de 31 jours (mars et
/// octobre en ont 31).
pub fn dernier_dimanche(annee: i32, mois: u32) -> (d: i64)
    requires
        ANNEE_MIN <= annee <= ANNEE_MAX,
        mois == 1 || mois == 3 || mois == 5 || mois == 7 || mois == 8 || mois == 10 || mois == 12,
    ensures
        d == dernier_dimanche_spec(annee, mois),
{
    let minuit = minuit_du(annee, mois, 31);
    dernier_dimanche_depuis(minuit)
}

// ------------------------------------------------------------------ heure d'été

/// L'instant UTC `utc` est dans la période d'heure d'été de l'année dont
/// le 31 mars et le 31 octobre commencent aux instants `mars31` et
/// `octobre31` : du dernier dimanche de mars 01h00 au dernier dimanche
/// d'octobre 01h00 (exclu).
pub open spec fn ete_selon_spec(utc: int, mars31: int, octobre31: int) -> bool {
    recul_dimanche(mars31) + HEURE <= utc < recul_dimanche(octobre31) + HEURE
}

/// Heure d'été à l'instant `utc` (règle européenne), l'année étant celle de
/// `utc`.
pub open spec fn heure_ete(utc: i64) -> bool {
    let a = annee_civile(utc);
    ete_selon_spec(utc as int, minuit_civil(a, 3, 31) as int, minuit_civil(a, 10, 31) as int)
}

/// Décide l'heure d'été à partir des minuits du 31 mars et du 31 octobre
/// de l'année de `utc`.
pub fn ete_selon(utc: i64, mars31: i64, octobre31: i64) -> (b: bool)
    requires
        mars31 as int % JOUR as int == 0,
        octobre31 as int % JOUR as int == 0,
        INSTANT_MIN + 6 * JOUR <= mars31 <= INSTANT_MAX,
        INSTANT_MIN + 6 * JOUR <= octobre31 <= INSTANT_MAX,
    ensures
        b == ete_selon_spec(utc as int, mars31 as int, octobre31 as int),
{
    let debut = dernier_dimanche_depuis(mars31) + HEURE;
    let fin = dernier_dimanche_depuis(octobre31) + HEURE;
    utc >= debut && utc < fin
}

/// Règle européenne : heure d'été du dernier dimanche de mars 01h00 UTC au
/// dernier dimanche d'octobre 01h00 UTC.
pub fn heure_ete_active(utc: i64) -> (b: bool)
    requires
        instant_valide(utc as int),
    ensures
        b == heure_ete(utc),
        minuit_civil(annee_civile(utc), 3, 31) as int % JOUR as int == 0,
        minuit_civil(annee_civile(utc), 10, 31) as int % JOUR as int == 0,
{
    let annee = annee_de(utc);
    let mars31 = minuit_du(annee, 3, 31);
    let octobre31 = minuit_du(annee, 10, 31);
    ete_selon(utc, mars31, octobre31)
}

/// Décalage de l'heure de Paris sur UTC, en heures.
pub open spec fn decalage_paris(utc: i64) -> int {
    if heure_ete(utc) { 2 } else { 1 }
}

/// Convertit une date-heure UTC en heure locale Europe/Paris (CET/CEST).
pub fn vers_heure_paris(utc: i64) -> (local: i64)
    requires
        INSTANT_MIN <= utc,
        utc + decalage_paris(utc) * HEURE <= INSTANT_MAX,
    ensures
        local == utc + decalage_paris(utc) * HEURE,
{
    let decalage: i64 = if heure_ete_active(utc) { 2 } else { 1 };
    utc + decalage * HEURE
}

// ------------------------------------------------------------------ réveil

/// Prochain 12h00 ou 18h00 strictement après `local` : aujourd'hui s'il en
/// reste un, sinon demain 12h00.
pub open spec fn prochain_reveil(local: int) -> int {
    let minuit = (local / JOUR as int) * JOUR;
    if local < minuit + 12 * HEURE {
        minuit + 12 * HEURE
    } else if local < minuit + 18 * HEURE {
        minuit + 18 * HEURE
    } else {
        minuit + JOUR + 12 * HEURE
    }
}

/// Nombre de secondes entre `local` (heure locale Paris) et le prochain
/// 12h00 ou 18h00 (le plus proche des deux, aujourd'hui ou demain si les
/// deux sont déjà passés).
pub fn secondes_jusqu_au_prochain_reveil(local: i64) -> (s: i64)
    requires
        INSTANT_MIN <= local,
        local < INSTANT_MAX - (JOUR - 1),
    ensures
        s == prochain_reveil(local as int) - local,
{
    let candidats: [i64; 3] = [a_heure(local, 12), a_heure(local, 18), a_heure(local + JOUR, 12)];
    proof {
        assert((local + JOUR) as int / JOUR as int == local as int / JOUR as int + 1) by (nonlinear_arith);
    }
    let mut meilleur: i64 = candidats[2];
    let mut i: usize = 0;
    while i < 2
        invariant
            0 <= i <= 2,
            candidats@.len() == 3,
            candidats@[0] == (local as int / JOUR as int) * JOUR + 12 * HEURE,
            candidats@[1] == (local as int / JOUR as int) * JOUR + 18 * HEURE,
            candidats@[2] == (local as int / JOUR as int) * JOUR + JOUR + 12 * HEURE,
            meilleur > local,
            meilleur == (if i >= 1 && candidats@[0] > local {
                candidats@[0]
            } else if i >= 2 && candidats@[1] > local {
                candidats@[1]
            } else {
                candidats@[2]
            }),
        decreases 2 - i,
    {
        let c = candidats[i];
        if c > local && c < meilleur {
            meilleur = c;
        }
        i = i + 1;
    }
    proof {
        assert(local as int - (local as int / JOUR as int) * JOUR >= 0) by (nonlinear_arith);
    }
    meilleur - local
}

// ------------------------------------------------------------------ correction d'horloge

/// La valeur d'un `u64` lue comme un `i64` (ce que donne `as i64`).
pub open spec fn en_i64(x: u64) -> int {
    if x <= i64::MAX as u64 { x as int } else { x as int - 0x1_0000_0000_0000_0000 }
}

fn vers_i64(x: u64) -> (r: i64)
    ensures
        r as int == en_i64(x),
{
    if x <= i64::MAX as u64 {
        x as i64
    } else {
        let haut: i64 = (x - 0x8000_0000_0000_0000) as i64;
        haut - 0x7fff_ffff_ffff_ffff - 1
    }
}

/// Correction d'horloge que le récepteur joint à l'accusé : le nombre de
/// secondes entre l'heure de Paris et le prochain 12h00 ou 18h00, quand
/// l'heure UTC est connue (`maintenant_s`, secondes depuis 1970, converti
/// en `i64` comme par `as`) et représentable. Rien si l'heure n'est pas
/// connue, hors de l'intervalle de `chrono`, ou si l'heure de Paris ou le
/// lendemain sortent de cet intervalle (fin de l'an 262142, où `chrono`
/// ne peut plus calculer).
pub open spec fn correction_spec(maintenant_s: Option<u64>) -> Option<int> {
    match maintenant_s {
        None => None,
        Some(x) => {
            let t = en_i64(x);
            if !instant_valide(t) {
                None
            } else {
                let local = t + decalage_paris(t as i64) * HEURE;
                if local >= INSTANT_MAX - (JOUR - 1) {
                    None
                } else {
                    Some(prochain_reveil(local) - local)
                }
            }
        },
    }
}

/// Calcule la correction d'horloge à joindre à l'accusé de réception.
pub fn correction_horloge(maintenant_s: Option<u64>) -> (r: Option<i64>)
    ensures
        r matches Some(s) ==> correction_spec(maintenant_s) == Some(s as int) && s > 0,
        r is None ==> correction_spec(maintenant_s) is None,
{
    match maintenant_s {
        None => None,
        Some(x) => {
            let t = vers_i64(x);
            if t < INSTANT_MIN || t > INSTANT_MAX {
                return None;
            }
            let decalage: i64 = if heure_ete_active(t) { 2 } else { 1 };
            if t >= INSTANT_MAX - (JOUR - 1) - decalage * HEURE {
                return None;
            }
            let local = vers_heure_paris(t);
            proof {
                loi_prochain_reveil(local as int);
            }
            Some(secondes_jusqu_au_prochain_reveil(local))
        },
    }
}

// ------------------------------------------------------------------ lois

/// Le prochain réveil est strictement dans le futur, au plus 36 h plus
/// tard, tombe à 12h00 ou 18h00, et aucun 12h00 ni 18h00 n'est plus
/// proche.
pub proof fn loi_prochain_reveil(local: int)
    ensures
        0 < prochain_reveil(local) - local <= 36 * HEURE,
        prochain_reveil(local) % JOUR as int == 12 * HEURE || prochain_reveil(local) % JOUR as int
            == 18 * HEURE,
        forall|u: int|
            local < u < prochain_reveil(local) ==> #[trigger] (u % JOUR as int) != 12 * HEURE && u
                % JOUR as int != 18 * HEURE,
{
    let m = (local / JOUR as int) * JOUR;
    assert(m <= local < m + JOUR) by (nonlinear_arith)
        requires m == (local / JOUR as int) * JOUR;
    assert((m + 12 * HEURE) % JOUR as int == 12 * HEURE) by (nonlinear_arith)
        requires m == (local / JOUR as int) * JOUR;
    assert((m + 18 * HEURE) % JOUR as int == 18 * HEURE) by (nonlinear_arith)
        requires m == (local / JOUR as int) * JOUR;
    assert((m + JOUR + 12 * HEURE) % JOUR as int == 12 * HEURE) by (nonlinear_arith)
        requires m == (local / JOUR as int) * JOUR;
    assert forall|u: int| local < u < prochain_reveil(local) implies #[trigger] (u % JOUR as int)
        != 12 * HEURE && u % JOUR as int != 18 * HEURE by {
        assert(u % JOUR as int == u - m || u % JOUR as int == u - m - JOUR) by (nonlinear_arith)
            requires m == (local / JOUR as int) * JOUR, m <= local < u, u < m + 2 * JOUR;
    }
}

/// Le recul jusqu'au dimanche tombe sur un dimanche, au plus six jours
/// avant : depuis le dernier jour d'un mois, c'est le dernier dimanche du
/// mois.
pub proof fn loi_dernier_dimanche(t: int)
    requires
        t % JOUR as int == 0,
    ensures
        (recul_dimanche(t) / JOUR as int + 3) % 7 == 6,
        t - 6 * JOUR <= recul_dimanche(t) <= t,
        recul_dimanche(t) % JOUR as int == 0,
{
    let k = (t / JOUR as int + 4) % 7;
    assert(recul_dimanche(t) / JOUR as int == t / JOUR as int - k) by (nonlinear_arith)
        requires t % JOUR as int == 0, k == (t / JOUR as int + 4) % 7;
    assert(recul_dimanche(t) % JOUR as int == 0) by (nonlinear_arith)
        requires t % JOUR as int == 0, k == (t / JOUR as int + 4) % 7;
}

/// `d` est le dimanche (à minuit) des sept jours qui finissent le jour de
/// minuit `t` : pour le 31 d'un mois, son dernier dimanche.
pub open spec fn dimanche_des_sept_jours(d: int, t: int) -> bool {
    &&& d % JOUR as int == 0
    &&& (d / JOUR as int + 3) % 7 == 6
    &&& t - 6 * JOUR <= d <= t
}

/// Il n'y a qu'un dimanche dans sept jours consécutifs.
proof fn lemme_dimanche_unique(d: int, e: int, t: int)
    requires
        dimanche_des_sept_jours(d, t),
        dimanche_des_sept_jours(e, t),
    ensures
        d == e,
{
    let a = d / JOUR as int;
    let b = e / JOUR as int;
    assert(d == a * JOUR) by (nonlinear_arith)
        requires d % JOUR as int == 0, a == d / JOUR as int;
    assert(e == b * JOUR) by (nonlinear_arith)
        requires e % JOUR as int == 0, b == e / JOUR as int;
    assert(-6 <= a - b <= 6) by (nonlinear_arith)
        requires d == a * JOUR, e == b * JOUR, -6 * JOUR <= d - e <= 6 * JOUR;
    assert((a - b) % 7 == 0) by (nonlinear_arith)
        requires (a + 3) % 7 == 6, (b + 3) % 7 == 6;
}

/// Règle européenne : l'heure d'été commence le dernier dimanche de mars à
/// 01h00 UTC et finit le dernier dimanche d'octobre à 01h00 UTC (exclu) ;
/// `d` et `f` sont ces deux dimanches, pris dans les sept derniers jours
/// qui finissent le 31 mars (minuit `mars31`) et le 31 octobre (minuit
/// `octobre31`).
pub proof fn loi_ete_dimanches(utc: int, mars31: int, octobre31: int, d: int, f: int)
    requires
        mars31 % JOUR as int == 0,
        octobre31 % JOUR as int == 0,
        dimanche_des_sept_jours(d, mars31),
        dimanche_des_sept_jours(f, octobre31),
    ensures
        ete_selon_spec(utc, mars31, octobre31) == (d + 3600 <= utc < f + 3600),
{
    loi_dernier_dimanche(mars31);
    loi_dernier_dimanche(octobre31);
    lemme_dimanche_unique(d, recul_dimanche(mars31), mars31);
    lemme_dimanche_unique(f, recul_dimanche(octobre31), octobre31);
}

/// L'heure d'été à l'instant `utc` (celle que `heure_ete_active` décide) :
/// de 01h00 UTC le dernier dimanche de mars à 01h00 UTC le dernier dimanche
/// d'octobre de l'année de `utc`, et le décalage de Paris est alors de 2 h
/// (1 h sinon).
pub proof fn loi_heure_ete(utc: i64, d: int, f: int)
    requires
        minuit_civil(annee_civile(utc), 3, 31) as int % JOUR as int == 0,
        minuit_civil(annee_civile(utc), 10, 31) as int % JOUR as int == 0,
        dimanche_des_sept_jours(d, minuit_civil(annee_civile(utc), 3, 31) as int),
        dimanche_des_sept_jours(f, minuit_civil(annee_civile(utc), 10, 31) as int),
    ensures
        heure_ete(utc) == (d + 3600 <= utc < f + 3600),
        decalage_paris(utc) == (if d + 3600 <= utc < f + 3600 { 2int } else { 1int }),
{
    loi_ete_dimanches(
        utc as int,
        minuit_civil(annee_civile(utc), 3, 31) as int,
        minuit_civil(annee_civile(utc), 10, 31) as int,
        d,
        f,
    );
}

} // verus!
