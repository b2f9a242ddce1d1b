use lora_boite_lettres::temps::{
    correction_horloge, dernier_dimanche, dernier_dimanche_depuis, ete_selon, heure_ete_active,
    secondes_jusqu_au_prochain_reveil, vers_heure_paris, INSTANT_MAX, INSTANT_MIN,
};

fn instant(annee: i32, mois: u32, jour: u32, h: u32, m: u32, s: u32) -> i64 {
    chrono::NaiveDate::from_ymd_opt(annee, mois, jour)
        .unwrap()
        .and_hms_opt(h, m, s)
        .unwrap()
        .and_utc()
        .timestamp()
}

#[test]
fn bornes_de_chrono() {
    assert_eq!(instant(-262143, 1, 1, 0, 0, 0), INSTANT_MIN);
    assert_eq!(instant(262142, 12, 31, 23, 59, 59), INSTANT_MAX);
    assert!(chrono::DateTime::from_timestamp(INSTANT_MIN - 1, 0).is_none());
    assert!(chrono::DateTime::from_timestamp(INSTANT_MAX + 1, 0).is_none());
}

#[test]
fn derniers_dimanches() {
    assert_eq!(dernier_dimanche(2024, 3), instant(2024, 3, 31, 0, 0, 0));
    assert_eq!(dernier_dimanche(2024, 10), instant(2024, 10, 27, 0, 0, 0));
    assert_eq!(dernier_dimanche(2023, 3), instant(2023, 3, 26, 0, 0, 0));
    assert_eq!(dernier_dimanche(2023, 10), instant(2023, 10, 29, 0, 0, 0));
    assert_eq!(dernier_dimanche(2025, 3), instant(2025, 3, 30, 0, 0, 0));
    // Depuis un minuit donné : le 31 mars 2025 est un lundi.
    assert_eq!(dernier_dimanche_depuis(instant(2025, 3, 31, 0, 0, 0)), instant(2025, 3, 30, 0, 0, 0));
    // Avant 1970.
    assert_eq!(dernier_dimanche(1969, 3), instant(1969, 3, 30, 0, 0, 0));
}

#[test]
fn heure_ete_aux_bascules() {
    assert!(heure_ete_active(instant(2024, 3, 31, 1, 0, 0)));
    assert!(!heure_ete_active(instant(2024, 3, 31, 0, 59, 59)));
    assert!(heure_ete_active(instant(2024, 10, 27, 0, 59, 59)));
    assert!(!heure_ete_active(instant(2024, 10, 27, 1, 0, 0)));
    assert!(heure_ete_active(instant(2024, 7, 1, 12, 0, 0)));
    assert!(!heure_ete_active(instant(2024, 1, 15, 12, 0, 0)));
    let mars = instant(2024, 3, 31, 0, 0, 0);
    let octobre = instant(2024, 10, 31, 0, 0, 0);
    assert!(ete_selon(instant(2024, 8, 1, 0, 0, 0), mars, octobre));
    assert!(!ete_selon(instant(2024, 11, 1, 0, 0, 0), mars, octobre));
}

#[test]
fn conversion_heure_paris() {
    assert_eq!(vers_heure_paris(instant(2024, 7, 1, 12, 0, 0)), instant(2024, 7, 1, 14, 0, 0));
    assert_eq!(vers_heure_paris(instant(2024, 1, 15, 12, 0, 0)), instant(2024, 1, 15, 13, 0, 0));
    assert_eq!(vers_heure_paris(instant(2024, 12, 31, 23, 30, 0)), instant(2025, 1, 1, 0, 30, 0));
    // Loi : le décalage est toujours d'une ou deux heures.
    for t in [instant(2024, 3, 31, 1, 0, 0), instant(1900, 6, 1, 0, 0, 0), instant(2100, 2, 28, 23, 0, 0)] {
        let d = vers_heure_paris(t) - t;
        assert!(d == 3600 || d == 7200);
    }
}

#[test]
fn secondes_avant_reveil() {
    assert_eq!(secondes_jusqu_au_prochain_reveil(instant(2024, 7, 1, 11, 0, 0)), 3600);
    assert_eq!(secondes_jusqu_au_prochain_reveil(instant(2024, 7, 1, 12, 0, 0)), 6 * 3600);
    assert_eq!(secondes_jusqu_au_prochain_reveil(instant(2024, 7, 1, 17, 59, 59)), 1);
    assert_eq!(secondes_jusqu_au_prochain_reveil(instant(2024, 7, 1, 18, 0, 0)), 18 * 3600);
    assert_eq!(secondes_jusqu_au_prochain_reveil(instant(2024, 7, 1, 23, 0, 0)), 13 * 3600);
    assert_eq!(secondes_jusqu_au_prochain_reveil(instant(2024, 7, 1, 0, 0, 0)), 12 * 3600);
    assert_eq!(secondes_jusqu_au_prochain_reveil(instant(1960, 2, 29, 20, 0, 0)), 16 * 3600);
}

#[test]
fn loi_prochain_reveil_plus_proche() {
    // Loi : le réveil tombe à 12h ou 18h, au plus 36 h plus tard, et aucun
    // 12h/18h n'est plus proche.
    let debut = instant(2024, 7, 1, 0, 0, 0);
    let mut t = debut;
    while t < debut + 2 * 86_400 {
        let s = secondes_jusqu_au_prochain_reveil(t);
        assert!(s > 0 && s <= 36 * 3600);
        let seconde_du_jour = (t + s).rem_euclid(86_400);
        assert!(seconde_du_jour == 12 * 3600 || seconde_du_jour == 18 * 3600);
        let mut u = t + 1;
        while u < t + s {
            let j = u.rem_euclid(86_400);
            assert!(j != 12 * 3600 && j != 18 * 3600);
            u += 601;
        }
        t += 1777;
    }
}

#[test]
fn correction_pour_le_recepteur() {
    // 12h00 UTC en juillet = 14h00 à Paris : prochain réveil à 18h00.
    assert_eq!(correction_horloge(Some(instant(2024, 7, 1, 12, 0, 0) as u64)), Some(4 * 3600));
    // 17h30 UTC en janvier = 18h30 à Paris : demain 12h00.
    assert_eq!(correction_horloge(Some(instant(2024, 1, 15, 17, 30, 0) as u64)), Some(17 * 3600 + 1800));
    assert_eq!(correction_horloge(None), None);
    // u64::MAX se lit -1 : 31 décembre 1969 23:59:59 UTC, 00:59:59 à Paris.
    assert_eq!(correction_horloge(Some(u64::MAX)), Some(11 * 3600 + 1));
    // Hors de l'intervalle de chrono.
    assert_eq!(correction_horloge(Some(INSTANT_MAX as u64 + 1)), None);
    // Dernier jour représentable : pas de lendemain.
    assert_eq!(correction_horloge(Some((INSTANT_MAX - 3600) as u64)), None);
}
