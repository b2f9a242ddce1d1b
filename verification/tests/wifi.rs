use lora_boite_lettres::wifi::{ActionWifi, ErreurWifi, EvenementWifi, MethodeAuth, ReseauVu, SelectionWifi};

fn vu(ssid: &str, canal: u8, auth: Option<MethodeAuth>) -> ReseauVu {
    ReseauVu { ssid: ssid.as_bytes().to_vec(), canal, auth }
}

/// Déroule le choix de réseau : `resultats` donne la réponse à chaque
/// action (configuration, connexion, attente).
fn derouler(
    reseaux: &[(&str, &str)],
    vus: &Vec<ReseauVu>,
    resultats: &[EvenementWifi],
) -> (Vec<(String, Option<u8>, MethodeAuth)>, ActionWifi) {
    let (mut s, mut a) = SelectionWifi::new(reseaux, vus);
    let mut essais = Vec::new();
    let mut i = 0;
    loop {
        match &a {
            ActionWifi::Configurer(t) => essais.push((t.ssid.as_str().to_string(), t.canal, t.auth)),
            ActionWifi::Connecte(_) | ActionWifi::Abandon(_) => return (essais, a),
            _ => {}
        }
        let e = resultats.get(i).copied().unwrap_or(EvenementWifi::Fait);
        i += 1;
        a = s.poursuivre(e, reseaux, vus);
    }
}

#[test]
fn premier_reseau_vu() {
    let vus = vec![vu("Voisin", 1, None), vu("Maison", 6, Some(MethodeAuth::Wpa3Personnel))];
    let (essais, fin) = derouler(&[("Maison", "secret")], &vus, &[]);
    assert_eq!(essais, vec![("Maison".to_string(), Some(6), MethodeAuth::Wpa3Personnel)]);
    assert!(matches!(fin, ActionWifi::Connecte(0)));
}

#[test]
fn reseau_non_vu_reglages_par_defaut() {
    let vus = vec![vu("Maison", 11, None)];
    let (essais, fin) = derouler(&[("Cachee", "x"), ("Maison", "y")], &vus, &[EvenementWifi::Fait, EvenementWifi::Erreur(-1)]);
    assert_eq!(
        essais,
        vec![
            ("Cachee".to_string(), None, MethodeAuth::Wpa2Personnel),
            ("Maison".to_string(), Some(11), MethodeAuth::Wpa2Personnel),
        ]
    );
    assert!(matches!(fin, ActionWifi::Connecte(1)));
}

#[test]
fn derniere_erreur_rendue() {
    let vus = vec![];
    let (essais, fin) = derouler(
        &[("A", "a"), ("B", "b")],
        &vus,
        &[EvenementWifi::Erreur(7), EvenementWifi::Fait, EvenementWifi::Erreur(9)],
    );
    assert_eq!(essais.len(), 2);
    assert!(matches!(fin, ActionWifi::Abandon(ErreurWifi::Connexion(9))));
}

#[test]
fn liste_vide_et_textes_trop_longs() {
    let vus = vec![];
    let (_, fin) = derouler(&[], &vus, &[]);
    assert!(matches!(fin, ActionWifi::Abandon(ErreurWifi::ListeVide)));
    let long = "s".repeat(33);
    let (_, fin) = derouler(&[(long.as_str(), "x")], &vus, &[]);
    assert!(matches!(fin, ActionWifi::Abandon(ErreurWifi::SsidTropLong(0))));
    let long = "m".repeat(65);
    let (essais, fin) = derouler(&[("A", "a"), ("B", long.as_str())], &vus, &[EvenementWifi::Erreur(3)]);
    assert_eq!(essais.len(), 1);
    assert!(matches!(fin, ActionWifi::Abandon(ErreurWifi::MotDePasseTropLong(1))));
}

#[test]
fn attente_reseau_ratee() {
    let vus = vec![];
    let (_, fin) = derouler(&[("A", "a")], &vus, &[EvenementWifi::Fait, EvenementWifi::Fait, EvenementWifi::Erreur(5)]);
    assert!(matches!(fin, ActionWifi::Abandon(ErreurWifi::AttenteReseau(5))));
}

#[test]
fn configuration_refusee_sur_le_dernier_reseau() {
    let vus = vec![];
    let (essais, fin) = derouler(&[("A", "a")], &vus, &[EvenementWifi::Erreur(-2)]);
    assert_eq!(essais.len(), 1);
    assert!(matches!(fin, ActionWifi::Abandon(ErreurWifi::Configuration(-2))));
}
