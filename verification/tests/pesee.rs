use lora_boite_lettres::pesee::{tare_a_faire, ActionPesee, Stabilisation, ZERO_NON_MESURE};

/// Rejoue la stabilisation : `mesures` donne chaque nouvelle mesure et si
/// elle est jugée stable. Rend la fin et le nombre de mesures faites.
fn rejouer(premiere: i32, mesures: &[(i32, bool)]) -> (ActionPesee, usize) {
    let (mut s, mut a) = Stabilisation::new(premiere);
    let mut n = 0;
    loop {
        a = match a {
            ActionPesee::Pause(ms) => {
                assert_eq!(ms, 300);
                s.pause_faite()
            }
            ActionPesee::Mesurer => {
                let (l, stable) = mesures.get(n).copied().unwrap_or((n as i32, false));
                n += 1;
                s.mesure(l, stable)
            }
            fin @ ActionPesee::Terminer { .. } => return (fin, n),
        };
    }
}

#[test]
fn zero_a_tarer() {
    assert!(tare_a_faire(ZERO_NON_MESURE));
    assert!(tare_a_faire(i32::MIN));
    assert!(!tare_a_faire(-12));
}

#[test]
fn stabilisation_rapide() {
    let (fin, n) = rejouer(100, &[(4000, false), (4010, true)]);
    assert_eq!(fin, ActionPesee::Terminer { lecture: 4010, stabilise: true, attente_ms: 600 });
    assert_eq!(n, 2);
}

#[test]
fn stabilisation_jamais_atteinte() {
    // Loi : 14 mesures au plus, 4 200 ms d'attente.
    let (fin, n) = rejouer(0, &[]);
    assert_eq!(fin, ActionPesee::Terminer { lecture: 13, stabilise: false, attente_ms: 4200 });
    assert_eq!(n, 14);
}
