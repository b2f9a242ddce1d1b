use lora_boite_lettres::emetteur::{ActionEchange, Echange, Evenement};
use lora_boite_lettres::protocole::{accuse_reception, INTERVALLE_VEILLE_US};

fn paquet(octets: &[u8]) -> heapless::Vec<u8, 32> {
    let mut p: heapless::Vec<u8, 32> = heapless::Vec::new();
    p.extend_from_slice(octets).unwrap();
    p
}

/// Rejoue un cycle : `envois` dit si chaque envoi réussit, `recus` donne le
/// paquet de chaque sonde (None : rien). Rend la fin du cycle et le nombre
/// d'événements.
fn rejouer(poids: Option<i32>, envois: &[bool], recus: &[Option<Vec<u8>>]) -> (ActionEchange, usize, usize) {
    let (mut e, mut a) = Echange::new(poids);
    let mut i_envoi = 0;
    let mut i_sonde = 0;
    let mut evenements = 0;
    let mut nb_envois = 0;
    loop {
        let ev = match a {
            ActionEchange::Envoyer => {
                nb_envois += 1;
                let ok = envois.get(i_envoi).copied().unwrap_or(true);
                i_envoi += 1;
                Evenement::Envoi(ok)
            }
            ActionEchange::DemarrerEcoute => Evenement::EcouteDemarree,
            ActionEchange::Sonder => {
                let p = recus.get(i_sonde).cloned().flatten();
                i_sonde += 1;
                Evenement::Sonde(p.map(|o| paquet(&o)))
            }
            ActionEchange::Pause(ms) => {
                assert_eq!(ms, 20);
                Evenement::PauseFaite
            }
            fin @ ActionEchange::Terminer { .. } => return (fin, evenements, nb_envois),
        };
        evenements += 1;
        a = e.poursuivre(ev);
    }
}

#[test]
fn message_et_accuse() {
    let (e, a) = Echange::new(Some(152));
    assert_eq!(e.message().as_str(), "COLIS:152");
    assert_eq!(a, ActionEchange::Envoyer);
    let (e, _) = Echange::new(None);
    assert_eq!(e.message().as_str(), "RIEN");
}

#[test]
fn accuse_avec_correction() {
    let accuse = accuse_reception(b"COLIS:152", Some(3600));
    let recus = vec![None, Some(b"autre".to_vec()), Some(accuse.as_bytes().to_vec())];
    let (fin, evenements, envois) = rejouer(Some(152), &[true], &recus);
    assert_eq!(fin, ActionEchange::Terminer { ack_recu: true, duree_veille_us: 3_600_000_000 });
    assert_eq!(evenements, 2 + 3 + 2);
    assert_eq!(envois, 1);
}

#[test]
fn accuse_sans_correction() {
    let recus = vec![Some(b"ACK_RIEN".to_vec())];
    let (fin, _, _) = rejouer(None, &[true], &recus);
    assert_eq!(fin, ActionEchange::Terminer { ack_recu: true, duree_veille_us: INTERVALLE_VEILLE_US });
    let recus = vec![Some(b"ACK_RIEN:bof".to_vec())];
    let (fin, _, _) = rejouer(None, &[true], &recus);
    assert_eq!(fin, ActionEchange::Terminer { ack_recu: true, duree_veille_us: INTERVALLE_VEILLE_US });
    let recus = vec![Some(b"ACK_RIEN:12".to_vec())];
    let (fin, _, _) = rejouer(None, &[true], &recus);
    assert_eq!(fin, ActionEchange::Terminer { ack_recu: true, duree_veille_us: 300_000_000 });
}

#[test]
fn envois_rates() {
    let (fin, evenements, envois) = rejouer(None, &[false, false, false], &[]);
    assert_eq!(fin, ActionEchange::Terminer { ack_recu: false, duree_veille_us: INTERVALLE_VEILLE_US });
    assert_eq!(evenements, 3);
    assert_eq!(envois, 3);
}

#[test]
fn cycle_le_plus_long() {
    // Loi : trois essais complets sans accusé, 606 événements au plus.
    let (fin, evenements, envois) = rejouer(Some(10), &[true, true, true], &[]);
    assert_eq!(fin, ActionEchange::Terminer { ack_recu: false, duree_veille_us: INTERVALLE_VEILLE_US });
    assert_eq!(evenements, 606);
    assert_eq!(envois, 3);
}

#[test]
fn accuse_au_deuxieme_essai() {
    let mut recus: Vec<Option<Vec<u8>>> = vec![None; 100];
    recus.push(Some(b"ACK_COLIS:7:+60".to_vec()));
    let (fin, evenements, envois) = rejouer(Some(7), &[true, true], &recus);
    assert_eq!(fin, ActionEchange::Terminer { ack_recu: true, duree_veille_us: 300_000_000 });
    assert_eq!(envois, 2);
    assert_eq!(evenements, 202 + 3);
}
