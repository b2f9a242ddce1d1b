use lora_boite_lettres::portee::{
    accuse_ping, bilan_initial, fin_simulation, ligne_bilan, ligne_essai, ligne_statut, message_ping,
    nouvelle_simulation, texte_egal, ActionPing, Bilan, EchangePing, EvenementPing,
};

fn paquet(octets: &[u8]) -> heapless::Vec<u8, 32> {
    let mut p: heapless::Vec<u8, 32> = heapless::Vec::new();
    p.extend_from_slice(octets).unwrap();
    p
}

/// Rejoue un envoi d'essai : `envois` dit si chaque envoi réussit, `recus`
/// donne le paquet de chaque sonde (None : rien). Rend la fin et le nombre
/// d'événements.
fn rejouer(n: u32, envois: &[bool], recus: &[Option<(Vec<u8>, i32)>]) -> (ActionPing, usize) {
    let (mut e, mut a) = EchangePing::new(n);
    let mut i_envoi = 0;
    let mut i_sonde = 0;
    let mut evenements = 0;
    loop {
        let ev = match a {
            ActionPing::Envoyer => {
                let ok = envois.get(i_envoi).copied().unwrap_or(true);
                i_envoi += 1;
                EvenementPing::Envoi(ok)
            }
            ActionPing::DemarrerEcoute => EvenementPing::EcouteDemarree,
            ActionPing::Sonder => {
                let p = recus.get(i_sonde).cloned().flatten();
                i_sonde += 1;
                match p {
                    Some((o, r)) => EvenementPing::SondePaquet(paquet(&o), r),
                    None => EvenementPing::SondeVide,
                }
            }
            ActionPing::Pause(ms) => {
                assert_eq!(ms, 20);
                EvenementPing::PauseFaite
            }
            fin @ ActionPing::Terminer { .. } => return (fin, evenements),
        };
        evenements += 1;
        a = e.poursuivre(ev);
    }
}

#[test]
fn messages_ping_et_ack() {
    assert_eq!(message_ping(1).as_str(), "PING 1");
    assert_eq!(accuse_ping(1).as_str(), "ACK 1");
    assert_eq!(message_ping(u32::MAX).as_str(), "PING 4294967295");
    let (e, a) = EchangePing::new(42);
    assert_eq!(e.message().as_str(), "PING 42");
    assert_eq!(a, ActionPing::Envoyer);
}

#[test]
fn accuse_exact_seulement() {
    assert!(texte_egal(b"ACK 7", b"ACK 7"));
    assert!(!texte_egal(b"ACK 70", b"ACK 7"));
    assert!(!texte_egal(b"ACK 7:12", b"ACK 7"));
    assert!(!texte_egal(b"ACK", b"ACK 7"));
    assert!(!texte_egal(&[0xFF, 0xFE], b"ACK 7"));
    assert!(texte_egal(&[0xFF], b""));
}

#[test]
fn ping_accuse_au_premier_sondage() {
    let (fin, n) = rejouer(7, &[true], &[Some((b"ACK 7".to_vec(), -80))]);
    assert_eq!(fin, ActionPing::Terminer { ack_recu: true, rssi_dbm: -80 });
    assert_eq!(n, 3);
}

#[test]
fn ping_ignore_un_accuse_etranger() {
    let (fin, n) = rejouer(7, &[true], &[Some((b"ACK 70".to_vec(), -70)), None, Some((b"ACK 7".to_vec(), -91))]);
    assert_eq!(fin, ActionPing::Terminer { ack_recu: true, rssi_dbm: -91 });
    assert_eq!(n, 7);
}

#[test]
fn ping_sans_accuse_apres_trois_essais() {
    let (fin, n) = rejouer(3, &[true, true, true], &[]);
    assert_eq!(fin, ActionPing::Terminer { ack_recu: false, rssi_dbm: 0 });
    assert_eq!(n, 606);
    let (fin, n) = rejouer(3, &[false, false, false], &[]);
    assert_eq!(fin, ActionPing::Terminer { ack_recu: false, rssi_dbm: 0 });
    assert_eq!(n, 3);
}

#[test]
fn bilan_du_test_de_portee() {
    let b = bilan_initial();
    let b = nouvelle_simulation(b);
    assert_eq!(b.simulations, 1);
    let b = fin_simulation(b, true);
    let b = nouvelle_simulation(b);
    let b = fin_simulation(b, false);
    assert_eq!(b, Bilan { simulations: 2, nb_ack: 1, nb_manques: 1 });
    assert_eq!(ligne_essai(2).as_str(), "Essai #2");
    assert_eq!(ligne_bilan(b).as_str(), "OK:1  RATES:1");
    let grand = Bilan { simulations: u32::MAX, nb_ack: u32::MAX - 1, nb_manques: 1 };
    assert_eq!(ligne_bilan(grand).as_str(), "OK:4294967294  RATES:1");
    assert_eq!(ligne_statut(true, -97).as_str(), "RSSI -97 dBm");
    assert_eq!(ligne_statut(false, 0).as_str(), "AUCUN ACK !");
}
