use lora_boite_lettres::protocole::Message;
use lora_boite_lettres::recepteur::{
    ligne_bruit, ligne_dernier, ligne_message, ligne_recus, ligne_rssi, ligne_total, nouveau_total,
    paquet_compte, tour_suivant, traiter_paquet,
};

#[test]
fn total_des_colis() {
    assert_eq!(nouveau_total(3, Some(Message::Colis(12))), 4);
    assert_eq!(nouveau_total(3, Some(Message::Rien)), 3);
    assert_eq!(nouveau_total(3, None), 3);
}

#[test]
fn lignes_de_l_ecran() {
    assert_eq!(ligne_message(Some(152), "COLIS:152").as_str(), "Colis recu : 152 g");
    assert_eq!(ligne_message(None, "RIEN").as_str(), "RIEN");
    assert_eq!(ligne_message(Some(i32::MIN), "x").as_str(), "Colis recu : -2147483648 g");
    assert_eq!(ligne_message(None, "(non-UTF8)").as_str(), "(non-UTF8)");
    assert_eq!(ligne_message(None, "0123456789012345678901234567890123").as_str(), "");
    assert_eq!(ligne_rssi(-57).as_str(), "RSSI -57 dBm");
    assert_eq!(ligne_total(0).as_str(), "Total : 0");
    assert_eq!(ligne_total(u32::MAX).as_str(), "Total : 4294967295");
}

#[test]
fn paquet_colis_accuse_et_compte() {
    let t = traiter_paquet(4, b"COLIS:152", None);
    assert_eq!(t.message, Some(Message::Colis(152)));
    assert_eq!(t.nb_recus, 5);
    assert_eq!(t.accuse.unwrap().as_str(), "ACK_COLIS:152");
}

#[test]
fn paquet_rien_accuse_sans_compter() {
    // 2024-01-15 10:00:00 UTC = 11:00 à Paris : 1 h jusqu'à 12h00.
    let t = traiter_paquet(4, b"RIEN", Some(1_705_312_800));
    assert_eq!(t.message, Some(Message::Rien));
    assert_eq!(t.nb_recus, 4);
    assert_eq!(t.accuse.unwrap().as_str(), "ACK_RIEN:3600");
}

#[test]
fn paquet_invalide_ignore() {
    let t = traiter_paquet(4, b"COLIS:", Some(1_705_312_800));
    assert_eq!(t.message, None);
    assert!(t.accuse.is_none());
    assert_eq!(t.nb_recus, 4);
    let t = traiter_paquet(u32::MAX, &[0xFF, 0x00], None);
    assert!(t.accuse.is_none());
    assert_eq!(t.nb_recus, u32::MAX);
}

#[test]
fn recepteur_d_essai() {
    assert_eq!(tour_suivant(0), (1, false));
    assert_eq!(tour_suivant(9), (10, true));
    assert_eq!(tour_suivant(19), (20, true));
    assert_eq!(tour_suivant(20), (21, false));
    assert_eq!(paquet_compte(6), 7);
    assert_eq!(ligne_recus(7).as_str(), "Recus: 7");
    assert_eq!(ligne_bruit(-112).as_str(), "Bruit: -112 dBm");
    assert_eq!(ligne_dernier(None).as_str(), "(rien recu)");
    assert_eq!(ligne_dernier(Some("PING 3")).as_str(), "PING 3");
    assert_eq!(ligne_dernier(Some("0123456789012345678901234567890123")).as_str(), "");
}
