use lora_boite_lettres::decimal::{lire_i32, lire_u64};
use lora_boite_lettres::protocole::{
    accuse_attendu, accuse_reception, analyser_accuse, analyser_message, duree_veille_us,
    message_pesee, reponse_ping, texte_recu, AnalyseAccuse, Correction, Message,
    DUREE_VEILLE_MIN_US, INTERVALLE_VEILLE_US,
};

#[test]
fn lecture_u64_comme_parse() {
    assert_eq!(lire_u64(b"123"), Some(123));
    assert_eq!(lire_u64(b"+5"), Some(5));
    assert_eq!(lire_u64(b"007"), Some(7));
    assert_eq!(lire_u64(b""), None);
    assert_eq!(lire_u64(b"+"), None);
    assert_eq!(lire_u64(b"-1"), None);
    assert_eq!(lire_u64(b"12a"), None);
    assert_eq!(lire_u64(b" 12"), None);
    assert_eq!(lire_u64(b"18446744073709551615"), Some(u64::MAX));
    assert_eq!(lire_u64(b"18446744073709551616"), None);
    for texte in ["0", "42", "+42", "x", "", "99999999999999999999", "-0"] {
        assert_eq!(lire_u64(texte.as_bytes()), texte.parse::<u64>().ok(), "{texte}");
    }
}

#[test]
fn lecture_i32_comme_parse() {
    assert_eq!(lire_i32(b"-2147483648"), Some(i32::MIN));
    assert_eq!(lire_i32(b"2147483647"), Some(i32::MAX));
    assert_eq!(lire_i32(b"2147483648"), None);
    assert_eq!(lire_i32(b"-2147483649"), None);
    assert_eq!(lire_i32(b"-"), None);
    assert_eq!(lire_i32(b"+-1"), None);
    assert_eq!(lire_i32(b"-0"), Some(0));
    for texte in ["12", "+12", "-12", "1 2", "", "+", "--1", "00012"] {
        assert_eq!(lire_i32(texte.as_bytes()), texte.parse::<i32>().ok(), "{texte}");
    }
}

#[test]
fn message_colis_et_rien() {
    assert_eq!(message_pesee(Some(152)).as_str(), "COLIS:152");
    assert_eq!(message_pesee(Some(-3)).as_str(), "COLIS:-3");
    assert_eq!(message_pesee(Some(i32::MIN)).as_str(), "COLIS:-2147483648");
    assert_eq!(message_pesee(None).as_str(), "RIEN");
}

#[test]
fn accuse_attendu_prefixe() {
    assert_eq!(accuse_attendu("COLIS:152").as_str(), "ACK_COLIS:152");
    assert_eq!(accuse_attendu("RIEN").as_str(), "ACK_RIEN");
    // Trop long pour 32 octets : seul le préfixe est écrit.
    assert_eq!(accuse_attendu("0123456789012345678901234567890").as_str(), "ACK_");
}

#[test]
fn analyse_des_accuses() {
    assert_eq!(analyser_accuse(b"ACK_RIEN", b"ACK_RIEN"), AnalyseAccuse::Accuse(Correction::Absente));
    assert_eq!(
        analyser_accuse(b"ACK_RIEN:3600", b"ACK_RIEN"),
        AnalyseAccuse::Accuse(Correction::Secondes(3600))
    );
    assert_eq!(
        analyser_accuse(b"ACK_COLIS:12:+7", b"ACK_COLIS:12"),
        AnalyseAccuse::Accuse(Correction::Secondes(7))
    );
    assert_eq!(
        analyser_accuse(b"ACK_RIEN:abc", b"ACK_RIEN"),
        AnalyseAccuse::Accuse(Correction::Illisible)
    );
    assert_eq!(analyser_accuse(b"ACK_RIEN;5", b"ACK_RIEN"), AnalyseAccuse::Accuse(Correction::Absente));
    assert_eq!(analyser_accuse(b"ACK_COLIS:1", b"ACK_RIEN"), AnalyseAccuse::Autre);
    assert_eq!(analyser_accuse(b"ACK", b"ACK_RIEN"), AnalyseAccuse::Autre);
    // Octets qui ne sont pas de l'UTF-8 : le texte lu est vide.
    assert_eq!(analyser_accuse(&[0xff], b"ACK_RIEN"), AnalyseAccuse::Autre);
    assert_eq!(analyser_accuse(b"ACK_RIEN:\xff", b"ACK_RIEN"), AnalyseAccuse::Autre);
    // UTF-8 valide non ASCII après les deux-points : correction illisible.
    assert_eq!(
        analyser_accuse("ACK_RIEN:é".as_bytes(), b"ACK_RIEN"),
        AnalyseAccuse::Accuse(Correction::Illisible)
    );
}

#[test]
fn duree_de_veille() {
    assert_eq!(duree_veille_us(None), INTERVALLE_VEILLE_US);
    assert_eq!(INTERVALLE_VEILLE_US, 12 * 60 * 60 * 1_000_000);
    assert_eq!(duree_veille_us(Some(3600)), 3_600_000_000);
    assert_eq!(duree_veille_us(Some(10)), DUREE_VEILLE_MIN_US);
    assert_eq!(DUREE_VEILLE_MIN_US, 5 * 60 * 1_000_000);
    assert_eq!(duree_veille_us(Some(300)), 300_000_000);
    assert_eq!(duree_veille_us(Some(u64::MAX)), u64::MAX);
    assert_eq!(duree_veille_us(Some(0)), DUREE_VEILLE_MIN_US);
}

#[test]
fn messages_lus_par_le_recepteur() {
    assert_eq!(analyser_message(b"COLIS:152"), Some(Message::Colis(152)));
    assert_eq!(analyser_message(b"COLIS:+7"), Some(Message::Colis(7)));
    assert_eq!(analyser_message(b"COLIS:-4"), Some(Message::Colis(-4)));
    assert_eq!(analyser_message(b"RIEN"), Some(Message::Rien));
    assert_eq!(analyser_message(b"RIEN "), None);
    assert_eq!(analyser_message(b"COLIS:"), None);
    assert_eq!(analyser_message(b"COLIS:12g"), None);
    assert_eq!(analyser_message(b"colis:12"), None);
    assert_eq!(analyser_message(&[0xff, 0xfe]), None);
    assert_eq!(texte_recu(&[0xff, 0xfe]), "(non-UTF8)");
    assert_eq!(texte_recu(b"RIEN"), "RIEN");
}

#[test]
fn accuses_du_recepteur() {
    assert_eq!(accuse_reception(b"RIEN", Some(3600)).as_str(), "ACK_RIEN:3600");
    assert_eq!(accuse_reception(b"RIEN", None).as_str(), "ACK_RIEN");
    assert_eq!(accuse_reception(b"COLIS:152", Some(0)).as_str(), "ACK_COLIS:152:0");
    // 32 octets de texte : 4 + 32 + 1 + 12 chiffres dépassent 48, la
    // correction n'est pas écrite.
    let long = [b'A'; 32];
    let a = accuse_reception(&long, Some(123_456_789_012));
    assert_eq!(a.len(), 37);
    assert!(a.as_str().ends_with(':'));
}

#[test]
fn aller_retour_emetteur_recepteur() {
    // Loi : l'émetteur reconnaît l'accusé que le récepteur rend pour son
    // message, avec la correction exacte.
    for poids in [Some(152), Some(-3), Some(i32::MAX), None] {
        let message = message_pesee(poids);
        let lu = analyser_message(message.as_bytes());
        assert_eq!(lu, Some(poids.map(Message::Colis).unwrap_or(Message::Rien)));
        let attendu = accuse_attendu(message.as_str());
        for correction in [Some(0i64), Some(43_200), Some(i64::MAX), None] {
            let accuse = accuse_reception(message.as_bytes(), correction);
            let analyse = analyser_accuse(accuse.as_bytes(), attendu.as_bytes());
            let voulu = match correction {
                Some(s) => Correction::Secondes(s as u64),
                None => Correction::Absente,
            };
            assert_eq!(analyse, AnalyseAccuse::Accuse(voulu));
        }
    }
}

#[test]
fn reponse_au_ping() {
    assert_eq!(reponse_ping("PING 12").unwrap().as_str(), "ACK 12");
    assert_eq!(reponse_ping("PING ").unwrap().as_str(), "ACK ");
    assert!(reponse_ping("PONG 12").is_none());
    assert!(reponse_ping("PING").is_none());
}
