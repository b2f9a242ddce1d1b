use lora_boite_lettres::sx127x::{
    Action, ErreurRadio, Reception, Reponse, Requete, Sortie, Sx127x, Trame,
};

/// Ce que le pilote a demandé, dans l'ordre.
#[derive(Debug, PartialEq, Clone)]
enum Demande {
    Octets(Vec<u8>),
    Reset(bool),
    Pause(u32),
}

/// Module simulé : registres, FIFO, valeurs successives des drapeaux IRQ.
struct Puce {
    registres: [u8; 128],
    fifo: Vec<u8>,
    irq: Vec<u8>,
    journal: Vec<Demande>,
    echec_a: Option<usize>,
}

impl Puce {
    fn new() -> Self {
        let mut registres = [0u8; 128];
        registres[0x42] = 0x12;
        Puce { registres, fifo: Vec::new(), irq: Vec::new(), journal: Vec::new(), echec_a: None }
    }

    fn repondre(&mut self, q: Requete) -> Reponse {
        let rang = self.journal.len();
        let echec = self.echec_a == Some(rang);
        match q {
            Requete::Transfert(Trame::Registre(mut b)) => {
                self.journal.push(Demande::Octets(b.to_vec()));
                if echec {
                    return Reponse::Echec;
                }
                let adresse = (b[0] & 0x7F) as usize;
                if b[0] & 0x80 != 0 {
                    self.registres[adresse] = b[1];
                } else if adresse == 0x12 && !self.irq.is_empty() {
                    b[1] = self.irq.remove(0);
                } else {
                    b[1] = self.registres[adresse];
                }
                Reponse::Transfert(Trame::Registre(b))
            }
            Requete::Transfert(Trame::Rafale(mut v)) => {
                self.journal.push(Demande::Octets(v.to_vec()));
                if echec {
                    return Reponse::Echec;
                }
                if v[0] & 0x80 != 0 {
                    self.fifo = v[1..].to_vec();
                } else {
                    for i in 1..v.len() {
                        v[i] = self.fifo[i - 1];
                    }
                }
                Reponse::Transfert(Trame::Rafale(v))
            }
            Requete::Reset(h) => {
                self.journal.push(Demande::Reset(h));
                if echec { Reponse::Echec } else { Reponse::Fait }
            }
            Requete::Pause(ms) => {
                self.journal.push(Demande::Pause(ms));
                Reponse::Fait
            }
        }
    }

    fn executer(&mut self, pilote: &mut Sx127x, mut a: Action) -> Result<Sortie, ErreurRadio> {
        loop {
            match a {
                Action::Fin(r) => return r,
                Action::Requete(q) => {
                    assert!(pilote.attend_reponse());
                    let r = self.repondre(q);
                    assert!(pilote.accepte(&r));
                    a = pilote.poursuivre(r);
                }
            }
        }
    }
}

fn ecrit(adresse: u8, valeur: u8) -> Demande {
    Demande::Octets(vec![adresse | 0x80, valeur])
}

fn lit(adresse: u8) -> Demande {
    Demande::Octets(vec![adresse & 0x7F, 0])
}

#[test]
fn init_a_433_mhz() {
    let mut puce = Puce::new();
    let mut pilote = Sx127x::new();
    let a = pilote.init(433_000_000);
    assert!(matches!(puce.executer(&mut pilote, a), Ok(Sortie::Fait)));
    let attendu = vec![
        Demande::Reset(false),
        Demande::Pause(10),
        Demande::Reset(true),
        Demande::Pause(10),
        lit(0x42),
        ecrit(0x01, 0x80),
        Demande::Pause(10),
        ecrit(0x01, 0x81),
        ecrit(0x06, 0x6C),
        ecrit(0x07, 0x40),
        ecrit(0x08, 0x00),
        ecrit(0x0E, 0x00),
        ecrit(0x0F, 0x00),
        ecrit(0x0C, 0x23),
        ecrit(0x1D, 0x72),
        ecrit(0x1E, 0x74),
        ecrit(0x26, 0x04),
        ecrit(0x20, 0x00),
        ecrit(0x21, 0x08),
        ecrit(0x39, 0x12),
        ecrit(0x09, 0x8F),
        ecrit(0x4D, 0x87),
        ecrit(0x0B, 0x31),
        ecrit(0x12, 0xFF),
    ];
    assert_eq!(puce.journal, attendu);
    assert!(!pilote.attend_reponse());
}

#[test]
fn init_refuse_une_autre_version() {
    let mut puce = Puce::new();
    puce.registres[0x42] = 0x11;
    let mut pilote = Sx127x::new();
    let a = pilote.init(868_000_000);
    assert_eq!(puce.executer(&mut pilote, a).err(), Some(ErreurRadio::VersionInconnue(0x11)));
    assert_eq!(puce.journal.len(), 5);
}

#[test]
fn init_erreur_de_bus() {
    let mut puce = Puce::new();
    puce.echec_a = Some(2);
    let mut pilote = Sx127x::new();
    let a = pilote.init(433_000_000);
    assert_eq!(puce.executer(&mut pilote, a).err(), Some(ErreurRadio::Bus));
    assert_eq!(puce.journal.len(), 3);
}

#[test]
fn envoi_avec_tx_done() {
    let mut puce = Puce::new();
    puce.irq = vec![0x00, 0x00, 0x08];
    let mut pilote = Sx127x::new();
    let a = pilote.envoyer(b"RIEN");
    assert!(matches!(puce.executer(&mut pilote, a), Ok(Sortie::Fait)));
    let attendu = vec![
        ecrit(0x01, 0x81),
        ecrit(0x0D, 0x00),
        ecrit(0x22, 4),
        Demande::Octets(vec![0x80, b'R', b'I', b'E', b'N']),
        ecrit(0x01, 0x83),
        lit(0x12),
        Demande::Pause(10),
        lit(0x12),
        Demande::Pause(10),
        lit(0x12),
        ecrit(0x12, 0xFF),
    ];
    assert_eq!(puce.journal, attendu);
    assert_eq!(puce.fifo, b"RIEN".to_vec());
}

#[test]
fn envoi_sans_tx_done_s_arrete_apres_200_sondages() {
    let mut puce = Puce::new();
    let mut pilote = Sx127x::new();
    let a = pilote.envoyer(b"COLIS:12");
    assert_eq!(puce.executer(&mut pilote, a).err(), Some(ErreurRadio::DelaiEmission));
    let sondages = puce.journal.iter().filter(|d| **d == lit(0x12)).count();
    assert_eq!(sondages, 200);
    assert_eq!(puce.journal.len(), 5 + 400);
}

#[test]
fn envoi_trop_long_n_ecrit_que_l_adresse() {
    let mut puce = Puce::new();
    puce.irq = vec![0x08];
    let mut pilote = Sx127x::new();
    let donnees = [7u8; 300];
    let a = pilote.envoyer(&donnees);
    assert!(matches!(puce.executer(&mut pilote, a), Ok(Sortie::Fait)));
    assert_eq!(puce.journal[2], ecrit(0x22, (300 % 256) as u8));
    assert_eq!(puce.journal[3], Demande::Octets(vec![0x80]));
}

#[test]
fn reception_rien() {
    let mut puce = Puce::new();
    puce.irq = vec![0x00];
    let mut pilote = Sx127x::new();
    let a = pilote.recevoir();
    assert!(matches!(puce.executer(&mut pilote, a), Ok(Sortie::Recu(Reception::Rien))));
    assert_eq!(puce.journal, vec![lit(0x12)]);
}

#[test]
fn reception_erreur_crc() {
    let mut puce = Puce::new();
    puce.irq = vec![0x60];
    let mut pilote = Sx127x::new();
    let a = pilote.recevoir();
    assert!(matches!(puce.executer(&mut pilote, a), Ok(Sortie::Recu(Reception::ErreurCrc))));
    assert_eq!(puce.journal, vec![lit(0x12), ecrit(0x12, 0xFF)]);
}

#[test]
fn reception_d_un_paquet() {
    let mut puce = Puce::new();
    puce.irq = vec![0x40];
    puce.registres[0x10] = 0x20;
    puce.registres[0x13] = 4;
    puce.registres[0x1A] = 100;
    puce.fifo = b"RIEN".to_vec();
    let mut pilote = Sx127x::new();
    let a = pilote.recevoir();
    match puce.executer(&mut pilote, a) {
        Ok(Sortie::Recu(Reception::Paquet { donnees, rssi_dbm })) => {
            assert_eq!(donnees.as_slice(), b"RIEN");
            assert_eq!(rssi_dbm, -57);
        }
        _ => panic!("paquet attendu"),
    }
    assert_eq!(
        puce.journal,
        vec![
            lit(0x12),
            lit(0x10),
            ecrit(0x0D, 0x20),
            lit(0x13),
            Demande::Octets(vec![0, 0, 0, 0, 0]),
            lit(0x1A),
            ecrit(0x12, 0xFF),
        ]
    );
}

#[test]
fn reception_refuse_une_longueur_de_plus_de_32() {
    let mut puce = Puce::new();
    puce.irq = vec![0x40];
    puce.registres[0x13] = 33;
    let mut pilote = Sx127x::new();
    let mut a = pilote.recevoir();
    for _ in 0..3 {
        match a {
            Action::Requete(q) => {
                let r = puce.repondre(q);
                a = pilote.poursuivre(r);
            }
            Action::Fin(_) => panic!("trop tôt"),
        }
    }
    match a {
        Action::Requete(q) => {
            let r = puce.repondre(q);
            assert!(!pilote.accepte(&r));
        }
        Action::Fin(_) => panic!("trop tôt"),
    }
}

#[test]
fn operations_d_une_requete() {
    let mut puce = Puce::new();
    puce.registres[0x1B] = 120;
    puce.registres[0x01] = 0x85;
    let mut pilote = Sx127x::new();
    let a = pilote.rssi_instantane();
    assert!(matches!(puce.executer(&mut pilote, a), Ok(Sortie::Dbm(-37))));
    let a = pilote.lire_op_mode();
    assert!(matches!(puce.executer(&mut pilote, a), Ok(Sortie::Octet(0x85))));
    let a = pilote.lire_version();
    assert!(matches!(puce.executer(&mut pilote, a), Ok(Sortie::Octet(0x12))));
    assert_eq!(puce.journal[puce.journal.len() - 1], lit(0x42));
    let a = pilote.demarrer_ecoute();
    assert!(matches!(puce.executer(&mut pilote, a), Ok(Sortie::Fait)));
    assert_eq!(puce.registres[0x01], 0x85);
    let a = pilote.dormir();
    assert!(matches!(puce.executer(&mut pilote, a), Ok(Sortie::Fait)));
    assert_eq!(puce.registres[0x01], 0x80);
    puce.echec_a = Some(puce.journal.len());
    let a = pilote.dormir();
    assert_eq!(puce.executer(&mut pilote, a).err(), Some(ErreurRadio::Bus));
}

#[test]
fn mode_relu_apres_init_et_ecoute() {
    let mut puce = Puce::new();
    let mut pilote = Sx127x::new();
    let a = pilote.init(433_000_000);
    assert!(matches!(puce.executer(&mut pilote, a), Ok(Sortie::Fait)));
    assert_eq!(puce.registres[0x01], 0x81);
    let a = pilote.demarrer_ecoute();
    assert!(matches!(puce.executer(&mut pilote, a), Ok(Sortie::Fait)));
    let debut = puce.journal.len();
    let a = pilote.lire_op_mode();
    assert!(matches!(puce.executer(&mut pilote, a), Ok(Sortie::Octet(0x85))));
    assert_eq!(puce.journal[debut..].to_vec(), vec![Demande::Octets(vec![0x01, 0x00])]);
}
