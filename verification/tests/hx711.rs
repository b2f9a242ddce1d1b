use lora_boite_lettres::hx711::{etendre_signe_24, ActionHx711, EvenementHx711, Hx711};

/// Capteur simulé : DT reste haut `attente` lectures, puis donne les 24 bits
/// de chaque mesure, bit de poids fort en premier.
struct Capteur {
    attente: u32,
    mesures: Vec<u32>,
    bit: u32,
    journal: Vec<ActionHx711>,
}

impl Capteur {
    fn lire(&mut self, moyenne: bool) -> Option<i32> {
        let (mut lecture, mut a) = if moyenne { Hx711::lire_moyenne() } else { Hx711::lire_brut() };
        let mut en_attente = true;
        let mut restant = self.attente;
        loop {
            self.journal.push(a);
            let e = match a {
                ActionHx711::LireDt => {
                    if en_attente {
                        if restant > 0 {
                            restant -= 1;
                            EvenementHx711::Niveau(true)
                        } else {
                            en_attente = false;
                            self.bit = 0;
                            EvenementHx711::Niveau(false)
                        }
                    } else {
                        let v = self.mesures[0];
                        let b = (v >> (23 - self.bit)) & 1 == 1;
                        self.bit += 1;
                        if self.bit == 24 {
                            self.mesures.remove(0);
                            en_attente = true;
                            restant = self.attente;
                        }
                        EvenementHx711::Niveau(b)
                    }
                }
                ActionHx711::Horloge(_) | ActionHx711::Pause(_) | ActionHx711::Avertir => EvenementHx711::Fait,
                ActionHx711::Valeur(v) => return Some(v),
                ActionHx711::Erreur => return None,
            };
            a = lecture.poursuivre(e);
        }
    }
}

#[test]
fn extension_de_signe() {
    assert_eq!(etendre_signe_24(0x000123), 0x123);
    assert_eq!(etendre_signe_24(0x7FFFFF), 8_388_607);
    assert_eq!(etendre_signe_24(0x800000), -8_388_608);
    assert_eq!(etendre_signe_24(0xFFFFFE), -2);
}

#[test]
fn lecture_brute() {
    let mut c = Capteur { attente: 2, mesures: vec![0xFFFFFE], bit: 0, journal: Vec::new() };
    assert_eq!(c.lire(false), Some(-2));
    let horloges = c.journal.iter().filter(|a| matches!(a, ActionHx711::Horloge(_))).count();
    // 24 impulsions de lecture et la 25e pour le gain.
    assert_eq!(horloges, 50);
    assert_eq!(c.journal[0], ActionHx711::LireDt);
    assert_eq!(c.journal[1], ActionHx711::Pause(1));
    let mut c = Capteur { attente: 0, mesures: vec![0x000123], bit: 0, journal: Vec::new() };
    assert_eq!(c.lire(false), Some(0x123));
}

#[test]
fn avertissement_apres_1000_attentes() {
    let mut c = Capteur { attente: 1001, mesures: vec![5], bit: 0, journal: Vec::new() };
    assert_eq!(c.lire(false), Some(5));
    let avert = c.journal.iter().position(|a| *a == ActionHx711::Avertir).unwrap();
    assert_eq!(c.journal[avert + 1], ActionHx711::Pause(500));
    let pauses = c.journal[..avert].iter().filter(|a| **a == ActionHx711::Pause(1)).count();
    assert_eq!(pauses, 1001);
}

#[test]
fn moyenne_de_dix_mesures() {
    let mut c = Capteur { attente: 1, mesures: vec![0xFFFFFB; 10], bit: 0, journal: Vec::new() };
    assert_eq!(c.lire(true), Some(-5));
    // Somme -15 : -1,5 tronqué vers zéro.
    let mut mesures = vec![0u32; 10];
    mesures[0] = 0xFFFFF1;
    let mut c = Capteur { attente: 0, mesures, bit: 0, journal: Vec::new() };
    assert_eq!(c.lire(true), Some(-1));
    let mut mesures = vec![0x7FFFFFu32; 10];
    mesures[9] = 0x7FFFF6;
    let mut c = Capteur { attente: 0, mesures, bit: 0, journal: Vec::new() };
    assert_eq!(c.lire(true), Some(8_388_606));
}

#[test]
fn erreur_d_horloge() {
    let (mut lecture, a) = Hx711::lire_brut();
    assert_eq!(a, ActionHx711::LireDt);
    let a = lecture.poursuivre(EvenementHx711::Niveau(false));
    assert_eq!(a, ActionHx711::Horloge(true));
    let a = lecture.poursuivre(EvenementHx711::Echec);
    assert_eq!(a, ActionHx711::Erreur);
}

#[test]
fn moyenne_commence_comme_une_mesure_brute() {
    let mut brut = Capteur { attente: 3, mesures: vec![0x800001], bit: 0, journal: Vec::new() };
    assert_eq!(brut.lire(false), Some(-8_388_607));
    let mut moy = Capteur { attente: 3, mesures: vec![0x800001; 10], bit: 0, journal: Vec::new() };
    assert_eq!(moy.lire(true), Some(-8_388_607));
    let n = brut.journal.len() - 1;
    assert_eq!(brut.journal[..n], moy.journal[..n]);
    assert_eq!(brut.journal[n], ActionHx711::Valeur(-8_388_607));
    assert_eq!(moy.journal[n], ActionHx711::LireDt);
    // Mêmes événements, mêmes actions : deux lectures identiques.
    let mut autre = Capteur { attente: 3, mesures: vec![0x800001], bit: 0, journal: Vec::new() };
    assert_eq!(autre.lire(false), Some(-8_388_607));
    assert_eq!(autre.journal, brut.journal);
}
