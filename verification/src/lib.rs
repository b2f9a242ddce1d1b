//! Logique vérifiée de la boîte aux lettres LoRa : pilote du module radio
//! SX127x, lecture du capteur de poids HX711 et stabilisation de la pesée,
//! protocole de messages entre l'émetteur et le récepteur, cycle d'échange
//! de l'émetteur et des émetteurs d'essai, heure de Paris et prochain
//! réveil, choix du réseau Wi-Fi.

pub mod decimal;
pub mod emetteur;
pub mod hx711;
pub mod pesee;
pub mod portee;
pub mod protocole;
pub mod recepteur;
pub mod sx127x;
pub mod tampons;
pub mod temps;
pub mod wifi;
