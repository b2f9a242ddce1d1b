# Boîte aux lettres LoRa — logique vérifiée

Notificateur de courrier pour une boîte aux lettres collective : une carte
Heltec WiFi LoRa 32 (V2) pèse le contenu de la boîte (HX711 et quatre
jauges), envoie le résultat par LoRa à une carte dans la maison, attend un
accusé de réception, puis se rendort jusqu'au prochain réveil (12h00 ou
18h00, heure de Paris).

## Organisation

- `src/` : la bibliothèque vérifiée par Verus.
  - `sx127x.rs` : pilote du module radio, machine à états dont chaque pas
    suit le protocole décrit par `action_prevue` (échanges SPI, reset,
    pauses) ; lois : opérations bornées, émission réussie seulement après
    TxDone, contrôle de la version, encodage des trames et de la fréquence,
    modèle des registres (RegOpMode vaut 0x85 après `init` puis
    `demarrer_ecoute`).
  - `hx711.rs` : lecture bit à bit du convertisseur, extension de signe,
    moyenne de 10 mesures ; lois : lectures déterministes, une moyenne
    commence exactement comme une mesure brute.
  - `pesee.rs` : choix du zéro et boucle de stabilisation bornée.
  - `protocole.rs` : messages `COLIS:<g>` / `RIEN`, accusés `ACK_...` avec
    correction d'horloge ; loi d'aller-retour entre émetteur et récepteur.
  - `emetteur.rs` : cycle d'échange de l'émetteur (3 essais, 100 sondages),
    qui converge toujours vers la fin de cycle.
  - `recepteur.rs` : traitement d'un paquet reçu (accusé, compte des
    colis), lignes de l'écran, récepteur d'essai.
  - `portee.rs` : émetteurs d'essai (portée, veille) : `PING <n>` avec
    attente de l'accusé exact `ACK <n>`, bilan des envois.
  - `temps.rs` : heure d'été européenne, heure de Paris, prochain réveil,
    correction d'horloge (calendrier de `chrono`).
  - `wifi.rs` : choix du réseau Wi-Fi.
  - `decimal.rs` : écriture et lecture d'entiers décimaux.
  - `tampons.rs` : tampons de capacité fixe de `heapless`.
- `tests/` : essais sur des valeurs concrètes (module radio et capteur
  simulés).
- `app/` : les programmes des cartes (broches, bus SPI, écran, Wi-Fi,
  horloge, calculs de poids en virgule flottante) autour de la
  bibliothèque.
