//! Choix du réseau Wi-Fi du récepteur (pour la synchronisation NTP) : les
//! réseaux configurés sont essayés dans l'ordre ; pour chacun, si le scan
//! l'a vu, on reprend son canal et sa méthode d'authentification (WPA2
//! personnel à défaut), sinon on essaie avec les réglages par défaut
//! (WPA2 personnel). Un SSID de plus de 32 octets ou un mot de passe de
//! plus de 64 octets arrête tout. Une configuration refusée ou une
//! connexion ratée fait passer au réseau suivant ; une fois connecté, on
//! attend que l'interface réseau soit prête. Si aucun réseau ne convient,
//! l'erreur rendue est la dernière rencontrée, ou "liste vide".
//!
//! C'est une machine à états : l'appelant exécute l'action rendue et rend
//! l'événement qui en résulte à `poursuivre`.

use vstd::prelude::*;
use vstd::string::StringSliceAdditionalSpecFns;
use crate::tampons::{octets_texte32, octets_texte64, texte32_depuis, texte64_depuis};

verus! {

/// Méthode d'authentification Wi-Fi (mêmes variantes que
/// `embedded_svc::wifi::AuthMethod`).
#[derive(PartialEq, Eq, Structural, Clone, Copy, Debug)]
pub enum MethodeAuth {
    Aucune,
    Wep,
    Wpa,
    Wpa2Personnel,
    WpaWpa2Personnel,
    Wpa2Entreprise,
    Wpa3Personnel,
    Wpa2Wpa3Personnel,
    WapiPersonnel,
}

/// Un réseau vu lors du scan.
pub struct ReseauVu {
    /// Octets du SSID.
    pub ssid: Vec<u8>,
    pub canal: u8,
    pub auth: Option<MethodeAuth>,
}

/// Configuration client à essayer.
pub struct Tentative {
    pub ssid: heapless::String<32>,
    pub mot_de_passe: heapless::String<64>,
    pub canal: Option<u8>,
    pub auth: MethodeAuth,
}

/// Erreur finale du choix de réseau.
#[derive(PartialEq, Eq, Structural, Clone, Copy, Debug)]
pub enum ErreurWifi {
    /// Le SSID du réseau configuré de ce rang dépasse 32 octets.
    SsidTropLong(usize),
    /// Le mot de passe du réseau configuré de ce rang dépasse 64 octets.
    MotDePasseTropLong(usize),
    /// Configuration refusée (code d'erreur ESP-IDF).
    Configuration(i32),
    /// Connexion ratée (code d'erreur ESP-IDF).
    Connexion(i32),
    /// Interface réseau jamais prête après la connexion (code d'erreur).
    AttenteReseau(i32),
    /// Aucun réseau configuré.
    ListeVide,
}

/// Action demandée à l'appelant.
pub enum ActionWifi {
    /// Appliquer cette configuration client.
    Configurer(Tentative),
    /// Se connecter avec la configuration appliquée.
    Connecter,
    /// Attendre que l'interface réseau soit prête.
    AttendreReseau,
    /// Connecté au réseau configuré de ce rang.
    Connecte(usize),
    /// Abandon avec cette erreur.
    Abandon(ErreurWifi),
}

/// Résultat de l'action, rendu par l'appelant.
#[derive(PartialEq, Eq, Structural, Clone, Copy, Debug)]
pub enum EvenementWifi {
    Fait,
    /// Erreur (code d'erreur ESP-IDF).
    Erreur(i32),
}

/// Vue d'une configuration client.
pub struct TentativeVue {
    pub ssid: Seq<u8>,
    pub mot_de_passe: Seq<u8>,
    pub canal: Option<u8>,
    pub auth: MethodeAuth,
}

pub enum ActionWifiVue {
    Configurer(TentativeVue),
    Connecter,
    AttendreReseau,
    Connecte(usize),
    Abandon(ErreurWifi),
}

impl View for ActionWifi {
    type V = ActionWifiVue;

    open spec fn view(&self) -> ActionWifiVue {
        match self {
            ActionWifi::Configurer(t) => ActionWifiVue::Configurer(
                TentativeVue {
                    ssid: octets_texte32(t.ssid),
                    mot_de_passe: octets_texte64(t.mot_de_passe),
                    canal: t.canal,
                    auth: t.auth,
                },
            ),
            ActionWifi::Connecter => ActionWifiVue::Connecter,
            ActionWifi::AttendreReseau => ActionWifiVue::AttendreReseau,
            ActionWifi::Connecte(i) => ActionWifiVue::Connecte(*i),
            ActionWifi::Abandon(e) => ActionWifiVue::Abandon(*e),
        }
    }
}

/// Rang du premier réseau vu dont le SSID a ces octets, s'il y en a un.
pub open spec fn premier_vu(vus: Seq<ReseauVu>, ssid: Seq<u8>) -> Option<int>
    decreases vus.len(),
{
    if vus.len() == 0 {
        None
    } else {
        match premier_vu(vus.drop_last(), ssid) {
            Some(i) => Some(i),
            None => if vus.last().ssid@ == ssid {
                Some(vus.len() - 1)
            } else {
                None
            },
        }
    }
}

/// Configuration à essayer pour un réseau configuré (SSID, mot de passe),
/// ou l'erreur qui arrête tout si l'un des deux est trop long.
pub open spec fn tentative_spec(
    rang: usize,
    ssid: Seq<u8>,
    mot_de_passe: Seq<u8>,
    vus: Seq<ReseauVu>,
) -> Result<TentativeVue, ErreurWifi> {
    if ssid.len() > 32 {
        Err(ErreurWifi::SsidTropLong(rang))
    } else if mot_de_passe.len() > 64 {
        Err(ErreurWifi::MotDePasseTropLong(rang))
    } else {
        match premier_vu(vus, ssid) {
            Some(i) => Ok(
                TentativeVue {
                    ssid,
                    mot_de_passe,
                    canal: Some(vus[i].canal),
                    auth: match vus[i].auth {
                        Some(a) => a,
                        None => MethodeAuth::Wpa2Personnel,
                    },
                },
            ),
            None => Ok(
                TentativeVue { ssid, mot_de_passe, canal: None, auth: MethodeAuth::Wpa2Personnel },
            ),
        }
    }
}

/// Étape du choix de réseau.
#[derive(PartialEq, Eq, Structural, Clone, Copy, Debug)]
pub enum PhaseWifi {
    Configuration,
    Connexion,
    AttenteReseau,
    Fini,
}

/// Action au moment d'essayer le réseau configuré de rang `rang` : sa
/// configuration, ou l'abandon (trop long ; ou plus de réseau, avec la
/// dernière erreur ou "liste vide").
pub open spec fn action_essai(
    rang: int,
    derniere: Option<ErreurWifi>,
    reseaux: Seq<(&str, &str)>,
    vus: Seq<ReseauVu>,
) -> ActionWifiVue {
    if rang >= reseaux.len() {
        ActionWifiVue::Abandon(
            match derniere {
                Some(e) => e,
                None => ErreurWifi::ListeVide,
            },
        )
    } else {
        match tentative_spec(
            rang as usize,
            reseaux[rang].0.spec_bytes(),
            reseaux[rang].1.spec_bytes(),
            vus,
        ) {
            Ok(t) => ActionWifiVue::Configurer(t),
            Err(e) => ActionWifiVue::Abandon(e),
        }
    }
}

/// Nombre maximal d'événements avant la fin du choix de réseau, avec `n`
/// réseaux configurés : trois par réseau restant (configuration, connexion,
/// attente de l'interface).
pub open spec fn etapes_restantes(phase: PhaseWifi, rang: int, n: int) -> int {
    match phase {
        PhaseWifi::Configuration => 3 * (n - rang),
        PhaseWifi::Connexion => 3 * (n - rang) - 1,
        PhaseWifi::AttenteReseau => 3 * (n - rang) - 2,
        PhaseWifi::Fini => 0,
    }
}

/// Le choix de réseau en cours.
pub struct SelectionWifi {
    rang: usize,
    phase: PhaseWifi,
    derniere: Option<ErreurWifi>,
}

fn memes_octets(a: &[u8], b: &[u8]) -> (r: bool)
    ensures
        r == (a@ == b@),
{
    if a.len() != b.len() {
        return false;
    }
    let mut i: usize = 0;
    while i < a.len()
        invariant
            a@.len() == b@.len(),
            0 <= i <= a@.len(),
            forall|j: int| 0 <= j < i ==> a@[j] == b@[j],
        decreases a@.len() - i,
    {
        if a[i] != b[i] {
            return false;
        }
        i = i + 1;
    }
    assert(a@ =~= b@);
    true
}

fn chercher_vu(vus: &Vec<ReseauVu>, ssid: &[u8]) -> (r: Option<usize>)
    ensures
        r matches Some(i) ==> premier_vu(vus@, ssid@) == Some(i as int) && i < vus@.len(),
        r is None ==> premier_vu(vus@, ssid@) is None,
{
    let mut i: usize = 0;
    while i < vus.len()
        invariant
            0 <= i <= vus@.len(),
            premier_vu(vus@.take(i as int), ssid@) is None,
        decreases vus@.len() - i,
    {
        assert(vus@.take(i + 1).drop_last() =~= vus@.take(i as int));
        if memes_octets(vus[i].ssid.as_slice(), ssid) {
            proof {
                lemme_premier_vu_prefixe(vus@, ssid@, i + 1);
            }
            return Some(i);
        }
        i = i + 1;
    }
    assert(vus@.take(vus@.len() as int) =~= vus@);
    None
}

/// Un premier réseau trouvé dans un préfixe est le premier de la liste.
proof fn lemme_premier_vu_prefixe(vus: Seq<ReseauVu>, ssid: Seq<u8>, k: int)
    requires
        0 <= k <= vus.len(),
        premier_vu(vus.take(k), ssid) is Some,
    ensures
        premier_vu(vus, ssid) == premier_vu(vus.take(k), ssid),
    decreases vus.len() - k,
{
    if k < vus.len() {
        assert(vus.take(k + 1).drop_last() =~= vus.take(k));
        lemme_premier_vu_prefixe(vus, ssid, k + 1);
    } else {
        assert(vus.take(k) =~= vus);
    }
}

/// Action d'essai du réseau de rang `rang`.
fn essayer(
    rang: usize,
    derniere: Option<ErreurWifi>,
    reseaux: &[(&str, &str)],
    vus: &Vec<ReseauVu>,
) -> (a: ActionWifi)
    ensures
        a@ == action_essai(rang as int, derniere, reseaux@, vus@),
{
    if rang >= reseaux.len() {
        return ActionWifi::Abandon(
            match derniere {
                Some(e) => e,
                None => ErreurWifi::ListeVide,
            },
        );
    }
    let (ssid, mdp) = reseaux[rang];
    let s = match texte32_depuis(ssid) {
        Ok(s) => s,
        Err(_) => return ActionWifi::Abandon(ErreurWifi::SsidTropLong(rang)),
    };
    let m = match texte64_depuis(mdp) {
        Ok(m) => m,
        Err(_) => return ActionWifi::Abandon(ErreurWifi::MotDePasseTropLong(rang)),
    };
    match chercher_vu(vus, ssid.as_bytes()) {
        Some(i) => {
            let auth = match vus[i].auth {
                Some(a) => a,
                None => MethodeAuth::Wpa2Personnel,
            };
            ActionWifi::Configurer(Tentative { ssid: s, mot_de_passe: m, canal: Some(vus[i].canal), auth })
        },
        None => ActionWifi::Configurer(
            Tentative { ssid: s, mot_de_passe: m, canal: None, auth: MethodeAuth::Wpa2Personnel },
        ),
    }
}

impl SelectionWifi {
    pub closed spec fn rang(&self) -> int {
        self.rang as int
    }

    pub closed spec fn phase(&self) -> PhaseWifi {
        self.phase
    }

    pub closed spec fn derniere(&self) -> Option<ErreurWifi> {
        self.derniere
    }

    /// Début du choix : essai du premier réseau configuré.
    pub fn new(reseaux: &[(&str, &str)], vus: &Vec<ReseauVu>) -> (r: (Self, ActionWifi))
        ensures
            r.0.rang() == 0,
            r.0.derniere() is None,
            r.1@ == action_essai(0, None, reseaux@, vus@),
            r.0.phase() != PhaseWifi::Fini ==> r.0.rang() < reseaux@.len(),
            r.0.phase() == (if r.1@ is Configurer {
                PhaseWifi::Configuration
            } else {
                PhaseWifi::Fini
            }),
    {
        let a = essayer(0, None, reseaux, vus);
        let phase = match &a {
            ActionWifi::Configurer(_) => PhaseWifi::Configuration,
            _ => PhaseWifi::Fini,
        };
        (SelectionWifi { rang: 0, phase, derniere: None }, a)
    }

    /// Donne le résultat de l'action en cours ; rend l'action suivante :
    /// après une configuration refusée ou une connexion ratée, l'essai du
    /// réseau suivant (avec cette erreur comme dernière erreur) ; après une
    /// connexion réussie, l'attente de l'interface ; après celle-ci, la fin
    /// (connecté, ou abandon si l'attente a échoué).
    pub fn poursuivre(&mut self, e: EvenementWifi, reseaux: &[(&str, &str)], vus: &Vec<ReseauVu>) -> (a:
        ActionWifi)
        requires
            old(self).phase() != PhaseWifi::Fini,
            old(self).rang() < reseaux@.len(),
        ensures
            0 <= etapes_restantes(final(self).phase(), final(self).rang(), reseaux@.len() as int)
                < etapes_restantes(old(self).phase(), old(self).rang(), reseaux@.len() as int),
            final(self).phase() != PhaseWifi::Fini ==> final(self).rang() < reseaux@.len(),
            (old(self).phase() == PhaseWifi::Configuration && e == EvenementWifi::Fait) ==> a@
                == ActionWifiVue::Connecter && final(self).phase() == PhaseWifi::Connexion
                && final(self).rang() == old(self).rang(),
            (old(self).phase() == PhaseWifi::Connexion && e == EvenementWifi::Fait) ==> a@
                == ActionWifiVue::AttendreReseau && final(self).phase() == PhaseWifi::AttenteReseau
                && final(self).rang() == old(self).rang(),
            (old(self).phase() == PhaseWifi::AttenteReseau && e == EvenementWifi::Fait) ==> a@
                == ActionWifiVue::Connecte(old(self).rang() as usize) && final(self).phase()
                == PhaseWifi::Fini,
            old(self).phase() == PhaseWifi::AttenteReseau ==> (e matches EvenementWifi::Erreur(c)
                ==> a@ == ActionWifiVue::Abandon(ErreurWifi::AttenteReseau(c)) && final(self).phase()
                == PhaseWifi::Fini),
            old(self).phase() == PhaseWifi::Configuration ==> (e matches EvenementWifi::Erreur(c)
                ==> final(self).derniere() == Some(ErreurWifi::Configuration(c))),
            old(self).phase() == PhaseWifi::Connexion ==> (e matches EvenementWifi::Erreur(c)
                ==> final(self).derniere() == Some(ErreurWifi::Connexion(c))),
            ((old(self).phase() == PhaseWifi::Configuration || old(self).phase()
                == PhaseWifi::Connexion) && e is Erreur) ==> final(self).rang() == old(self).rang()
                + 1 && a@ == action_essai(final(self).rang(), final(self).derniere(), reseaux@, vus@)
                && final(self).phase() == (if a@ is Configurer {
                PhaseWifi::Configuration
            } else {
                PhaseWifi::Fini
            }),
    {
        match self.phase {
            PhaseWifi::Configuration | PhaseWifi::Connexion => match e {
                EvenementWifi::Fait => {
                    if self.phase == PhaseWifi::Configuration {
                        self.phase = PhaseWifi::Connexion;
                        ActionWifi::Connecter
                    } else {
                        self.phase = PhaseWifi::AttenteReseau;
                        ActionWifi::AttendreReseau
                    }
                },
                EvenementWifi::Erreur(c) => {
                    let erreur = if self.phase == PhaseWifi::Configuration {
                        ErreurWifi::Configuration(c)
                    } else {
                        ErreurWifi::Connexion(c)
                    };
                    let n = reseaux.len();
                    assert(self.rang < n);
                    let rang = self.rang + 1;
                    let a = essayer(rang, Some(erreur), reseaux, vus);
                    let phase = match &a {
                        ActionWifi::Configurer(_) => PhaseWifi::Configuration,
                        _ => PhaseWifi::Fini,
                    };
                    *self = SelectionWifi { rang, phase, derniere: Some(erreur) };
                    a
                },
            },
            PhaseWifi::AttenteReseau => {
                self.phase = PhaseWifi::Fini;
                match e {
                    EvenementWifi::Fait => ActionWifi::Connecte(self.rang),
                    EvenementWifi::Erreur(c) => ActionWifi::Abandon(ErreurWifi::AttenteReseau(c)),
                }
            },
            PhaseWifi::Fini => {
                assert(false);
                ActionWifi::Abandon(ErreurWifi::ListeVide)
            },
        }
    }
}

/// Le réseau vu retenu pour un SSID est le premier de la liste dont le SSID
/// est exactement celui-là (pas un SSID qui le prolonge) ; il n'y en a
/// aucun quand aucun réseau vu n'a exactement ce SSID.
pub proof fn loi_premier_vu(vus: Seq<ReseauVu>, ssid: Seq<u8>)
    ensures
        premier_vu(vus, ssid) matches Some(i) ==> 0 <= i < vus.len() && vus[i].ssid@ == ssid
            && forall|j: int| 0 <= j < i ==> #[trigger] vus[j].ssid@ != ssid,
        premier_vu(vus, ssid) is None ==> forall|j: int| 0 <= j < vus.len() ==> #[trigger] vus[j].ssid@ != ssid,
    decreases vus.len(),
{
    if vus.len() > 0 {
        let p = vus.drop_last();
        loi_premier_vu(p, ssid);
        match premier_vu(p, ssid) {
            Some(i) => {
                assert(p[i] == vus[i]);
                assert forall|j: int| 0 <= j < i implies #[trigger] vus[j].ssid@ != ssid by {
                    assert(p[j] == vus[j]);
                    assert(p[j].ssid@ != ssid);
                }
            },
            None => {
                assert forall|j: int| 0 <= j < p.len() implies #[trigger] vus[j].ssid@ != ssid by {
                    assert(p[j] == vus[j]);
                    assert(p[j].ssid@ != ssid);
                }
            },
        }
    }
}

/// La configuration essayée pour un réseau (SSID et mot de passe assez
/// courts) prend le canal et l'authentification du premier réseau vu dont
/// le SSID est exactement le sien (WPA2 si le scan n'en dit rien) ; sans
/// réseau vu de ce SSID, aucun canal et WPA2.
pub proof fn loi_tentative_reseau_exact(
    rang: usize,
    ssid: Seq<u8>,
    mot_de_passe: Seq<u8>,
    vus: Seq<ReseauVu>,
    i: int,
)
    requires
        ssid.len() <= 32,
        mot_de_passe.len() <= 64,
    ensures
        0 <= i < vus.len() && vus[i].ssid@ == ssid && (forall|j: int| 0 <= j < i ==> #[trigger] vus[j].ssid@
            != ssid) ==> tentative_spec(rang, ssid, mot_de_passe, vus) == Ok::<TentativeVue, ErreurWifi>(
            TentativeVue {
                ssid,
                mot_de_passe,
                canal: Some(vus[i].canal),
                auth: match vus[i].auth {
                    Some(a) => a,
                    None => MethodeAuth::Wpa2Personnel,
                },
            },
        ),
        (forall|j: int| 0 <= j < vus.len() ==> #[trigger] vus[j].ssid@ != ssid) ==> tentative_spec(
            rang,
            ssid,
            mot_de_passe,
            vus,
        ) == Ok::<TentativeVue, ErreurWifi>(
            TentativeVue { ssid, mot_de_passe, canal: None, auth: MethodeAuth::Wpa2Personnel },
        ),
{
    loi_premier_vu(vus, ssid);
    if 0 <= i < vus.len() && vus[i].ssid@ == ssid && (forall|j: int| 0 <= j < i ==> #[trigger] vus[j].ssid@
        != ssid) {
        match premier_vu(vus, ssid) {
            Some(k) => {
                if k < i {
                    assert(vus[k].ssid@ != ssid);
                } else if k > i {
                    assert(vus[i].ssid@ != ssid);
                }
            },
            None => {
                assert(vus[i].ssid@ != ssid);
            },
        }
    }
    if forall|j: int| 0 <= j < vus.len() ==> #[trigger] vus[j].ssid@ != ssid {
        if let Some(k) = premier_vu(vus, ssid) {
            assert(vus[k].ssid@ != ssid);
        }
    }
}

} // verus!
