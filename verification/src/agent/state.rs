//! States of the kiosk and the texts shown on the status screen.
use vstd::prelude::*;

verus! {

#[derive(Clone, Copy, PartialEq, Eq, Debug, Structural)]
pub enum KioskState {
    Starting,
    ConnectingToManager,
    FetchingConfig,
    ConfigNotFound,
    Disabled,
    CheckingTarget,
    TargetUnavailable,
    StartingFirefox,
    WaitingFirefox,
    LoadingPage,
    LoadingSlow,
    Running,
    Restarting,
    FirefoxCrashed,
    PageTimeout,
    ManagerUnavailable,
    /// geckodriver or the Flatpak wrapper is missing or unusable.
    FirefoxComponentMissing,
    /// Remote `restart_browser` command received from NOC Manager.
    RemoteRestartBrowser,
    /// Remote `restart_agent` command received from NOC Manager.
    RemoteRestartAgent,
}

/// Short code written to the log and sent in heartbeats.
pub open spec fn code_spec(s: KioskState) -> Seq<char> {
    match s {
        KioskState::Starting => "STARTING"@,
        KioskState::ConnectingToManager => "CONNECTING_TO_MANAGER"@,
        KioskState::FetchingConfig => "FETCHING_CONFIG"@,
        KioskState::ConfigNotFound => "CONFIG_NOT_FOUND"@,
        KioskState::Disabled => "DISABLED"@,
        KioskState::CheckingTarget => "CHECKING_TARGET"@,
        KioskState::TargetUnavailable => "TARGET_UNAVAILABLE"@,
        KioskState::StartingFirefox => "STARTING_FIREFOX"@,
        KioskState::WaitingFirefox => "WAITING_FIREFOX"@,
        KioskState::LoadingPage => "LOADING_PAGE"@,
        KioskState::LoadingSlow => "LOADING_SLOW"@,
        KioskState::Running => "RUNNING"@,
        KioskState::Restarting => "RESTARTING"@,
        KioskState::FirefoxCrashed => "FIREFOX_CRASHED"@,
        KioskState::PageTimeout => "PAGE_TIMEOUT"@,
        KioskState::ManagerUnavailable => "MANAGER_UNAVAILABLE"@,
        KioskState::FirefoxComponentMissing => "FIREFOX_COMPONENT_MISSING"@,
        KioskState::RemoteRestartBrowser => "REMOTE_RESTART_BROWSER"@,
        KioskState::RemoteRestartAgent => "REMOTE_RESTART_AGENT"@,
    }
}

/// Length, first and last character of a state's code: no two codes
/// share all three.
spec fn code_signature(s: KioskState) -> (int, char, char) {
    match s {
        KioskState::Starting => (8, 'S', 'G'),
        KioskState::ConnectingToManager => (21, 'C', 'R'),
        KioskState::FetchingConfig => (15, 'F', 'G'),
        KioskState::ConfigNotFound => (16, 'C', 'D'),
        KioskState::Disabled => (8, 'D', 'D'),
        KioskState::CheckingTarget => (15, 'C', 'T'),
        KioskState::TargetUnavailable => (18, 'T', 'E'),
        KioskState::StartingFirefox => (16, 'S', 'X'),
        KioskState::WaitingFirefox => (15, 'W', 'X'),
        KioskState::LoadingPage => (12, 'L', 'E'),
        KioskState::LoadingSlow => (12, 'L', 'W'),
        KioskState::Running => (7, 'R', 'G'),
        KioskState::Restarting => (10, 'R', 'G'),
        KioskState::FirefoxCrashed => (15, 'F', 'D'),
        KioskState::PageTimeout => (12, 'P', 'T'),
        KioskState::ManagerUnavailable => (19, 'M', 'E'),
        KioskState::FirefoxComponentMissing => (25, 'F', 'G'),
        KioskState::RemoteRestartBrowser => (22, 'R', 'R'),
        KioskState::RemoteRestartAgent => (20, 'R', 'T'),
    }
}

proof fn lemma_code_signature(s: KioskState)
    ensures
        (code_spec(s).len() as int, code_spec(s)[0], code_spec(s).last()) == code_signature(s),
{
    match s {
        KioskState::Starting => {
            reveal_strlit("STARTING");
        },
        KioskState::ConnectingToManager => {
            reveal_strlit("CONNECTING_TO_MANAGER");
        },
        KioskState::FetchingConfig => {
            reveal_strlit("FETCHING_CONFIG");
        },
        KioskState::ConfigNotFound => {
            reveal_strlit("CONFIG_NOT_FOUND");
        },
        KioskState::Disabled => {
            reveal_strlit("DISABLED");
        },
        KioskState::CheckingTarget => {
            reveal_strlit("CHECKING_TARGET");
        },
        KioskState::TargetUnavailable => {
            reveal_strlit("TARGET_UNAVAILABLE");
        },
        KioskState::StartingFirefox => {
            reveal_strlit("STARTING_FIREFOX");
        },
        KioskState::WaitingFirefox => {
            reveal_strlit("WAITING_FIREFOX");
        },
        KioskState::LoadingPage => {
            reveal_strlit("LOADING_PAGE");
        },
        KioskState::LoadingSlow => {
            reveal_strlit("LOADING_SLOW");
        },
        KioskState::Running => {
            reveal_strlit("RUNNING");
        },
        KioskState::Restarting => {
            reveal_strlit("RESTARTING");
        },
        KioskState::FirefoxCrashed => {
            reveal_strlit("FIREFOX_CRASHED");
        },
        KioskState::PageTimeout => {
            reveal_strlit("PAGE_TIMEOUT");
        },
        KioskState::ManagerUnavailable => {
            reveal_strlit("MANAGER_UNAVAILABLE");
        },
        KioskState::FirefoxComponentMissing => {
            reveal_strlit("FIREFOX_COMPONENT_MISSING");
        },
        KioskState::RemoteRestartBrowser => {
            reveal_strlit("REMOTE_RESTART_BROWSER");
        },
        KioskState::RemoteRestartAgent => {
            reveal_strlit("REMOTE_RESTART_AGENT");
        },
    }
}

/// Distinct states have distinct codes, so a code in the log or in a
/// heartbeat names one state.
pub proof fn law_codes_are_distinct(a: KioskState, b: KioskState)
    ensures
        a != b ==> code_spec(a) != code_spec(b),
{
    lemma_code_signature(a);
    lemma_code_signature(b);
}

/// A character of a state code: an upper-case ASCII letter or `_`.
pub open spec fn code_char(c: char) -> bool {
    ('A' <= c && c <= 'Z') || c == '_'
}

/// Every state code is non-empty and made of upper-case ASCII letters and
/// `_`, so it reads as one word in the log.
pub proof fn law_codes_are_upper_case_words(s: KioskState)
    ensures
        code_spec(s).len() > 0,
        forall|i: int| 0 <= i < code_spec(s).len() ==> code_char(#[trigger] code_spec(s)[i]),
{
    match s {
        KioskState::Starting => {
            reveal_strlit("STARTING");
        },
        KioskState::ConnectingToManager => {
            reveal_strlit("CONNECTING_TO_MANAGER");
        },
        KioskState::FetchingConfig => {
            reveal_strlit("FETCHING_CONFIG");
        },
        KioskState::ConfigNotFound => {
            reveal_strlit("CONFIG_NOT_FOUND");
        },
        KioskState::Disabled => {
            reveal_strlit("DISABLED");
        },
        KioskState::CheckingTarget => {
            reveal_strlit("CHECKING_TARGET");
        },
        KioskState::TargetUnavailable => {
            reveal_strlit("TARGET_UNAVAILABLE");
        },
        KioskState::StartingFirefox => {
            reveal_strlit("STARTING_FIREFOX");
        },
        KioskState::WaitingFirefox => {
            reveal_strlit("WAITING_FIREFOX");
        },
        KioskState::LoadingPage => {
            reveal_strlit("LOADING_PAGE");
        },
        KioskState::LoadingSlow => {
            reveal_strlit("LOADING_SLOW");
        },
        KioskState::Running => {
            reveal_strlit("RUNNING");
        },
        KioskState::Restarting => {
            reveal_strlit("RESTARTING");
        },
        KioskState::FirefoxCrashed => {
            reveal_strlit("FIREFOX_CRASHED");
        },
        KioskState::PageTimeout => {
            reveal_strlit("PAGE_TIMEOUT");
        },
        KioskState::ManagerUnavailable => {
            reveal_strlit("MANAGER_UNAVAILABLE");
        },
        KioskState::FirefoxComponentMissing => {
            reveal_strlit("FIREFOX_COMPONENT_MISSING");
        },
        KioskState::RemoteRestartBrowser => {
            reveal_strlit("REMOTE_RESTART_BROWSER");
        },
        KioskState::RemoteRestartAgent => {
            reveal_strlit("REMOTE_RESTART_AGENT");
        },
    }
}

/// Main message (large text under the logo).
pub open spec fn primary_spec(s: KioskState) -> Seq<char> {
    match s {
        KioskState::Starting => "Initialisation du kiosque…"@,
        KioskState::ConnectingToManager => "Connexion au serveur de configuration…"@,
        KioskState::FetchingConfig => "Récupération de la configuration…"@,
        KioskState::ConfigNotFound => "Kiosque non configuré"@,
        KioskState::Disabled => "Affichage désactivé"@,
        KioskState::CheckingTarget => "Vérification du service…"@,
        KioskState::TargetUnavailable => "Service indisponible"@,
        KioskState::StartingFirefox => "Démarrage de Firefox…"@,
        KioskState::WaitingFirefox => "Préparation du navigateur…"@,
        KioskState::LoadingPage => "La page est en cours de chargement…"@,
        KioskState::LoadingSlow => "Le chargement prend plus de temps que prévu…"@,
        KioskState::Running => "Affichage en cours"@,
        KioskState::Restarting => "Actualisation de l'affichage…"@,
        KioskState::FirefoxCrashed => "Firefox s'est arrêté"@,
        KioskState::PageTimeout => "La page ne répond pas correctement"@,
        KioskState::ManagerUnavailable => "Serveur de configuration indisponible"@,
        KioskState::FirefoxComponentMissing => "Composant Firefox indisponible"@,
        KioskState::RemoteRestartBrowser => "Actualisation de l'affichage…"@,
        KioskState::RemoteRestartAgent => "Redémarrage de l'agent…"@,
    }
}

/// Default secondary message; `{username}` is substituted when shown.
pub open spec fn secondary_spec(s: KioskState) -> Seq<char> {
    match s {
        KioskState::Starting => "Préparation de l'affichage"@,
        KioskState::ConnectingToManager => "Contact du serveur NOC Manager"@,
        KioskState::FetchingConfig => "Lecture des paramètres du kiosque"@,
        KioskState::ConfigNotFound => "Aucune configuration n'existe pour {username}"@,
        KioskState::Disabled => "Ce kiosque a été désactivé depuis le serveur"@,
        KioskState::CheckingTarget => "Contrôle de l'accessibilité de la destination"@,
        KioskState::TargetUnavailable => "Impossible de joindre le serveur"@,
        KioskState::StartingFirefox => "Lancement du navigateur en arrière-plan"@,
        KioskState::WaitingFirefox => "Initialisation de la session WebDriver"@,
        KioskState::LoadingPage => "Le navigateur travaille en arrière-plan"@,
        KioskState::LoadingSlow => "Toujours en attente de la page…"@,
        KioskState::Running => ""@,
        KioskState::Restarting => "Redémarrage planifié du navigateur"@,
        KioskState::FirefoxCrashed => "Redémarrage du navigateur…"@,
        KioskState::PageTimeout => "Le navigateur va être relancé"@,
        KioskState::ManagerUnavailable => "Impossible de contacter NOC Manager"@,
        KioskState::FirefoxComponentMissing => "geckodriver ou le wrapper Flatpak est introuvable"@,
        KioskState::RemoteRestartBrowser => "Redémarrage du navigateur"@,
        KioskState::RemoteRestartAgent => "Réinitialisation de l'affichage"@,
    }
}

impl KioskState {
    pub fn code(self) -> (r: &'static str)
        ensures
            r@ == code_spec(self),
    {
        match self {
            KioskState::Starting => "STARTING",
            KioskState::ConnectingToManager => "CONNECTING_TO_MANAGER",
            KioskState::FetchingConfig => "FETCHING_CONFIG",
            KioskState::ConfigNotFound => "CONFIG_NOT_FOUND",
            KioskState::Disabled => "DISABLED",
            KioskState::CheckingTarget => "CHECKING_TARGET",
            KioskState::TargetUnavailable => "TARGET_UNAVAILABLE",
            KioskState::StartingFirefox => "STARTING_FIREFOX",
            KioskState::WaitingFirefox => "WAITING_FIREFOX",
            KioskState::LoadingPage => "LOADING_PAGE",
            KioskState::LoadingSlow => "LOADING_SLOW",
            KioskState::Running => "RUNNING",
            KioskState::Restarting => "RESTARTING",
            KioskState::FirefoxCrashed => "FIREFOX_CRASHED",
            KioskState::PageTimeout => "PAGE_TIMEOUT",
            KioskState::ManagerUnavailable => "MANAGER_UNAVAILABLE",
            KioskState::FirefoxComponentMissing => "FIREFOX_COMPONENT_MISSING",
            KioskState::RemoteRestartBrowser => "REMOTE_RESTART_BROWSER",
            KioskState::RemoteRestartAgent => "REMOTE_RESTART_AGENT",
        }
    }

    pub fn primary(self) -> (r: &'static str)
        ensures
            r@ == primary_spec(self),
    {
        match self {
            KioskState::Starting => "Initialisation du kiosque…",
            KioskState::ConnectingToManager => "Connexion au serveur de configuration…",
            KioskState::FetchingConfig => "Récupération de la configuration…",
            KioskState::ConfigNotFound => "Kiosque non configuré",
            KioskState::Disabled => "Affichage désactivé",
            KioskState::CheckingTarget => "Vérification du service…",
            KioskState::TargetUnavailable => "Service indisponible",
            KioskState::StartingFirefox => "Démarrage de Firefox…",
            KioskState::WaitingFirefox => "Préparation du navigateur…",
            KioskState::LoadingPage => "La page est en cours de chargement…",
            KioskState::LoadingSlow => "Le chargement prend plus de temps que prévu…",
            KioskState::Running => "Affichage en cours",
            KioskState::Restarting => "Actualisation de l'affichage…",
            KioskState::FirefoxCrashed => "Firefox s'est arrêté",
            KioskState::PageTimeout => "La page ne répond pas correctement",
            KioskState::ManagerUnavailable => "Serveur de configuration indisponible",
            KioskState::FirefoxComponentMissing => "Composant Firefox indisponible",
            KioskState::RemoteRestartBrowser => "Actualisation de l'affichage…",
            KioskState::RemoteRestartAgent => "Redémarrage de l'agent…",
        }
    }

    pub fn secondary(self) -> (r: &'static str)
        ensures
            r@ == secondary_spec(self),
    {
        match self {
            KioskState::Starting => "Préparation de l'affichage",
            KioskState::ConnectingToManager => "Contact du serveur NOC Manager",
            KioskState::FetchingConfig => "Lecture des paramètres du kiosque",
            KioskState::ConfigNotFound => "Aucune configuration n'existe pour {username}",
            KioskState::Disabled => "Ce kiosque a été désactivé depuis le serveur",
            KioskState::CheckingTarget => "Contrôle de l'accessibilité de la destination",
            KioskState::TargetUnavailable => "Impossible de joindre le serveur",
            KioskState::StartingFirefox => "Lancement du navigateur en arrière-plan",
            KioskState::WaitingFirefox => "Initialisation de la session WebDriver",
            KioskState::LoadingPage => "Le navigateur travaille en arrière-plan",
            KioskState::LoadingSlow => "Toujours en attente de la page…",
            KioskState::Running => "",
            KioskState::Restarting => "Redémarrage planifié du navigateur",
            KioskState::FirefoxCrashed => "Redémarrage du navigateur…",
            KioskState::PageTimeout => "Le navigateur va être relancé",
            KioskState::ManagerUnavailable => "Impossible de contacter NOC Manager",
            KioskState::FirefoxComponentMissing => "geckodriver ou le wrapper Flatpak est introuvable",
            KioskState::RemoteRestartBrowser => "Redémarrage du navigateur",
            KioskState::RemoteRestartAgent => "Réinitialisation de l'affichage",
        }
    }
}

/// Progressive messages while the page loads: the message of the last step
/// whose threshold (in seconds) has been reached.
pub open spec fn loading_message_spec(elapsed_seconds: u64) -> Seq<char> {
    if elapsed_seconds >= 45 {
        "Finalisation de l'affichage…"@
    } else if elapsed_seconds >= 30 {
        "Toujours en attente de la page…"@
    } else if elapsed_seconds >= 15 {
        "Le chargement prend plus de temps que prévu…"@
    } else if elapsed_seconds >= 5 {
        "Chargement du tableau de bord…"@
    } else {
        "La page est en cours de chargement…"@
    }
}

pub fn loading_message(elapsed_seconds: u64) -> (r: &'static str)
    ensures
        r@ == loading_message_spec(elapsed_seconds),
{
    if elapsed_seconds >= 45 {
        "Finalisation de l'affichage…"
    } else if elapsed_seconds >= 30 {
        "Toujours en attente de la page…"
    } else if elapsed_seconds >= 15 {
        "Le chargement prend plus de temps que prévu…"
    } else if elapsed_seconds >= 5 {
        "Chargement du tableau de bord…"
    } else {
        "La page est en cours de chargement…"
    }
}

/// A log line: `{timestamp} [{username}] {STATE}`, then ` {message}` when
/// there is one.
pub open spec fn log_line_spec(
    timestamp: Seq<char>,
    username: Seq<char>,
    state_code: Seq<char>,
    message: Seq<char>,
) -> Seq<char> {
    timestamp + " ["@ + username + "] "@ + state_code + if message.len() == 0 {
        Seq::empty()
    } else {
        " "@ + message
    }
}

pub fn log_line(timestamp: &str, username: &str, state_code: &str, message: &str) -> (r: String)
    ensures
        r@ == log_line_spec(timestamp@, username@, state_code@, message@),
{
    let mut r = crate::text::owned(timestamp);
    r.append(" [");
    r.append(username);
    r.append("] ");
    r.append(state_code);
    if message.unicode_len() > 0 {
        r.append(" ");
        r.append(message);
    }
    r
}

} // verus!
