use noc::agent::app::{
    after_fetch, after_launch_error, after_page_error, after_poll, after_target_check,
    countdown_detail, countdown_step, countdown_total, loading_step, outcome_screen,
    poll_interval, restart_delay, ConfigStep, CountdownStep, LoadingStep, Outcome,
};
use noc::agent::commands::{
    accept_command, execute_command, CommandStore, PendingAction, RemoteCommand, RemoteControl,
};
use noc::agent::config::{expand_tilde, join, resolve, Config, FirefoxConfig, LogConfig, ManagerConfig, TargetConfig, UiConfig};
use noc::agent::firefox::{
    firefox_args, flatpak_bin, geckodriver_candidates, resolve_geckodriver, wrapper_candidate,
    LaunchError, PageError,
};
use noc::agent::manager::{
    accept_config, ack_endpoint, classify_status, command_endpoint, fetch_status,
    heartbeat_endpoint, kiosk_endpoint, short_error, unreachable_message, FetchOutcome,
    KioskConfig, TargetCheck,
};
use noc::agent::scheduler::{first_run_given, normalize, CronRestart};
use noc::agent::state::{loading_message, KioskState};
use noc::agent::ui::{UiBridge, Visibility, WindowAction};
use noc::agent::app::after_supervision_poll;
use noc::agent::commands::endpoint_transition;
use noc::agent::config::{config_candidates, pick_username};
use noc::agent::state::log_line;
use noc::agent::config::client_timeout;
use noc::agent::app::{supervision_decision, SupervisionDecision, SupervisionQuery};
use noc::agent::run::{run_step, RunAction, RunEvent, RunPhase};
use noc::agent::manager::{command_poll_failure, http_failure};

#[test]
fn five_field_expression_is_accepted() {
    let mut cron = CronRestart::new();
    assert!(cron.update(Some("0 4 * * *")));
    assert!(!cron.is_invalid());
    assert!(cron.next_run().is_some());
}

#[test]
fn empty_expression_disables_scheduling() {
    let mut cron = CronRestart::new();
    cron.update(Some(""));
    assert!(!cron.is_invalid());
    assert!(cron.next_run().is_none());
}

#[test]
fn invalid_expression_is_reported() {
    let mut cron = CronRestart::new();
    cron.update(Some("pas du cron"));
    assert!(cron.is_invalid());
}

#[test]
fn cron_normalization_and_unchanged_updates() {
    assert_eq!(normalize("0 4 * * *"), "0 0 4 * * *");
    assert_eq!(normalize("  0  0 4 * * * "), "0 0 4 * * *");
    let mut cron = CronRestart::new();
    assert!(cron.update(Some(" 30 3 * * 1 ")));
    assert_eq!(cron.expression(), "30 3 * * 1");
    assert!(!cron.update(Some("30 3 * * 1")));
    assert!(cron.update(None));
    assert_eq!(cron.expression(), "");
    assert!(cron.next_run().is_none());
}

#[test]
fn cron_fires_once_per_minute() {
    let mut cron = CronRestart::new();
    cron.update(Some("* * * * *"));
    let next = cron.next_run().unwrap();
    assert!(!cron.due_at(next - 1, 0));
    assert!(cron.due_at(next, 0));
    // Another instant of the same minute never fires twice.
    let same_minute = next - next.rem_euclid(60) + 59;
    assert!(!cron.due_at(same_minute.max(next), 0));
}

#[test]
fn remote_control_priorities() {
    let mut r = RemoteControl::new();
    assert!(r.queue(PendingAction::RestartBrowser));
    assert!(!r.queue(PendingAction::RestartBrowser));
    assert!(r.queue(PendingAction::RestartAgent));
    assert!(!r.queue(PendingAction::RestartBrowser));
    assert_eq!(r.take(), Some(PendingAction::RestartAgent));
    assert_eq!(r.take(), None);
    r.begin_browser_restart();
    assert!(r.browser_restart_in_progress());
    assert!(!r.queue(PendingAction::RestartBrowser));
    r.end_browser_restart();
    assert!(r.queue(PendingAction::RestartBrowser));
    assert_eq!(r.take(), Some(PendingAction::RestartBrowser));
}

#[test]
fn commands_run_once() {
    let mut store = CommandStore::new(5);
    let mut logged = 0u64;
    let old = RemoteCommand { id: 5, action: "restart_browser".into() };
    assert_eq!(accept_command(&old, &mut store, &mut logged), (false, true));
    assert_eq!(accept_command(&old, &mut store, &mut logged), (false, false));
    let new = RemoteCommand { id: 6, action: "restart_browser".into() };
    assert_eq!(accept_command(&new, &mut store, &mut logged), (true, false));
    assert_eq!(store.last_command_id(), 6);
    assert_eq!(accept_command(&new, &mut store, &mut logged), (false, true));
    let mut remote = RemoteControl::new();
    let e = execute_command("restart_browser", &mut remote);
    assert_eq!(e.show, Some(KioskState::RemoteRestartBrowser));
    assert!(e.queued);
    let e = execute_command("restart_browser", &mut remote);
    assert!(!e.queued);
    let e = execute_command("restart_agent", &mut remote);
    assert_eq!(e.show, Some(KioskState::RemoteRestartAgent));
    assert!(e.queued);
    let e = execute_command("self_destruct", &mut remote);
    assert_eq!(e.show, None);
    assert!(!e.queued);
    assert_eq!(remote.take(), Some(PendingAction::RestartAgent));
}

#[test]
fn state_texts() {
    assert_eq!(KioskState::Running.code(), "RUNNING");
    assert_eq!(KioskState::FirefoxComponentMissing.code(), "FIREFOX_COMPONENT_MISSING");
    assert_eq!(KioskState::ConfigNotFound.primary(), "Kiosque non configuré");
    assert_eq!(KioskState::Running.secondary(), "");
    assert_eq!(loading_message(0), "La page est en cours de chargement…");
    assert_eq!(loading_message(5), "Chargement du tableau de bord…");
    assert_eq!(loading_message(14), "Chargement du tableau de bord…");
    assert_eq!(loading_message(15), "Le chargement prend plus de temps que prévu…");
    assert_eq!(loading_message(30), "Toujours en attente de la page…");
    assert_eq!(loading_message(1000), "Finalisation de l'affichage…");
}

#[test]
fn target_status_classification() {
    for code in [200u16, 302, 399, 401, 403] {
        assert!(matches!(classify_status(code), TargetCheck::Reachable(c) if c == code));
    }
    let msg = |code| match classify_status(code) {
        TargetCheck::Unusable(m) => m,
        TargetCheck::Reachable(_) => panic!("reachable"),
    };
    assert_eq!(msg(404), "Page introuvable — HTTP 404");
    assert_eq!(msg(410), "Page supprimée — HTTP 410");
    assert_eq!(msg(503), "Erreur du service — HTTP 503");
    assert_eq!(msg(418), "Réponse inattendue — HTTP 418");
    assert_eq!(msg(100), "Réponse inattendue — HTTP 100");
    assert_eq!(unreachable_message(true, true, true), "Le serveur ne répond pas (délai dépassé)");
    assert_eq!(unreachable_message(false, false, true), "Adresse du service invalide");
    assert_eq!(unreachable_message(false, false, false), "Impossible de joindre le serveur");
    assert_eq!(short_error(false, true), "connexion refusée / DNS");
}

#[test]
fn manager_endpoints() {
    assert_eq!(kiosk_endpoint("http://m:8080//", "k1"), "http://m:8080/api/kiosk/k1");
    assert_eq!(command_endpoint("http://m", "k1"), "http://m/api/kiosk/k1/command");
    assert_eq!(ack_endpoint("http://m/", "k1", 42), "http://m/api/kiosk/k1/command/42/ack");
    assert_eq!(heartbeat_endpoint("http://m/", "k1"), "http://m/api/heartbeat/agent/k1");
    assert!(fetch_status(200).is_none());
    assert!(matches!(fetch_status(404), Some(FetchOutcome::NotFound)));
    assert!(matches!(fetch_status(500), Some(FetchOutcome::Unavailable(m)) if m == "HTTP 500"));
}

fn config(url: &str, enabled: bool) -> KioskConfig {
    KioskConfig {
        username: "k".into(),
        name: String::new(),
        url: url.into(),
        enabled,
        restart_cron: None,
        ready_selector: Some("  #main ".into()),
    }
}

#[test]
fn kiosk_config_checks() {
    let c = config("https://x", true);
    assert_eq!(c.ready_selector(), "#main");
    assert_eq!(c.label(), "k");
    assert!(matches!(accept_config(config("  ", true)), FetchOutcome::Unavailable(m) if m == "configuration sans URL"));
    assert!(matches!(accept_config(config("https://x", true)), FetchOutcome::Found(_)));
}

#[test]
fn orchestrator_decisions() {
    let mut cron = CronRestart::new();
    let (step, changed) = after_fetch(FetchOutcome::Unavailable("down".into()), &mut cron, 10, 30);
    assert!(!changed);
    assert!(matches!(step, ConfigStep::Wait(w) if w.state == KioskState::ManagerUnavailable && w.seconds == 10 && w.secondary.as_deref() == Some("down")));
    let (step, _) = after_fetch(FetchOutcome::NotFound, &mut cron, 10, 30);
    assert!(matches!(step, ConfigStep::Wait(w) if w.state == KioskState::ConfigNotFound));
    let (step, _) = after_fetch(FetchOutcome::Found(Box::new(config("https://x", false))), &mut cron, 10, 30);
    assert!(matches!(step, ConfigStep::Wait(w) if w.state == KioskState::Disabled && w.seconds == 30));
    let (step, _) = after_fetch(FetchOutcome::Found(Box::new(config("https://x", true))), &mut cron, 10, 30);
    assert!(matches!(step, ConfigStep::Proceed(k) if k.url == "https://x"));
    assert!(after_target_check(TargetCheck::Reachable(200), 10).is_none());
    assert!(matches!(after_target_check(TargetCheck::Unusable("Page introuvable — HTTP 404".into()), 10), Some(w) if w.state == KioskState::TargetUnavailable));
    let w = after_launch_error(LaunchError::MissingComponent("geckodriver".into()), 3);
    assert_eq!((w.state, w.seconds), (KioskState::FirefoxComponentMissing, 10));
    let w = after_launch_error(LaunchError::Other("boom".into()), 3);
    assert_eq!((w.state, w.seconds), (KioskState::FirefoxCrashed, 3));
    assert_eq!(after_page_error(&PageError::Timeout, 7).state, KioskState::PageTimeout);
    assert_eq!(after_page_error(&PageError::SessionLost("x".into()), 7).state, KioskState::FirefoxCrashed);
    assert!(matches!(loading_step(60, 60, 15), LoadingStep::TimedOut));
    assert!(matches!(loading_step(4, 2, 15), LoadingStep::Show { state: KioskState::LoadingPage, detail, .. } if detail == "4 s / 5 s"));
    assert!(matches!(loading_step(20, 60, 15), LoadingStep::Show { state: KioskState::LoadingSlow, message, .. } if message == "Le chargement prend plus de temps que prévu…"));
    let current = config("https://x", true);
    assert!(matches!(after_poll(&config("https://x", false), &current), Some(Outcome::Disabled)));
    assert!(matches!(after_poll(&config("https://y", true), &current), Some(Outcome::ConfigChanged(m)) if m == "URL modifiée côté manager"));
    let mut other = config("https://x", true);
    other.ready_selector = Some("#other".into());
    assert!(matches!(after_poll(&other, &current), Some(Outcome::ConfigChanged(m)) if m == "ready_selector modifié côté manager"));
    assert!(after_poll(&config("https://x", true), &current).is_none());
    assert_eq!(poll_interval(2), 5);
    assert_eq!(poll_interval(30), 30);
    assert_eq!(outcome_screen(&Outcome::CronRestart), (KioskState::Restarting, None));
    assert_eq!(outcome_screen(&Outcome::ConfigChanged("x".into())), (KioskState::Restarting, Some("Mise à jour de l'affichage…")));
    assert_eq!(restart_delay(true, 9), 2);
    assert_eq!(restart_delay(false, 9), 9);
    assert_eq!(countdown_total(0), 1);
    assert_eq!(countdown_detail(3), "Nouvelle tentative dans 3 secondes");
    assert_eq!(countdown_detail(1), "Nouvelle tentative dans 1 seconde");
    assert_eq!(countdown_step(None), CountdownStep::Continue);
    assert_eq!(countdown_step(Some(PendingAction::RestartAgent)), CountdownStep::RestartAgent);
    assert_eq!(countdown_step(Some(PendingAction::RestartBrowser)), CountdownStep::Restart);
}

#[test]
fn status_screen_model() {
    let mut ui = UiBridge::new("kiosk7");
    let s = ui.snapshot();
    assert_eq!(s.state, KioskState::Starting);
    assert!(s.visible);
    assert_eq!(s.show_epoch, 1);
    assert!(ui.set(KioskState::ConfigNotFound));
    assert_eq!(ui.snapshot().secondary, "Aucune configuration n'existe pour kiosk7");
    assert!(!ui.set(KioskState::ConfigNotFound));
    ui.set_detail("3 s");
    assert_eq!(ui.snapshot().detail, "3 s");
    assert!(ui.set_with(KioskState::ManagerUnavailable, Some("pour {username} : timeout")));
    assert_eq!(ui.snapshot().secondary, "pour kiosk7 : timeout");
    assert_eq!(ui.snapshot().detail, "");
    assert!(ui.hide_screen());
    assert!(!ui.hide_screen());
    assert!(ui.show());
    assert!(!ui.show());
    assert_eq!(ui.snapshot().show_epoch, 3);
    let mut v = Visibility::new();
    assert_eq!(v.apply(true, 1), WindowAction::Raise);
    assert_eq!(v.apply(true, 1), WindowAction::Nothing);
    assert_eq!(v.apply(false, 1), WindowAction::Hide);
    assert_eq!(v.apply(false, 1), WindowAction::Nothing);
    assert_eq!(v.apply(true, 2), WindowAction::Raise);
}

#[test]
fn agent_paths() {
    assert_eq!(join("/base", "x"), "/base/x");
    assert_eq!(join("/base/", "x"), "/base/x");
    assert_eq!(join("/base", "/abs"), "/abs");
    assert_eq!(join("", "x"), "x");
    assert_eq!(expand_tilde("~/p", Some("/home/u")), "/home/u/p");
    assert_eq!(expand_tilde("~/p", None), "~/p");
    assert_eq!(expand_tilde("/abs", Some("/home/u")), "/abs");
    assert_eq!(resolve("/etc/noc", "noc-agent.log", None), "/etc/noc/noc-agent.log");
    assert_eq!(resolve("/etc/noc", "~/log", Some("/home/u")), "/home/u/log");
    let cfg = Config {
        manager: ManagerConfig::with_url("http://m".into()),
        ui: UiConfig::default(),
        firefox: FirefoxConfig::default(),
        target: TargetConfig::default(),
        log: LogConfig::default(),
    };
    assert_eq!(cfg.log_path("/opt/agent", None), "/opt/agent/noc-agent.log");
    assert_eq!(cfg.manager.poll_seconds, 30);
    assert_eq!(cfg.firefox.load_timeout_seconds, 60);
    assert_eq!(Config::asset_candidates("/b", "logo.png", None), vec!["/b/logo.png".to_string(), "/b/assets/logo.png".to_string()]);
    assert_eq!(Config::asset_path("/b", "logo.png", None, &vec![false, true]), "/b/assets/logo.png");
    assert_eq!(Config::asset_path("/b", "logo.png", None, &vec![false, false]), "/b/logo.png");
}

#[test]
fn firefox_components() {
    let mut cfg = FirefoxConfig::default();
    let dirs = vec!["/usr/bin".to_string(), "/opt/bin".to_string()];
    let c = geckodriver_candidates(&cfg, None, &dirs);
    assert_eq!(c, vec!["/usr/bin/geckodriver", "/opt/bin/geckodriver", "/usr/bin/geckodriver", "/usr/local/bin/geckodriver", "/snap/bin/geckodriver"]);
    assert_eq!(resolve_geckodriver(&cfg, None, &dirs, &vec![false, true, false, false, true]).as_deref(), Some("/opt/bin/geckodriver"));
    assert_eq!(resolve_geckodriver(&cfg, None, &dirs, &vec![false; 5]), None);
    cfg.geckodriver = " ~/gd ".into();
    assert_eq!(geckodriver_candidates(&cfg, Some("/home/u"), &dirs), vec!["/home/u/gd"]);
    assert_eq!(flatpak_bin(&cfg, &dirs, &vec![false, false, true]).as_deref(), Some("/opt/bin/flatpak"));
    assert_eq!(flatpak_bin(&cfg, &dirs, &vec![true, false, true]).as_deref(), Some("/usr/bin/flatpak"));
    assert_eq!(wrapper_candidate(&cfg, "/base", None), "/base/firefox-flatpak-wrapper.sh");
    cfg.wrapper = "bin/w.sh".into();
    assert_eq!(wrapper_candidate(&cfg, "/base", None), "/base/bin/w.sh");
    assert_eq!(firefox_args(true, "/p"), vec!["--kiosk", "-profile", "/p"]);
    assert_eq!(firefox_args(false, "/p"), vec!["-profile", "/p"]);
}

#[test]
fn supervision_poll_keeps_the_display_when_manager_is_unreachable() {
    let current = config("https://x", true);
    let mut cron = CronRestart::new();
    let (o, changed) = after_supervision_poll(&FetchOutcome::Unavailable("timeout".into()), &current, &mut cron);
    assert!(o.is_none() && !changed);
    let (o, changed) = after_supervision_poll(&FetchOutcome::NotFound, &current, &mut cron);
    assert!(o.is_none() && !changed);
    let mut latest = config("https://x", true);
    latest.restart_cron = Some("0 4 * * *".into());
    let (o, changed) = after_supervision_poll(&FetchOutcome::Found(Box::new(latest)), &current, &mut cron);
    assert!(o.is_none() && changed);
    assert_eq!(cron.expression(), "0 4 * * *");
    let (o, _) = after_supervision_poll(&FetchOutcome::Found(Box::new(config("https://z", true))), &current, &mut cron);
    assert!(matches!(o, Some(Outcome::ConfigChanged(_))));
    assert_eq!(cron.expression(), "0 4 * * *");
}

#[test]
fn agent_environment_and_log_lines() {
    assert_eq!(
        config_candidates(Some("/x/c.toml"), Some("/home/u"), Some("/opt/noc")),
        vec!["/x/c.toml", "config.toml", "/home/u/.config/noc-agent/config.toml", "/opt/noc/config.toml", "/etc/noc-agent/config.toml"]
    );
    assert_eq!(config_candidates(None, None, None), vec!["config.toml", "/etc/noc-agent/config.toml"]);
    assert_eq!(pick_username(&vec![None, Some("  ".into()), Some(" kiosk1 ".into())], Some("other")), "kiosk1");
    assert_eq!(pick_username(&vec![None, None, None], Some("kiosk2\n")), "kiosk2");
    assert_eq!(pick_username(&vec![None], None), "unknown");
    assert_eq!(endpoint_transition(true, false), (false, true));
    assert_eq!(endpoint_transition(false, false), (false, false));
    assert_eq!(endpoint_transition(false, true), (true, true));
    assert_eq!(log_line("2026-09-09 01:00:00", "kiosk-noc-1", "RUNNING", "page ready"), "2026-09-09 01:00:00 [kiosk-noc-1] RUNNING page ready");
    assert_eq!(log_line("t", "u", "STARTING", ""), "t [u] STARTING");
}

#[test]
fn background_intervals_and_timeouts_are_bounded() {
    let mut m = ManagerConfig::with_url("http://m".to_string());
    assert_eq!((m.command_poll_interval(), m.heartbeat_interval(), m.background_timeout()), (5, 30, 5));
    m.command_poll_seconds = 0;
    m.heartbeat_seconds = 0;
    m.timeout_seconds = 0;
    assert_eq!((m.command_poll_interval(), m.heartbeat_interval(), m.background_timeout()), (1, 1, 1));
    m.timeout_seconds = 3;
    assert_eq!(m.background_timeout(), 3);
    assert_eq!(client_timeout(0), 1);
    assert_eq!(client_timeout(10), 10);
}

#[test]
fn manager_request_failures() {
    assert_eq!(http_failure(200), None);
    assert_eq!(http_failure(204), None);
    assert_eq!(http_failure(500), Some("HTTP 500".to_string()));
    assert_eq!(http_failure(404), Some("HTTP 404".to_string()));
    assert_eq!(command_poll_failure(404), Some("endpoint de commandes absent (HTTP 404)".to_string()));
    assert_eq!(command_poll_failure(503), Some("HTTP 503".to_string()));
    assert_eq!(command_poll_failure(200), None);
}

#[test]
fn run_cycle_hides_the_status_screen_only_when_the_page_is_ready() {
    let (p, a) = run_step(RunPhase::Starting, &RunEvent::Start);
    assert_eq!((p, a), (RunPhase::Fetching, vec![RunAction::ShowStatus, RunAction::FetchConfig]));
    let (p, a) = run_step(p, &RunEvent::Proceed);
    assert_eq!((p, a), (RunPhase::Checking, vec![RunAction::CheckTarget]));
    let (p, a) = run_step(p, &RunEvent::TargetReachable);
    assert_eq!((p, a), (RunPhase::Launching, vec![RunAction::LaunchBrowser]));
    let (p, a) = run_step(p, &RunEvent::BrowserLaunched);
    assert_eq!((p, a), (RunPhase::Loading, vec![RunAction::LoadPage]));
    let (p, a) = run_step(p, &RunEvent::PageReady);
    assert_eq!((p, a), (RunPhase::Running, vec![RunAction::EndBrowserRestart, RunAction::ShowRunning, RunAction::HideStatus, RunAction::Supervise]));
    let (p2, a) = run_step(p, &RunEvent::SupervisionEnded(Outcome::CronRestart));
    assert_eq!(
        (p2, a),
        (RunPhase::Fetching, vec![RunAction::ShowStatus, RunAction::ShowOutcome, RunAction::ShutdownBrowser, RunAction::Rest, RunAction::ShowStatus, RunAction::FetchConfig])
    );
    let (_, a) = run_step(p, &RunEvent::SupervisionEnded(Outcome::Remote(PendingAction::RestartAgent)));
    assert_eq!(a, vec![RunAction::ShowStatus, RunAction::ShutdownBrowser, RunAction::RestartSelf]);
    let (_, a) = run_step(RunPhase::Loading, &RunEvent::LoadInterrupted(PendingAction::RestartAgent));
    assert_eq!(a, vec![RunAction::ShutdownBrowser, RunAction::RestartSelf]);
    let (p, a) = run_step(RunPhase::Checking, &RunEvent::Wait);
    assert_eq!((p, a), (RunPhase::Fetching, vec![RunAction::ShowWait, RunAction::CountDown, RunAction::ShowStatus, RunAction::FetchConfig]));
    let (p, a) = run_step(RunPhase::Running, &RunEvent::PageReady);
    assert_eq!((p, a), (RunPhase::Running, vec![]));
}

#[test]
fn every_state_has_its_own_code() {
    let all = [
        KioskState::Starting, KioskState::ConnectingToManager, KioskState::FetchingConfig,
        KioskState::ConfigNotFound, KioskState::Disabled, KioskState::CheckingTarget,
        KioskState::TargetUnavailable, KioskState::StartingFirefox, KioskState::WaitingFirefox,
        KioskState::LoadingPage, KioskState::LoadingSlow, KioskState::Running, KioskState::Restarting,
        KioskState::FirefoxCrashed, KioskState::PageTimeout, KioskState::ManagerUnavailable,
        KioskState::FirefoxComponentMissing, KioskState::RemoteRestartBrowser, KioskState::RemoteRestartAgent,
    ];
    for (i, a) in all.iter().enumerate() {
        for (j, b) in all.iter().enumerate() {
            assert_eq!(i == j, a.code() == b.code());
        }
    }
    assert_eq!(KioskState::Running.code(), "RUNNING");
}

#[test]
fn supervision_asks_in_order_of_priority() {
    assert!(matches!(supervision_decision(None, None, None, 0, 30), SupervisionDecision::Ask(SupervisionQuery::Remote)));
    assert!(matches!(
        supervision_decision(Some(Some(PendingAction::RestartAgent)), None, None, 0, 30),
        SupervisionDecision::End(Outcome::Remote(PendingAction::RestartAgent))
    ));
    assert!(matches!(supervision_decision(Some(None), None, None, 0, 30), SupervisionDecision::Ask(SupervisionQuery::Browser)));
    match supervision_decision(Some(None), Some(false), None, 0, 30) {
        SupervisionDecision::End(Outcome::FirefoxGone(m)) => assert_eq!(m, "session Firefox perdue (fermeture ou crash)"),
        _ => panic!("a lost browser ends the display"),
    }
    assert!(matches!(supervision_decision(Some(None), Some(true), None, 0, 30), SupervisionDecision::Ask(SupervisionQuery::Schedule)));
    assert!(matches!(supervision_decision(Some(None), Some(true), Some(true), 0, 30), SupervisionDecision::End(Outcome::CronRestart)));
    assert!(matches!(supervision_decision(Some(None), Some(true), Some(false), 29, 30), SupervisionDecision::Wait));
    assert!(matches!(supervision_decision(Some(None), Some(true), Some(false), 30, 30), SupervisionDecision::Poll));
}

#[test]
fn next_run_on_a_utc_clock() {
    // "0 4 * * *" from 1970-01-01 00:00 UTC: the first match is 04:00 the
    // same day; a UTC clock shows every match once, at its own reading.
    let e = normalize("0 4 * * *");
    assert_eq!(e, "0 0 4 * * *");
    assert_eq!(first_run_given(&e, 0, 0, &vec![Some(14_400)]), Some(14_400));
    // A match the clock skips passes to the next day's.
    assert_eq!(first_run_given(&e, 0, 0, &vec![None, Some(100_800)]), Some(100_800));
    // Three hours ahead of UTC, the wall clock reads 03:00 at `from`: the
    // 04:00 match is shown one hour later.
    assert_eq!(first_run_given(&e, 0, 10_800, &vec![Some(3_600)]), Some(3_600));
    assert_eq!(first_run_given(&e, 0, 0, &vec![]), None);
}

#[test]
fn cron_dedups_on_the_local_minute() {
    let mut cron = CronRestart::new();
    cron.update(Some("* * * * *"));
    let next = cron.next_run().unwrap();
    // A zone 30 s ahead of UTC: its minute starts 30 s before a UTC minute.
    assert!(cron.due_at(next, 30));
    let local_start = next + 30 - (next + 30).rem_euclid(60) - 30;
    let later = local_start + 59;
    assert!(later < next || !cron.due_at(later.max(next), 30));
}
