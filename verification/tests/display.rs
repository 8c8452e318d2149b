use noc::display::app::{after_rdp_fetch, attempt_step, begin_attempt, idle_screen, screen, AppModel, AttemptAction, AttemptStep, FetchStep};
use noc::display::config::{Config, RdpSettings, UiSettings};
use noc::display::events::{
    classify_dispatch, event_response, ready_timer_id, Event, EventKind, EventResponse, SinkAction,
};
use noc::display::health::{heartbeat_body, heartbeat_path, rdp_config_path, RdpConfigFetch, RdpConfigResponse};
use noc::display::settings::{advanced_properties, authentication_level, control_properties, credssp_off_retained, no_prompt_settings, policy_retained, Value};
use noc::display::state::{AppState, Machine};
use noc::display::status::Status;
use noc::display::credentials::configured_secret;
use noc::display::credentials::{encode_utf16, entropy_text, provisioning_target_ok, same_secret, secret_file_ok, Secret};
use noc::display::config::{check_config_size, strip_bom};

#[test]
fn logon_gate_retry_timeout_and_late_event() {
    let now: u64 = 1_000_000;
    let mut machine = Machine::new();
    machine.connecting(now);
    assert_eq!(machine.state, AppState::Connecting);
    assert!(machine.timed_out(now + 46_000));
    machine.failure(now, 10);
    assert_eq!(machine.state, AppState::Error);
    assert!(!machine.login_complete());
    assert_eq!(machine.seconds(now), 10);
    assert!(!machine.retry_due(now + 9_000));
    assert!(machine.retry_due(now + 10_000));
    machine.connecting(now);
    assert!(machine.login_complete());
    machine.failure(now, 10);
    assert_eq!(machine.state, AppState::Reconnecting);
}

#[test]
fn countdown_rounds_up() {
    let mut m = Machine::new();
    assert_eq!(m.seconds(0), 0);
    m.failure(0, 3);
    assert_eq!(m.seconds(1), 3);
    assert_eq!(m.seconds(1000), 2);
    assert_eq!(m.seconds(2999), 1);
    assert_eq!(m.seconds(3000), 0);
    assert!(!m.timed_out(10_000_000));
    assert_eq!(AppState::Reconnecting.code(), "RECONNECTING");
}

#[test]
fn status_messages() {
    assert_eq!(Status::Ready.message(), "Bienvenue. Votre poste est prêt.");
    assert!(Status::Loading.is_loading());
    assert!(!Status::Loading.is_error());
    assert!(Status::SessionEnded.is_error());
    assert!(Status::ServerUnavailable.is_error());
}

fn valid() -> Config {
    let mut c = Config::default();
    c.rdp.enabled = true;
    c.rdp.server = "192.168.10.50".into();
    c.rdp.username = "kiosk".into();
    c
}

#[test]
fn config_validation() {
    assert!(Config::default().validate().is_ok());
    assert!(valid().validate().is_ok());
    let mut c = valid();
    c.rdp.retry_seconds = 0;
    assert_eq!(c.validate().unwrap_err(), "Port ou intervalle de reconnexion invalide");
    let mut c = valid();
    c.rdp.password = Some(String::new());
    assert_eq!(c.validate().unwrap_err(), "Mot de passe RDP invalide (vide, trop long ou caractère nul)");
    let mut c = valid();
    c.rdp.password = Some("é".repeat(512));
    assert!(c.validate().is_ok());
    c.rdp.password = Some("😀".repeat(257));
    assert!(c.validate().is_err());
    let mut c = valid();
    c.rdp.username = "a\u{7}b".into();
    assert_eq!(c.validate().unwrap_err(), "Paramètre RDP invalide");
    let mut c = valid();
    c.rdp.server = " ".into();
    assert_eq!(c.validate().unwrap_err(), "Serveur et utilisateur RDP requis");
    c.manager.provides_rdp = true;
    c.manager.host = "manager".into();
    assert!(c.validate().is_ok());
    let mut c = valid();
    c.rdp.server = "user@host".into();
    assert!(c.validate().unwrap_err().starts_with("rdp.server doit"));
    let mut c = valid();
    c.ui.error_text = String::new();
    assert_eq!(c.validate().unwrap_err(), "Texte UI invalide");
    let mut c = valid();
    c.manager.enabled = true;
    assert_eq!(c.validate().unwrap_err(), "Hôte et port NOC Manager requis (heartbeat ou RDP centralisé activé)");
    c.manager.host = "h\nx".into();
    assert_eq!(c.validate().unwrap_err(), "Hôte NOC Manager invalide");
    assert_eq!(
        valid().details("KIOSK1"),
        "Utilisateur Windows : KIOSK1\nRDP — utilisateur : kiosk   •   Serveur : 192.168.10.50:3389"
    );
}

#[test]
fn rdp_config_from_manager() {
    let mut rdp = RdpSettings::default();
    let found = |server: &str, user: &str| {
        let mut r = RdpConfigResponse::with_enabled(true);
        r.server = server.into();
        r.username = user.into();
        r.port = 3390;
        r.password = Some("s3cret".into());
        Ok(RdpConfigFetch::Found(r))
    };
    assert!(matches!(after_rdp_fetch(Ok(RdpConfigFetch::KioskNotFound), &mut rdp, "W"), FetchStep::Fail { kiosk_missing: true, .. }));
    assert!(matches!(after_rdp_fetch(Ok(RdpConfigFetch::Found(RdpConfigResponse::with_enabled(false))), &mut rdp, "W"), FetchStep::Idle));
    assert!(matches!(after_rdp_fetch(found(" ", ""), &mut rdp, "W"), FetchStep::Fail { kiosk_missing: false, .. }));
    assert!(matches!(after_rdp_fetch(Err(0x80004005), &mut rdp, "W"), FetchStep::Fail { reason, .. } if reason == "RDP config fetch from Manager failed HRESULT=80004005"));
    assert!(matches!(after_rdp_fetch(found("10.0.0.5", ""), &mut rdp, "W"), FetchStep::Connect));
    assert_eq!(rdp.server, "10.0.0.5");
    assert_eq!(rdp.port, 3390);
    assert_eq!(rdp.username, "W");
    assert_eq!(rdp.password.as_deref(), Some("s3cret"));
    assert!(matches!(after_rdp_fetch(found("10.0.0.5", "linux1"), &mut rdp, "W"), FetchStep::Connect));
    assert_eq!(rdp.username, "linux1");
}

#[test]
fn connection_screen() {
    let ui = UiSettings::default();
    assert!(screen(AppState::Starting, false, None, false, false, 0, &ui).is_none());
    assert!(screen(AppState::Connected, false, None, false, false, 0, &ui).is_none());
    let v = screen(AppState::Connecting, false, None, false, false, 0, &ui).unwrap();
    assert_eq!((v.status, v.text.as_str(), v.animate), (Status::Loading, "Connexion en cours…", true));
    let v = screen(AppState::Error, false, None, false, false, 7, &ui).unwrap();
    assert_eq!(v.status, Status::ServerUnavailable);
    assert_eq!(v.text, "Connexion impossible\nNouvelle tentative dans 7 secondes");
    let v = screen(AppState::Reconnecting, false, None, false, false, 2, &ui).unwrap();
    assert_eq!(v.text, "Connexion interrompue\nNouvelle tentative dans 2 secondes");
    let v = screen(AppState::Error, true, None, true, false, 2, &ui).unwrap();
    assert_eq!((v.status, v.text.as_str()), (Status::Loading, "Aucune configuration trouvée…"));
    let v = screen(AppState::Error, true, None, false, true, 2, &ui).unwrap();
    assert_eq!(v.text, "Aucune configuration kiosk trouvée…");
    let v = screen(AppState::Error, true, Some(10_000), false, false, 2, &ui).unwrap();
    assert_eq!((v.status, v.text.as_str()), (Status::Loading, "Connexion à NOC Manager…"));
    let v = screen(AppState::Error, true, Some(60_000), false, false, 2, &ui).unwrap();
    assert_eq!(v.text, "NOC Manager injoignable\nNouvelle tentative dans 2 secondes");
}

#[test]
fn control_events() {
    assert!(matches!(classify_dispatch(1, -1, false), SinkAction::Emit(EventKind::Connecting)));
    assert!(matches!(classify_dispatch(3, -1, true), SinkAction::Nothing));
    assert!(matches!(classify_dispatch(3, -1, false), SinkAction::Emit(EventKind::LoginComplete)));
    assert!(matches!(classify_dispatch(4, 2, false), SinkAction::Fail(EventKind::Disconnected(2))));
    assert!(matches!(classify_dispatch(22, 7, false), SinkAction::Fail(EventKind::InteractionRequired { source: "OnLogonError", code: 7 })));
    assert!(matches!(classify_dispatch(8, 0, false), SinkAction::Fail(EventKind::InteractionRequired { source: "ExternalFullscreenRequested", code: 8 })));
    assert!(matches!(classify_dispatch(16, 0, false), SinkAction::RefuseKey));
    assert!(matches!(classify_dispatch(99, 0, false), SinkAction::Nothing));
    let ev = |kind| Event { generation: 3, kind };
    assert!(matches!(event_response(ev(EventKind::Connecting), 4, true, AppState::Connecting, false, false), EventResponse::Skip));
    assert!(matches!(event_response(ev(EventKind::TransportConnected), 3, true, AppState::Connecting, false, false), EventResponse::StartReadyTimer));
    assert!(matches!(event_response(ev(EventKind::TransportConnected), 3, true, AppState::Connecting, true, false), EventResponse::Skip));
    assert!(matches!(event_response(ev(EventKind::RemoteDesktopSizeChanged), 3, true, AppState::Connecting, false, false), EventResponse::Skip));
    assert!(matches!(event_response(ev(EventKind::Fatal(-5)), 3, true, AppState::Connected, false, false), EventResponse::Fail(m) if m == "RDP fatal reason=-5"));
    assert!(matches!(
        event_response(ev(EventKind::InteractionRequired { source: "OnLogonError", code: -1 }), 3, true, AppState::Connecting, false, false),
        EventResponse::Fail(m) if m == "RDP interaction refused source=OnLogonError code=-1 hex=0xffffffff"
    ));
    assert_eq!(ready_timer_id(5), 105);
}

#[test]
fn rdp_control_settings() {
    let mut rdp = RdpSettings::default();
    rdp.server = "srv".into();
    rdp.username = "u".into();
    let c = control_properties(&rdp, 1920, 1080);
    assert_eq!(c[0].name, "Server");
    assert!(matches!(&c[3].value, Value::Int(1920)));
    assert_eq!(authentication_level(false), 1);
    rdp.ignore_certificate_errors = true;
    let a = advanced_properties(&rdp);
    assert!(matches!(&a[0].value, Value::Int(3389)));
    assert!(matches!(&a[1].value, Value::Int(0)));
    assert_eq!(a[11].name, "overallConnectionTimeout");
}

#[test]
fn manager_requests() {
    assert_eq!(rdp_config_path("KIOSK1"), "/api/kiosk/KIOSK1/rdp");
    assert_eq!(heartbeat_path("KIOSK1"), "/api/heartbeat/display/KIOSK1");
    assert_eq!(
        heartbeat_body("0.1.0", "b1", "CONNECTED"),
        "{\"version\":\"0.1.0\",\"build\":\"b1\",\"state\":\"CONNECTED\"}"
    );
}

#[test]
fn configured_password_takes_priority_without_dpapi() {
    let target = RdpSettings {
        password: Some("synthetic-test-é\\value".into()),
        ..Default::default()
    };
    assert_eq!(
        configured_secret(&target).unwrap().0,
        "synthetic-test-é\\value".encode_utf16().collect::<Vec<_>>()
    );
    assert!(configured_secret(&RdpSettings::default()).is_none());
}

#[test]
fn credentials_helpers() {
    assert_eq!(encode_utf16("a😀"), "a😀".encode_utf16().collect::<Vec<_>>());
    let mut t = RdpSettings::default();
    t.server = "srv".into();
    t.username = "u".into();
    assert_eq!(entropy_text(&t), "DisplayClient/v1\0srv\03389\0\0u");
    assert!(provisioning_target_ok(&t));
    assert!(!provisioning_target_ok(&RdpSettings::default()));
    assert!(same_secret(&Secret(vec![1, 2]), &Secret(vec![1, 2])));
    assert!(!same_secret(&Secret(vec![1, 2]), &Secret(vec![1])));
    assert!(secret_file_ok(65536));
    assert!(!secret_file_ok(65537));
}

#[test]
fn config_file_preconditions() {
    assert!(check_config_size(65536).is_ok());
    assert_eq!(check_config_size(65537).unwrap_err(), "config.toml dépasse 64 Kio");
    assert_eq!(strip_bom("\u{feff}\u{feff}[rdp]"), "[rdp]");
    assert_eq!(strip_bom("[rdp]"), "[rdp]");
}

#[test]
fn attempt_starts_from_the_local_configuration() {
    let mut c = Config::default();
    c.rdp.enabled = false;
    assert!(matches!(attempt_step(&c), AttemptStep::Idle));
    c.rdp.enabled = true;
    c.manager.provides_rdp = true;
    assert!(matches!(attempt_step(&c), AttemptStep::FetchFromManager));
    c.manager.provides_rdp = false;
    assert!(matches!(attempt_step(&c), AttemptStep::Connect));
    let idle = idle_screen();
    assert_eq!(idle.status, Status::Ready);
    assert_eq!(idle.text, "Bienvenue. Votre poste est prêt.");
    assert!(!idle.animate);
}

#[test]
fn connection_state_stays_consistent_through_steps() {
    let mut m = Machine::new();
    m.connecting(1_000);
    assert_eq!((m.state, m.deadline, m.retry_at), (AppState::Connecting, Some(46_000), None));
    m.failure(2_000, 10);
    assert_eq!((m.state, m.deadline, m.retry_at), (AppState::Error, None, Some(12_000)));
    m.connecting(12_000);
    assert!(m.login_complete());
    assert_eq!((m.state, m.deadline, m.ever_connected), (AppState::Connected, None, true));
    m.failure(20_000, 5);
    assert_eq!((m.state, m.retry_at, m.ever_connected), (AppState::Reconnecting, Some(25_000), true));
}

fn model() -> AppModel {
    AppModel {
        config: Config::default(),
        machine: Machine::new(),
        generation: 7,
        has_client: true,
        transport_connected: true,
        config_missing: true,
        kiosk_missing: true,
        manager_unreachable_since: Some(5),
    }
}

#[test]
fn an_attempt_adopts_the_configuration_read() {
    let mut app = model();
    let mut c = Config::default();
    c.rdp.enabled = false;
    c.rdp.retry_seconds = 42;
    assert!(matches!(begin_attempt(&mut app, Ok(c), true, 1_000), AttemptAction::Idle));
    assert_eq!(app.generation, 8);
    assert!(!app.has_client && !app.transport_connected && !app.config_missing && !app.kiosk_missing);
    assert_eq!(app.config.rdp.retry_seconds, 42);
    assert_eq!((app.machine.state, app.machine.retry_at, app.machine.deadline), (AppState::Starting, None, None));
    assert_eq!(app.manager_unreachable_since, None);

    let mut app = model();
    let mut c = Config::default();
    c.rdp.enabled = true;
    c.manager.provides_rdp = true;
    assert!(matches!(begin_attempt(&mut app, Ok(c), true, 1_000), AttemptAction::FetchFromManager));
    assert_eq!((app.machine.state, app.machine.deadline), (AppState::Connecting, Some(46_000)));
    assert_eq!(app.manager_unreachable_since, Some(5));

    let mut app = model();
    app.generation = u64::MAX;
    let retry = app.config.rdp.retry_seconds as u64;
    match begin_attempt(&mut app, Err("config.toml invalide".to_string()), false, 2_000) {
        AttemptAction::Fail(m) => assert_eq!(m, "config.toml invalide"),
        _ => panic!("the attempt must fail"),
    }
    assert_eq!(app.generation, 0);
    assert!(app.config_missing);
    assert_eq!((app.machine.state, app.machine.retry_at), (AppState::Error, Some(2_000 + retry * 1000)));
}

#[test]
fn the_security_policy_must_be_retained() {
    let s = no_prompt_settings();
    assert_eq!(s.len(), 9);
    assert_eq!(s[0].name, "AllowPromptingForCredentials");
    assert!(matches!(s[4].value, Value::Int(-1)));
    assert!(policy_retained(0, true, 1, false));
    assert!(policy_retained(0, true, 0, true));
    assert!(!policy_retained(-1, true, 1, false));
    assert!(!policy_retained(0, false, 1, false));
    assert!(!policy_retained(0, true, 2, false));
    assert!(credssp_off_retained(true, 0));
    assert!(!credssp_off_retained(true, -1));
    assert!(!credssp_off_retained(false, 0));
}

#[test]
fn rdp_settings_debug_text_hides_the_password() {
    let mut r = RdpSettings::default();
    r.password = Some("DO_NOT_ECHO".to_string());
    r.server = "srv".to_string();
    assert_eq!(r.debug_text(), "RdpSettings { enabled: false, password: \"[REDACTED]\", .. }");
    r.enabled = true;
    assert!(!r.debug_text().contains("DO_NOT_ECHO"));
    assert_eq!(r.debug_text(), "RdpSettings { enabled: true, password: \"[REDACTED]\", .. }");
}
