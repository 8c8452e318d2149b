use noc::manager::api::{authorized, command_status};
use noc::manager::commands::{queue_command, CommandError, CommandStore, KioskCommand, PendingCommand};
use noc::manager::pages::{error_page, form_html, index, not_found, servers_list};
use noc::manager::config::{Config, DEFAULT_CONFIG_TOML};
use noc::manager::dashboard::{client_kiosk, kiosk_status, kiosk_view, presence};
use noc::manager::health::{
    escape, is_allowed_app, is_up, render_prometheus, render_prometheus_at, HealthStore,
    Heartbeat, HeartbeatBody,
};
use noc::manager::models::{validate, Kiosk, RdpConfig};
use noc::manager::rdp_servers::{RdpServer, ServerForm, ServerStore};
use noc::manager::storage::Storage;
use noc::manager::web::{esc, IndexQuery, KioskForm};

fn body(state: &str) -> HeartbeatBody {
    HeartbeatBody {
        version: "1.0".into(),
        build: "test".into(),
        state: state.into(),
    }
}

fn kiosk(agent: &str, display: Option<&str>) -> Kiosk {
    Kiosk {
        username: agent.into(),
        display_username: display.map(str::to_string),
        name: "Test".into(),
        url: "https://example.com".into(),
        enabled: true,
        restart_cron: None,
        rdp: RdpConfig::default(),
    }
}

#[test]
fn association_legacy_defaults_and_conflicts() {
    let legacy = Kiosk {
        username: "agent-a".into(),
        display_username: None,
        name: "A".into(),
        url: "https://example.com".into(),
        enabled: true,
        restart_cron: None,
        rdp: RdpConfig::default(),
    };
    assert_eq!(legacy.display_username(), "agent-a");
    let other = kiosk("agent-b", Some("display-b"));
    assert!(validate(&other, &[legacy.clone()], None).is_ok());
    assert!(validate(&kiosk("agent-b", Some("agent-a")), &[legacy.clone()], None).is_err());
    assert!(validate(&legacy, &[legacy.clone()], Some("agent-a")).is_ok());
    assert!(validate(&kiosk("agent-c", Some("display/b")), &[], None).is_err());
}

#[test]
fn ready_requires_both_recent_and_correct_states() {
    let mut k = kiosk("a", Some("d"));
    let mut a = Heartbeat {
        version: String::new(),
        build: String::new(),
        state: "RUNNING".into(),
        last_seen: 100,
    };
    let mut d = Heartbeat {
        state: "CONNECTED".into(),
        ..a.clone()
    };
    let status = |k: &Kiosk, a: Option<&Heartbeat>, d: Option<&Heartbeat>, now| {
        kiosk_status(k, a, d, now, 90)
    };
    assert_eq!(status(&k, Some(&a), Some(&d), 190), "ready");
    assert_eq!(status(&k, Some(&a), Some(&d), 191), "attention");
    assert_eq!(status(&k, Some(&a), None, 100), "attention");
    d.state = "RECONNECTING".into();
    assert_eq!(status(&k, Some(&a), Some(&d), 100), "attention");
    d.state = "CONNECTED".into();
    a.state = "TARGET_UNAVAILABLE".into();
    assert_eq!(status(&k, Some(&a), Some(&d), 100), "attention");
    k.enabled = false;
    assert_eq!(status(&k, Some(&a), Some(&d), 100), "disabled");
}

#[test]
fn add_leaves_the_stored_list_unchanged() {
    // `add` only computes the new list; the inventory changes once the
    // caller has written that list and commits it. The write itself, and
    // its failure, are handled by the program around the library.
    let storage = Storage::new(Vec::new());
    let candidate = storage.add(kiosk("a", None));
    assert!(candidate.is_ok());
    assert!(storage.all().is_empty());
}

#[test]
fn prometheus_remains_compatible_and_escapes_labels() {
    let mut s = HealthStore::new();
    s.record("agent", "a\"b", body("RUNNING"));
    let text = render_prometheus(&s, 90);
    assert!(text.contains("noc_up{app=\"agent\",username=\"a\\\"b\"} 1"));
    assert!(text.contains("noc_last_seen_seconds"));
    assert!(text.contains("noc_info"));
}

#[test]
fn prometheus_exact_text_at_a_given_time() {
    let mut s = HealthStore::new();
    s.record_at("display", "d1", body("CONNECTED"), 1000);
    s.record_at("agent", "a1", body("RUNNING"), 900);
    let text = render_prometheus_at(&s, 90, 1000);
    let expected = "# HELP noc_up 1 if a heartbeat arrived within the staleness window, 0 otherwise.\n\
# TYPE noc_up gauge\n\
noc_up{app=\"agent\",username=\"a1\"} 0\n\
noc_up{app=\"display\",username=\"d1\"} 1\n\
# HELP noc_last_seen_seconds Unix timestamp of the last heartbeat received.\n\
# TYPE noc_last_seen_seconds gauge\n\
noc_last_seen_seconds{app=\"agent\",username=\"a1\"} 900\n\
noc_last_seen_seconds{app=\"display\",username=\"d1\"} 1000\n\
# HELP noc_info Build metadata of the last heartbeat received. Value is always 1.\n\
# TYPE noc_info gauge\n\
noc_info{app=\"agent\",username=\"a1\",version=\"1.0\",build=\"test\",state=\"RUNNING\"} 1\n\
noc_info{app=\"display\",username=\"d1\",version=\"1.0\",build=\"test\",state=\"CONNECTED\"} 1\n";
    assert_eq!(text, expected);
}

#[test]
fn heartbeat_get_returns_the_latest_record() {
    let mut s = HealthStore::new();
    assert!(s.get("agent", "k").is_none());
    s.record_at("agent", "k", body("STARTING"), 10);
    s.record_at("agent", "k", body("RUNNING"), 20);
    s.record_at("display", "k", body("CONNECTED"), 30);
    let h = s.get("agent", "k").unwrap();
    assert_eq!(h.state, "RUNNING");
    assert_eq!(h.last_seen, 20);
    assert_eq!(s.snapshot().len(), 2);
    assert_eq!(s.get("display", "k").unwrap().last_seen, 30);
}

#[test]
fn escape_handles_backslash_quote_and_newline() {
    assert_eq!(escape("a\\b\"c\nd"), "a\\\\b\\\"c\\nd");
    assert_eq!(escape("plain"), "plain");
}

#[test]
fn staleness_and_presence() {
    let h = Heartbeat {
        version: String::new(),
        build: String::new(),
        state: "RUNNING".into(),
        last_seen: 100,
    };
    assert!(is_up(&h, 190, 90));
    assert!(!is_up(&h, 191, 90));
    assert!(is_up(&h, 50, 0));
    assert_eq!(presence(&h, 190, 90), "online");
    assert_eq!(presence(&h, 191, 90), "stale");
    assert!(is_allowed_app("agent"));
    assert!(is_allowed_app("display"));
    assert!(!is_allowed_app("other"));
}

#[test]
fn commands_queue_replace_and_ack() {
    let kiosks = Storage::new(vec![kiosk("k1", None)]);
    let mut commands = CommandStore::new();
    assert!(matches!(
        queue_command(&kiosks, &mut commands, "nobody", "restart_browser"),
        Err(CommandError::KioskNotFound)
    ));
    assert!(matches!(
        queue_command(&kiosks, &mut commands, "k1", "reboot"),
        Err(CommandError::InvalidAction)
    ));
    let first = queue_command(&kiosks, &mut commands, "k1", "restart_browser").unwrap();
    let second = queue_command(&kiosks, &mut commands, "k1", "restart_agent").unwrap();
    assert_eq!(second.id, first.id + 1);
    assert_eq!(commands.pending("k1").unwrap().action, "restart_agent");
    assert!(matches!(commands.ack("k1", first.id), Err(CommandError::IdMismatch)));
    assert!(commands.ack("k1", second.id).is_ok());
    assert!(commands.pending("k1").is_none());
    assert!(matches!(commands.ack("k1", second.id), Err(CommandError::CommandNotFound)));
}

#[test]
fn ack_of_a_queued_command_leaves_other_kiosks_alone() {
    let mut commands = CommandStore::new();
    let a = commands.queue("k1", "restart_browser", Some(10));
    let b = commands.queue("k2", "restart_agent", None);
    assert_eq!((a.id, b.id), (1, 2));
    assert!(commands.ack("k1", a.id).is_ok());
    assert!(commands.pending("k1").is_none());
    let left = commands.pending("k2").unwrap();
    assert_eq!((left.id, left.action.as_str(), left.created_at), (2, "restart_agent", None));
    assert_eq!(commands.next_id(), 3);
}

#[test]
fn command_errors_map_to_http_statuses() {
    assert_eq!(command_status(&CommandError::KioskNotFound), 404);
    assert_eq!(command_status(&CommandError::CommandNotFound), 404);
    assert_eq!(command_status(&CommandError::InvalidAction), 400);
    assert_eq!(command_status(&CommandError::IdMismatch), 409);
    assert_eq!(command_status(&CommandError::Storage("x".into())), 500);
    assert_eq!(CommandError::IdMismatch.code(), "command_id_mismatch");
}

#[test]
fn bearer_token_check() {
    assert!(authorized("", None));
    assert!(authorized("", Some("Bearer anything")));
    assert!(authorized("s3cret", Some("Bearer s3cret")));
    assert!(authorized("s3cret", Some("Bearer  s3cret ")));
    assert!(!authorized("s3cret", Some("Basic s3cret")));
    assert!(!authorized("s3cret", None));
    assert!(!authorized("s3cret", Some("Bearer other")));
}

#[test]
fn storage_add_update_delete() {
    let mut storage = Storage::new(Vec::new());
    let next = storage.add(kiosk("a", None)).unwrap();
    storage.commit(next);
    assert!(storage.add(kiosk("a", None)).is_err());
    assert_eq!(storage.get("a").unwrap().name, "Test");
    let next = storage.delete("a").unwrap();
    storage.commit(next);
    assert!(storage.get("a").is_none());
    assert_eq!(storage.delete("a").err().unwrap(), "kiosk 'a' not found");
}

fn form(name: &str, address: &str, port: &str) -> ServerForm {
    ServerForm {
        name: name.into(),
        address: address.into(),
        port: port.into(),
        ignore_certificate_errors: None,
    }
}

#[test]
fn rdp_servers_get_fresh_ids_and_defaults() {
    let mut store = ServerStore::load(Vec::new()).unwrap();
    let (next, s1) = store.save(None, &form(" Linux A ", " 10.0.0.1 ", "")).unwrap();
    store.commit(next);
    assert_eq!(s1.id, "rdp-1");
    assert_eq!(s1.name, "Linux A");
    assert_eq!(s1.address, "10.0.0.1");
    assert_eq!(s1.port, 3389);
    let (next, s2) = store.save(None, &form("Linux B", "host.example", "+3390")).unwrap();
    store.commit(next);
    assert_eq!(s2.id, "rdp-2");
    assert_eq!(s2.port, 3390);
    assert_eq!(store.all().len(), 2);
    let (next, edited) = store.save(Some("rdp-1"), &form("Linux A2", "10.0.0.2", "3391")).unwrap();
    store.commit(next);
    assert_eq!(edited.id, "rdp-1");
    assert_eq!(store.get("rdp-1").unwrap().address, "10.0.0.2");
    assert_eq!(store.all().len(), 2);
}

#[test]
fn rdp_servers_reuse_the_smallest_free_number() {
    let taken = |id: &str| RdpServer {
        id: id.into(),
        name: id.into(),
        address: "h".into(),
        port: 1,
        ignore_certificate_errors: false,
    };
    let store = ServerStore::load(vec![taken("rdp-1"), taken("rdp-3")]).unwrap();
    let (_, s) = store.save(None, &form("new", "h2", "")).unwrap();
    assert_eq!(s.id, "rdp-2");
}

#[test]
fn rdp_server_errors() {
    let store = ServerStore::load(Vec::new()).unwrap();
    assert_eq!(
        store.save(Some("rdp-9"), &form("a", "h", "")).err().unwrap(),
        "Serveur introuvable"
    );
    assert_eq!(
        store.save(None, &form("  ", "h", "")).err().unwrap(),
        "Le nom du serveur est obligatoire"
    );
    for bad in ["", "a b", "rdp://h", "u@h", "h/x", "h\\x", "h?x", "h#x"] {
        assert_eq!(
            store.save(None, &form("n", bad, "")).err().unwrap(),
            "Indiquez une adresse IP ou un nom DNS, sans URL ni identifiants"
        );
    }
    for bad in ["0", "65536", "-1", "abc", "+"] {
        assert_eq!(
            store.save(None, &form("n", "h", bad)).err().unwrap(),
            "Le port doit être compris entre 1 et 65535"
        );
    }
    let mut store = store;
    let (next, _) = store.save(None, &form("Linux", "h", "")).unwrap();
    store.commit(next);
    assert_eq!(
        store.save(None, &form("LINUX", "h2", "")).err().unwrap(),
        "Un serveur porte déjà ce nom"
    );
    assert!(store.save(Some("rdp-1"), &form("linux", "h3", "")).is_ok());
}

#[test]
fn rdp_catalog_rejects_bad_or_repeated_ids() {
    let server = |id: &str| RdpServer {
        id: id.into(),
        name: "n".into(),
        address: "h".into(),
        port: 3389,
        ignore_certificate_errors: false,
    };
    assert!(ServerStore::load(vec![server("a-1"), server("b")]).is_ok());
    let msg = "Identifiant de serveur RDP invalide ou dupliqué";
    assert_eq!(ServerStore::load(vec![server("")]).err().unwrap(), msg);
    assert_eq!(ServerStore::load(vec![server("a_1")]).err().unwrap(), msg);
    assert_eq!(ServerStore::load(vec![server("a"), server("a")]).err().unwrap(), msg);
}

#[test]
fn dashboard_rows_and_clients() {
    let k = kiosk("agent-1", Some("display-1"));
    let agent = Heartbeat {
        version: "1".into(),
        build: "b".into(),
        state: "RUNNING".into(),
        last_seen: 100,
    };
    let display = Heartbeat {
        state: "CONNECTED".into(),
        ..agent.clone()
    };
    let mut commands = CommandStore::new();
    let c = commands.queue("agent-1", "restart_browser", None);
    let view = kiosk_view(&k, Some(agent), Some(display), Some(c), 150, 90);
    assert_eq!(view.status, "ready");
    assert_eq!(view.display_username, "display-1");
    assert_eq!(view.pending.as_deref(), Some("restart_browser · #1"));
    let kiosks = vec![k.clone()];
    assert_eq!(client_kiosk(&kiosks, "agent", "agent-1").as_deref(), Some("agent-1"));
    assert_eq!(client_kiosk(&kiosks, "display", "display-1").as_deref(), Some("agent-1"));
    assert_eq!(client_kiosk(&kiosks, "display", "agent-1"), None);
}

#[test]
fn html_escaping_and_forms() {
    assert_eq!(esc("<a href=\"x\">'&'</a>"), "&lt;a href=&quot;x&quot;&gt;&#39;&amp;&#39;&lt;/a&gt;");
    let f = KioskForm {
        name: " Hall ".into(),
        username: " kiosk1 ".into(),
        url: " https://example.com ".into(),
        enabled: Some("1".into()),
        restart_cron: "  0   4 * * * ".into(),
    };
    let k = f.to_kiosk();
    assert_eq!(k.username, "kiosk1");
    assert_eq!(k.name, "Hall");
    assert_eq!(k.url, "https://example.com");
    assert!(k.enabled);
    assert_eq!(k.restart_cron.as_deref(), Some("0 4 * * *"));
    let blank = KioskForm { restart_cron: "   ".into(), enabled: None, ..f };
    let k = blank.to_kiosk();
    assert!(!k.enabled);
    assert_eq!(k.restart_cron, None);
    assert_eq!(IndexQuery { sent: Some("restart_agent".into()) }.flash_action(), Some("restart_agent"));
    assert_eq!(IndexQuery { sent: Some("<script>".into()) }.flash_action(), None);
    assert_eq!(IndexQuery { sent: None }.flash_action(), None);
}

#[test]
fn manager_config_defaults() {
    let c = Config::default();
    assert_eq!(c.server.listen, "0.0.0.0");
    assert_eq!(c.server.port, 8080);
    assert!(c.server.api_token.is_empty());
    assert_eq!(c.data.file, "kiosks.json");
    assert_eq!(c.data.commands_file, "commands.json");
    assert_eq!(c.health.stale_after_seconds, 90);
    assert!(DEFAULT_CONFIG_TOML.contains("stale_after_seconds = 90"));
}

fn row(name: &str, username: &str) -> noc::manager::dashboard::KioskView {
    noc::manager::dashboard::KioskView {
        username: username.into(),
        display_username: username.into(),
        name: name.into(),
        enabled: true,
        status: "attention",
        agent: None,
        display: None,
        pending: None,
        restart_cron: None,
    }
}

#[test]
fn dashboard_rows_sorted_by_name_ignoring_case_then_username() {
    let rows = vec![row("beta", "b2"), row("Alpha", "a9"), row("Beta", "b1"), row("alpha", "a1")];
    let sorted = noc::manager::dashboard::sort_views(rows);
    let order: Vec<(String, String)> = sorted.into_iter().map(|v| (v.name, v.username)).collect();
    assert_eq!(
        order,
        vec![
            ("alpha".to_string(), "a1".to_string()),
            ("Alpha".to_string(), "a9".to_string()),
            ("Beta".to_string(), "b1".to_string()),
            ("beta".to_string(), "b2".to_string()),
        ]
    );
    assert!(noc::manager::dashboard::sort_views(Vec::new()).is_empty());
}

#[test]
fn clients_of_the_dashboard() {
    let kiosks = vec![kiosk("agent-1", None)];
    let h = Heartbeat {
        version: "1".into(),
        build: "b".into(),
        state: "CONNECTED".into(),
        last_seen: 10,
    };
    let c = noc::manager::dashboard::client(&kiosks, "display".into(), "agent-1".into(), h, 200, 90);
    assert_eq!(c.presence, "stale");
    assert_eq!(c.kiosk.as_deref(), Some("agent-1"));
}

#[test]
fn pages_escape_every_user_value() {
    let mut k = kiosk("agent-a", None);
    k.name = "<b>A</b>".to_string();
    k.url = "https://x/?a=1&b=\"2\"".to_string();
    k.restart_cron = Some("0 4 * * *".to_string());
    let pending = vec![PendingCommand {
        username: "agent-a".to_string(),
        command: KioskCommand { id: 7, action: "restart_browser".to_string(), created_at: None },
    }];
    let html = index(&vec![k], &pending, Some("restart_agent"));
    assert!(html.contains("<td>&lt;b&gt;A&lt;/b&gt;</td>"));
    assert!(html.contains("https://x/?a=1&amp;b=&quot;2&quot;"));
    assert!(html.contains("<code>0 4 * * *</code>"));
    assert!(html.contains("<span class=\"badge cmd\">restart_browser (#7)</span>"));
    assert!(html.contains("<p class=\"flash\">Commande envoyée : <code>restart_agent</code></p>"));
    assert!(html.starts_with("<!DOCTYPE html>"));
    assert!(html.contains("<title>Kiosks - NOC Manager</title>"));
    assert!(!html.contains("<b>A</b>"));
    let empty = index(&vec![], &vec![], None);
    assert!(empty.contains("<tr><td colspan=\"7\" class=\"empty\">No kiosk yet.</td></tr>"));
    assert!(!empty.contains("<p class=\"flash\">"));
    assert!(not_found("<x>").contains("No kiosk named <code>&lt;x&gt;</code>."));
    assert!(error_page("a & b").contains("<p class=\"error\">a &amp; b</p>"));
    let form = form_html("Add kiosk", "/kiosk/new", None, Some("bad \"x\""));
    assert!(form.contains("<p class=\"error\">bad &quot;x&quot;</p>"));
    assert!(form.contains("value=\"1\" checked> Enabled"));
}

#[test]
fn server_catalogue_counts_its_kiosks() {
    let server = RdpServer {
        id: "rdp-1".to_string(),
        name: "Main & co".to_string(),
        address: "10.0.0.1".to_string(),
        port: 3389,
        ignore_certificate_errors: false,
    };
    let mut a = kiosk("a", None);
    a.rdp.server_id = Some("rdp-1".to_string());
    let b = kiosk("b", None);
    let html = servers_list(&vec![server], &vec![a, b]);
    assert!(html.contains("<tr><td>Main &amp; co</td><td><code>10.0.0.1:3389</code></td><td>1</td><td><a class=\"btn\" href=\"/rdp-servers/rdp-1/edit\">Modifier</a></td></tr>"));
    assert!(servers_list(&vec![], &vec![]).contains("Aucun serveur enregistré."));
}
