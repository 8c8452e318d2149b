//! The HTML pages of NOC Manager's web interface. Every value that comes
//! from a user or from the stored data goes through [`esc`], except the
//! server identifiers, which are validated to letters, digits and `-`.
use vstd::prelude::*;
use crate::manager::commands::PendingCommand;
use crate::manager::models::Kiosk;
use crate::manager::rdp_servers::{RdpServer, ServerForm};
use crate::manager::web::{esc, esc_spec};
use crate::text::{decimal, join_seqs, join_strings, owned, u64_to_string, views_of};

verus! {

/// The style sheet of every page.
pub const MANAGER_CSS: &'static str = "\n*, *::before, *::after { box-sizing: border-box; }\nbody { margin: 0; background: #f4f5f7; color: #1f2328; font: 15px/1.5 -apple-system, Segoe UI, Roboto, Helvetica, Arial, sans-serif; }\nheader { background: #1f2328; padding: 12px 24px; }\nheader a { color: #fff; font-weight: 600; text-decoration: none; }\nmain { max-width: 1000px; margin: 24px auto; padding: 0 16px; }\nh1 { font-size: 20px; margin: 0; }\n.head { display: flex; align-items: center; justify-content: space-between; margin-bottom: 16px; }\ntable { width: 100%; border-collapse: collapse; background: #fff; border: 1px solid #d8dbe0; }\nth, td { text-align: left; padding: 10px 12px; border-bottom: 1px solid #eceef1; }\ntd.actions { white-space: nowrap; text-align: right; }\ntd.actions form { display: inline; }\ncode { background: #eceef1; padding: 1px 5px; border-radius: 4px; font-size: 13px; }\n.muted { color: #8c959f; }\n.empty { text-align: center; color: #8c959f; padding: 24px; }\n.badge { font-size: 12px; padding: 2px 8px; border-radius: 10px; }\n.badge.on { background: #dafbe1; color: #116329; }\n.badge.off { background: #ffebe9; color: #82071e; }\n.badge.cmd { background: #fff4d6; color: #7a4b00; }\n.flash { background: #dafbe1; border: 1px solid #aceebb; color: #116329; padding: 8px 12px; border-radius: 6px; }\n.btn { display: inline-block; padding: 6px 12px; border: 1px solid #d8dbe0; border-radius: 6px; background: #fff; color: #1f2328; text-decoration: none; cursor: pointer; }\n.btn.primary { background: #1f6feb; border-color: #1f6feb; color: #fff; }\n.btn.danger { color: #82071e; }\n.card { background: #fff; border: 1px solid #d8dbe0; border-radius: 6px; padding: 20px; max-width: 560px; }\n.card label { display: block; margin-bottom: 14px; font-size: 13px; color: #57606a; }\n.card input[type=text] { display: block; width: 100%; margin-top: 4px; padding: 7px 10px; border: 1px solid #d8dbe0; border-radius: 6px; }\n.help { background: #f6f8fa; border: 1px solid #eceef1; border-radius: 6px; padding: 10px 12px; margin-bottom: 16px; font-size: 13px; }\n.error { background: #ffebe9; border: 1px solid #ffc1bc; color: #82071e; padding: 10px 12px; border-radius: 6px; max-width: 560px; }\n";

/// A whole page: the title, the style sheet and the body.
pub open spec fn page_spec(title: Seq<char>, body: Seq<char>) -> Seq<char> {
    "<!DOCTYPE html>\n<html lang=\"en\">\n<head>\n<meta charset=\"utf-8\">\n<meta name=\"application-name\" content=\"NOC Manager\">\n<meta name=\"viewport\" content=\"width=device-width, initial-scale=1\">\n<title>"@ + (title) + " - NOC Manager</title>\n<style>"@ + (MANAGER_CSS@) + "</style>\n</head>\n<body>\n<header><a href=\"/\">NOC Manager</a> · <a href=\"/rdp-servers\">Serveurs RDP</a></header>\n<main>\n"@ + (body) + "\n</main>\n</body>\n</html>"@
}

/// See [`page_spec`].
pub fn page(title: &str, body: &str) -> (r: String)
    ensures
        r@ == page_spec(title@, body@),
{
    let mut r = String::new();
    r.append("<!DOCTYPE html>\n<html lang=\"en\">\n<head>\n<meta charset=\"utf-8\">\n<meta name=\"application-name\" content=\"NOC Manager\">\n<meta name=\"viewport\" content=\"width=device-width, initial-scale=1\">\n<title>");
    let v0 = owned(title);
    r.append(v0.as_str());
    r.append(" - NOC Manager</title>\n<style>");
    let v1 = owned(MANAGER_CSS);
    r.append(v1.as_str());
    r.append("</style>\n</head>\n<body>\n<header><a href=\"/\">NOC Manager</a> · <a href=\"/rdp-servers\">Serveurs RDP</a></header>\n<main>\n");
    let v2 = owned(body);
    r.append(v2.as_str());
    r.append("\n</main>\n</body>\n</html>");
    r
}

/// The restart schedule of a kiosk in the table.
pub open spec fn cron_cell_spec(cron: Option<String>) -> Seq<char> {
    match cron {
        Some(c) => if c@.len() > 0 {
            "<code>"@ + esc_spec(c@) + "</code>"@
        } else {
            "<span class=\"muted\">-</span>"@
        },
        None => "<span class=\"muted\">-</span>"@,
    }
}

fn cron_cell(cron: &Option<String>) -> (r: String)
    ensures
        r@ == cron_cell_spec(*cron),
{
    match cron {
        Some(c) => {
            if c.as_str().unicode_len() > 0 {
                let mut r = String::new();
                r.append("<code>");
                r.append(esc(c.as_str()).as_str());
                r.append("</code>");
                r
            } else {
                owned("<span class=\"muted\">-</span>")
            }
        },
        None => owned("<span class=\"muted\">-</span>"),
    }
}

/// The first pending command of kiosk `u`, if any.
pub open spec fn pending_for(ps: Seq<PendingCommand>, u: Seq<char>) -> Option<PendingCommand>
    decreases ps.len(),
{
    if ps.len() == 0 {
        None
    } else if ps[0].username@ == u {
        Some(ps[0])
    } else {
        pending_for(ps.drop_first(), u)
    }
}

fn find_pending(ps: &Vec<PendingCommand>, u: &str) -> (r: Option<usize>)
    ensures
        match r {
            Some(i) => i < ps@.len() && pending_for(ps@, u@) == Some(ps@[i as int]),
            None => pending_for(ps@, u@) is None,
        },
{
    let mut i: usize = 0;
    assert(ps@.subrange(0, ps@.len() as int) =~= ps@);
    while i < ps.len()
        invariant
            i <= ps@.len(),
            pending_for(ps@, u@) == pending_for(ps@.subrange(i as int, ps@.len() as int), u@),
        decreases ps@.len() - i,
    {
        let ghost rest = ps@.subrange(i as int, ps@.len() as int);
        assert(rest[0] == ps@[i as int]);
        if crate::text::str_eq(ps[i].username.as_str(), u) {
            return Some(i);
        }
        assert(rest.drop_first() =~= ps@.subrange(i + 1, ps@.len() as int));
        i = i + 1;
    }
    None
}

/// The pending command of a kiosk in the table.
pub open spec fn command_cell_spec(p: Option<PendingCommand>) -> Seq<char> {
    match p {
        Some(p) => "<span class=\"badge cmd\">"@ + esc_spec(p.command.action@) + " (#"@ + decimal(
            p.command.id as nat,
        ) + ")</span>"@,
        None => "<span class=\"muted\">aucune</span>"@,
    }
}

fn command_cell(ps: &Vec<PendingCommand>, u: &str) -> (r: String)
    ensures
        r@ == command_cell_spec(pending_for(ps@, u@)),
{
    match find_pending(ps, u) {
        Some(i) => {
            let mut r = String::new();
            r.append("<span class=\"badge cmd\">");
            r.append(esc(ps[i].command.action.as_str()).as_str());
            r.append(" (#");
            r.append(u64_to_string(ps[i].command.id).as_str());
            r.append(")</span>");
            r
        },
        None => owned("<span class=\"muted\">aucune</span>"),
    }
}

/// Whether a kiosk is enabled, in the table.
pub open spec fn enabled_badge_spec(enabled: bool) -> Seq<char> {
    if enabled {
        "<span class=\"badge on\">enabled</span>"@
    } else {
        "<span class=\"badge off\">disabled</span>"@
    }
}

fn enabled_badge(enabled: bool) -> (r: String)
    ensures
        r@ == enabled_badge_spec(enabled),
{
    if enabled {
        owned("<span class=\"badge on\">enabled</span>")
    } else {
        owned("<span class=\"badge off\">disabled</span>")
    }
}

/// One kiosk in the table, with its actions.
pub open spec fn kiosk_row_spec(k: Kiosk, pending: Seq<PendingCommand>) -> Seq<char> {
    "<tr>\n      <td>"@ + (esc_spec(k.name@)) + "</td>\n      <td><code>"@ + (esc_spec(k.username@)) + "</code></td>\n      <td class=\"url\"><a href=\""@ + (esc_spec(k.url@)) + "\" target=\"_blank\" rel=\"noreferrer\">"@ + (esc_spec(k.url@)) + "</a></td>\n      <td>"@ + (enabled_badge_spec(k.enabled)) + "</td>\n      <td>"@ + (cron_cell_spec(k.restart_cron)) + "</td>\n      <td>"@ + (command_cell_spec(pending_for(pending, k.username@))) + "</td>\n      <td class=\"actions\">\n        <a class=\"btn\" href=\"/kiosk/"@ + (esc_spec(k.username@)) + "/edit\">Edit</a>\n        <form method=\"post\" action=\"/kiosk/"@ + (esc_spec(k.username@)) + "/restart-browser\">\n          <button class=\"btn\" type=\"submit\">Redémarrer Firefox</button>\n        </form>\n        <form method=\"post\" action=\"/kiosk/"@ + (esc_spec(k.username@)) + "/restart-agent\" onsubmit=\"return confirm('Voulez-vous vraiment redémarrer complètement l&#39;agent de ce kiosk ?')\">\n          <button class=\"btn\" type=\"submit\">Redémarrer l&#39;agent</button>\n        </form>\n        <form method=\"post\" action=\"/kiosk/"@ + (esc_spec(k.username@)) + "/delete\" onsubmit=\"return confirm('Delete this kiosk?')\">\n          <button class=\"btn danger\" type=\"submit\">Delete</button>\n        </form>\n      </td>\n    </tr>"@
}

/// See [`kiosk_row_spec`].
pub fn kiosk_row(k: &Kiosk, pending: &Vec<PendingCommand>) -> (r: String)
    ensures
        r@ == kiosk_row_spec(*k, pending@),
{
    let mut r = String::new();
    r.append("<tr>\n      <td>");
    let v0 = esc(k.name.as_str());
    r.append(v0.as_str());
    r.append("</td>\n      <td><code>");
    let v1 = esc(k.username.as_str());
    r.append(v1.as_str());
    r.append("</code></td>\n      <td class=\"url\"><a href=\"");
    let v2 = esc(k.url.as_str());
    r.append(v2.as_str());
    r.append("\" target=\"_blank\" rel=\"noreferrer\">");
    let v3 = esc(k.url.as_str());
    r.append(v3.as_str());
    r.append("</a></td>\n      <td>");
    let v4 = enabled_badge(k.enabled);
    r.append(v4.as_str());
    r.append("</td>\n      <td>");
    let v5 = cron_cell(&k.restart_cron);
    r.append(v5.as_str());
    r.append("</td>\n      <td>");
    let v6 = command_cell(pending, k.username.as_str());
    r.append(v6.as_str());
    r.append("</td>\n      <td class=\"actions\">\n        <a class=\"btn\" href=\"/kiosk/");
    let v7 = esc(k.username.as_str());
    r.append(v7.as_str());
    r.append("/edit\">Edit</a>\n        <form method=\"post\" action=\"/kiosk/");
    let v8 = esc(k.username.as_str());
    r.append(v8.as_str());
    r.append("/restart-browser\">\n          <button class=\"btn\" type=\"submit\">Redémarrer Firefox</button>\n        </form>\n        <form method=\"post\" action=\"/kiosk/");
    let v9 = esc(k.username.as_str());
    r.append(v9.as_str());
    r.append("/restart-agent\" onsubmit=\"return confirm('Voulez-vous vraiment redémarrer complètement l&#39;agent de ce kiosk ?')\">\n          <button class=\"btn\" type=\"submit\">Redémarrer l&#39;agent</button>\n        </form>\n        <form method=\"post\" action=\"/kiosk/");
    let v10 = esc(k.username.as_str());
    r.append(v10.as_str());
    r.append("/delete\" onsubmit=\"return confirm('Delete this kiosk?')\">\n          <button class=\"btn danger\" type=\"submit\">Delete</button>\n        </form>\n      </td>\n    </tr>");
    r
}

/// The rows of the kiosk table, one per line.
pub open spec fn kiosk_rows_spec(ks: Seq<Kiosk>, pending: Seq<PendingCommand>) -> Seq<char> {
    if ks.len() == 0 {
        "<tr><td colspan=\"7\" class=\"empty\">No kiosk yet.</td></tr>"@
    } else {
        join_seqs(Seq::new(ks.len(), |i: int| kiosk_row_spec(ks[i], pending)), "\n"@)
    }
}

fn kiosk_rows(ks: &Vec<Kiosk>, pending: &Vec<PendingCommand>) -> (r: String)
    ensures
        r@ == kiosk_rows_spec(ks@, pending@),
{
    if ks.len() == 0 {
        return owned("<tr><td colspan=\"7\" class=\"empty\">No kiosk yet.</td></tr>");
    }
    let mut rows: Vec<String> = Vec::new();
    let mut i: usize = 0;
    while i < ks.len()
        invariant
            i <= ks@.len(),
            rows@.len() == i,
            forall|j: int| 0 <= j < i ==> (#[trigger] rows@[j])@ == kiosk_row_spec(ks@[j], pending@),
        decreases ks@.len() - i,
    {
        rows.push(kiosk_row(&ks[i], pending));
        i = i + 1;
    }
    assert(views_of(rows@) =~= Seq::new(ks@.len(), |j: int| kiosk_row_spec(ks@[j], pending@)));
    join_strings(&rows, "\n")
}

/// The confirmation of a command just sent.
pub open spec fn flash_spec(flash: Option<&str>) -> Seq<char> {
    match flash {
        Some(a) => "<p class=\"flash\">Commande envoyée : <code>"@ + esc_spec(a@) + "</code></p>"@,
        None => Seq::empty(),
    }
}

fn flash_html(flash: Option<&str>) -> (r: String)
    ensures
        r@ == flash_spec(flash),
{
    match flash {
        Some(a) => {
            let mut r = String::new();
            r.append("<p class=\"flash\">Commande envoyée : <code>");
            r.append(esc(a).as_str());
            r.append("</code></p>");
            r
        },
        None => String::new(),
    }
}

/// The body of the kiosk list.
pub open spec fn index_body_spec(kiosks: Seq<Kiosk>, pending: Seq<PendingCommand>, flash: Option<&str>) -> Seq<char> {
    "<div class=\"head\">\n  <h1>Kiosks</h1>\n  <a class=\"btn primary\" href=\"/kiosk/new\">Add kiosk</a>\n</div>\n"@ + (flash_spec(flash)) + "\n<table>\n  <thead>\n    <tr><th>Name</th><th>Username</th><th>URL</th><th>Enabled</th><th>Restart schedule</th><th>Commande</th><th></th></tr>\n  </thead>\n  <tbody>\n"@ + (kiosk_rows_spec(kiosks, pending)) + "\n  </tbody>\n</table>"@
}

/// The kiosk list, with each kiosk's pending command and, after a command
/// was sent, its confirmation.
pub fn index(kiosks: &Vec<Kiosk>, pending: &Vec<PendingCommand>, flash: Option<&str>) -> (r: String)
    ensures
        r@ == page_spec("Kiosks"@, index_body_spec(kiosks@, pending@, flash)),
{
    let body = {
        let mut r = String::new();
        r.append("<div class=\"head\">\n  <h1>Kiosks</h1>\n  <a class=\"btn primary\" href=\"/kiosk/new\">Add kiosk</a>\n</div>\n");
        let v0 = flash_html(flash);
        r.append(v0.as_str());
        r.append("\n<table>\n  <thead>\n    <tr><th>Name</th><th>Username</th><th>URL</th><th>Enabled</th><th>Restart schedule</th><th>Commande</th><th></th></tr>\n  </thead>\n  <tbody>\n");
        let v1 = kiosk_rows(kiosks, pending);
        r.append(v1.as_str());
        r.append("\n  </tbody>\n</table>");
        r
    };
    page("Kiosks", body.as_str())
}

/// A text value of the kiosk form: escaped, empty for a new kiosk.
pub open spec fn form_value(v: Option<Seq<char>>) -> Seq<char> {
    match v {
        Some(s) => esc_spec(s),
        None => Seq::empty(),
    }
}

/// The state of the `enabled` box: checked for a new kiosk.
pub open spec fn checked_spec(kiosk: Option<&Kiosk>) -> Seq<char> {
    match kiosk {
        Some(k) => if k.enabled {
            " checked"@
        } else {
            ""@
        },
        None => " checked"@,
    }
}

/// An error message above a form, if any.
pub open spec fn error_html_spec(error: Option<&str>) -> Seq<char> {
    match error {
        Some(e) => "<p class=\"error\">"@ + esc_spec(e@) + "</p>"@,
        None => Seq::empty(),
    }
}

fn error_html(error: Option<&str>) -> (r: String)
    ensures
        r@ == error_html_spec(error),
{
    match error {
        Some(e) => {
            let mut r = String::new();
            r.append("<p class=\"error\">");
            r.append(esc(e).as_str());
            r.append("</p>");
            r
        },
        None => String::new(),
    }
}

fn opt_esc(v: Option<&String>) -> (r: String)
    ensures
        r@ == form_value(match v {
            Some(s) => Some(s@),
            None => None,
        }),
{
    match v {
        Some(s) => esc(s.as_str()),
        None => String::new(),
    }
}

pub open spec fn kiosk_field(kiosk: Option<&Kiosk>, field: int) -> Option<Seq<char>> {
    match kiosk {
        Some(k) => if field == 0 {
            Some(k.name@)
        } else if field == 1 {
            Some(k.username@)
        } else if field == 2 {
            Some(k.url@)
        } else {
            match k.restart_cron {
                Some(c) => Some(c@),
                None => None,
            }
        },
        None => None,
    }
}

/// The kiosk form, filled from `kiosk` when editing, with the error of a refused save.
pub open spec fn form_html_spec(title: Seq<char>, action: Seq<char>, kiosk: Option<&Kiosk>, error: Option<&str>) -> Seq<char> {
    "<h1>"@ + (title) + "</h1>\n"@ + (error_html_spec(error)) + "\n<form method=\"post\" action=\""@ + (action) + "\" class=\"card\">\n  <label>Name\n    <input type=\"text\" name=\"name\" value=\""@ + (form_value(kiosk_field(kiosk, 0))) + "\" required>\n  </label>\n  <label>Username (Linux account)\n    <input type=\"text\" name=\"username\" value=\""@ + (form_value(kiosk_field(kiosk, 1))) + "\" required>\n  </label>\n  <label>URL\n    <input type=\"text\" name=\"url\" value=\""@ + (form_value(kiosk_field(kiosk, 2))) + "\" placeholder=\"https://example.com\" required>\n  </label>\n  <label class=\"check\">\n    <input type=\"checkbox\" name=\"enabled\" value=\"1\""@ + (checked_spec(kiosk)) + "> Enabled\n  </label>\n  <label>Restart cron (optional)\n    <input type=\"text\" name=\"restart_cron\" value=\""@ + (form_value(kiosk_field(kiosk, 3))) + "\" placeholder=\"0 4 * * *\">\n  </label>\n  <div class=\"help\">\n    <code>0 4 * * *</code> = every day at 04:00<br>\n    <code>30 3 * * 1</code> = every Monday at 03:30<br>\n    <code>0 */6 * * *</code> = every 6 hours<br>\n    Leave empty for no scheduled restart. Only Firefox is restarted.\n  </div>\n  <div class=\"actions\">\n    <button class=\"btn primary\" type=\"submit\">Save</button>\n    <a class=\"btn\" href=\"/\">Cancel</a>\n  </div>\n</form>"@
}

/// See [`form_html_spec`].
pub fn form_html(title: &str, action: &str, kiosk: Option<&Kiosk>, error: Option<&str>) -> (r: String)
    ensures
        r@ == form_html_spec(title@, action@, kiosk, error),
{
    let mut r = String::new();
    r.append("<h1>");
    let v0 = owned(title);
    r.append(v0.as_str());
    r.append("</h1>\n");
    let v1 = error_html(error);
    r.append(v1.as_str());
    r.append("\n<form method=\"post\" action=\"");
    let v2 = owned(action);
    r.append(v2.as_str());
    r.append("\" class=\"card\">\n  <label>Name\n    <input type=\"text\" name=\"name\" value=\"");
    let v3 = opt_esc(match kiosk { Some(k) => Some(&k.name), None => None });
    r.append(v3.as_str());
    r.append("\" required>\n  </label>\n  <label>Username (Linux account)\n    <input type=\"text\" name=\"username\" value=\"");
    let v4 = opt_esc(match kiosk { Some(k) => Some(&k.username), None => None });
    r.append(v4.as_str());
    r.append("\" required>\n  </label>\n  <label>URL\n    <input type=\"text\" name=\"url\" value=\"");
    let v5 = opt_esc(match kiosk { Some(k) => Some(&k.url), None => None });
    r.append(v5.as_str());
    r.append("\" placeholder=\"https://example.com\" required>\n  </label>\n  <label class=\"check\">\n    <input type=\"checkbox\" name=\"enabled\" value=\"1\"");
    let v6 = owned(match kiosk { Some(k) => if k.enabled { " checked" } else { "" }, None => " checked" });
    r.append(v6.as_str());
    r.append("> Enabled\n  </label>\n  <label>Restart cron (optional)\n    <input type=\"text\" name=\"restart_cron\" value=\"");
    let v7 = opt_esc(match kiosk { Some(k) => match &k.restart_cron { Some(c) => Some(c), None => None }, None => None });
    r.append(v7.as_str());
    r.append("\" placeholder=\"0 4 * * *\">\n  </label>\n  <div class=\"help\">\n    <code>0 4 * * *</code> = every day at 04:00<br>\n    <code>30 3 * * 1</code> = every Monday at 03:30<br>\n    <code>0 */6 * * *</code> = every 6 hours<br>\n    Leave empty for no scheduled restart. Only Firefox is restarted.\n  </div>\n  <div class=\"actions\">\n    <button class=\"btn primary\" type=\"submit\">Save</button>\n    <a class=\"btn\" href=\"/\">Cancel</a>\n  </div>\n</form>");
    r
}

/// The body of the page of an unknown kiosk.
pub open spec fn not_found_body(username: Seq<char>) -> Seq<char> {
    "<h1>Not found</h1><p>No kiosk named <code>"@ + (esc_spec(username)) + "</code>.</p><p><a class=\"btn\" href=\"/\">Back</a></p>"@
}

/// The page of an unknown kiosk.
pub fn not_found(username: &str) -> (r: String)
    ensures
        r@ == page_spec("Not found"@, not_found_body(username@)),
{
    let body = {
        let mut r = String::new();
        r.append("<h1>Not found</h1><p>No kiosk named <code>");
        let v0 = esc(username);
        r.append(v0.as_str());
        r.append("</code>.</p><p><a class=\"btn\" href=\"/\">Back</a></p>");
        r
    };
    page("Not found", body.as_str())
}

/// The body of an error page.
pub open spec fn error_body(error: Seq<char>) -> Seq<char> {
    "<h1>Error</h1><p class=\"error\">"@ + (esc_spec(error)) + "</p><p><a class=\"btn\" href=\"/\">Back</a></p>"@
}

/// An error page.
pub fn error_page(error: &str) -> (r: String)
    ensures
        r@ == page_spec("Error"@, error_body(error@)),
{
    let body = {
        let mut r = String::new();
        r.append("<h1>Error</h1><p class=\"error\">");
        let v0 = esc(error);
        r.append(v0.as_str());
        r.append("</p><p><a class=\"btn\" href=\"/\">Back</a></p>");
        r
    };
    page("Error", body.as_str())
}

/// How many kiosks use the server `id`.
pub open spec fn users_of(ks: Seq<Kiosk>, id: Seq<char>) -> nat
    decreases ks.len(),
{
    if ks.len() == 0 {
        0
    } else {
        users_of(ks.drop_last(), id) + if (match ks.last().rdp.server_id {
            Some(s) => s@ == id,
            None => false,
        }) {
            1nat
        } else {
            0nat
        }
    }
}

fn count_users(kiosks: &Vec<Kiosk>, id: &str) -> (r: u64)
    ensures
        r == users_of(kiosks@, id@),
{
    let mut n: u64 = 0;
    let mut i: usize = 0;
    while i < kiosks.len()
        invariant
            i <= kiosks@.len(),
            n == users_of(kiosks@.take(i as int), id@),
            n <= i,
        decreases kiosks@.len() - i,
    {
        assert(kiosks@.take(i + 1).drop_last() =~= kiosks@.take(i as int));
        let uses = match &kiosks[i].rdp.server_id {
            Some(s) => crate::text::str_eq(s.as_str(), id),
            None => false,
        };
        if uses {
            n = n + 1;
        }
        i = i + 1;
    }
    assert(kiosks@.take(i as int) =~= kiosks@);
    n
}

/// One server in the catalogue table, with the number of kiosks using it.
pub open spec fn server_row_spec(s: RdpServer, ks: Seq<Kiosk>) -> Seq<char> {
    "<tr><td>"@ + (esc_spec(s.name@)) + "</td><td><code>"@ + (esc_spec(s.address@)) + ":"@ + (decimal(s.port as nat)) + "</code></td><td>"@ + (decimal(users_of(ks, s.id@))) + "</td><td><a class=\"btn\" href=\"/rdp-servers/"@ + (s.id@) + "/edit\">Modifier</a></td></tr>"@
}

fn server_row(s: &RdpServer, kiosks: &Vec<Kiosk>) -> (r: String)
    ensures
        r@ == server_row_spec(*s, kiosks@),
{
    let mut r = String::new();
    r.append("<tr><td>");
    let v0 = esc(s.name.as_str());
    r.append(v0.as_str());
    r.append("</td><td><code>");
    let v1 = esc(s.address.as_str());
    r.append(v1.as_str());
    r.append(":");
    let v2 = u64_to_string(s.port as u64);
    r.append(v2.as_str());
    r.append("</code></td><td>");
    let v3 = u64_to_string(count_users(kiosks, s.id.as_str()));
    r.append(v3.as_str());
    r.append("</td><td><a class=\"btn\" href=\"/rdp-servers/");
    let v4 = owned(s.id.as_str());
    r.append(v4.as_str());
    r.append("/edit\">Modifier</a></td></tr>");
    r
}

/// The rows of the catalogue table, one after the other.
pub open spec fn server_rows_spec(ss: Seq<RdpServer>, ks: Seq<Kiosk>) -> Seq<char>
    decreases ss.len(),
{
    if ss.len() == 0 {
        Seq::empty()
    } else {
        server_rows_spec(ss.drop_last(), ks) + server_row_spec(ss.last(), ks)
    }
}

/// The body of the server catalogue.
pub open spec fn servers_body(ss: Seq<RdpServer>, ks: Seq<Kiosk>) -> Seq<char> {
    "<div class=\"head\"><div><h1>Serveurs RDP</h1><p class=\"muted\">Destinations Linux réutilisables. Les comptes et mots de passe se renseignent dans chaque kiosque.</p></div><a class=\"btn primary\" href=\"/rdp-servers/new\">+ Ajouter un serveur</a></div><table><thead><tr><th>Nom</th><th>Adresse / port</th><th>Kiosques associés</th><th></th></tr></thead><tbody>"@ + (if ss.len() == 0 {
        "<tr><td colspan=\"4\">Aucun serveur enregistré. Ajoutez votre première destination RDP.</td></tr>"@
    } else {
        server_rows_spec(ss, ks)
    }) + "</tbody></table>"@
}

/// The RDP server catalogue.
pub fn servers_list(servers: &Vec<RdpServer>, kiosks: &Vec<Kiosk>) -> (r: String)
    ensures
        r@ == page_spec("Serveurs RDP"@, servers_body(servers@, kiosks@)),
{
    let mut body = String::new();
    body.append("<div class=\"head\"><div><h1>Serveurs RDP</h1><p class=\"muted\">Destinations Linux réutilisables. Les comptes et mots de passe se renseignent dans chaque kiosque.</p></div><a class=\"btn primary\" href=\"/rdp-servers/new\">+ Ajouter un serveur</a></div><table><thead><tr><th>Nom</th><th>Adresse / port</th><th>Kiosques associés</th><th></th></tr></thead><tbody>");
    if servers.len() == 0 {
        body.append("<tr><td colspan=\"4\">Aucun serveur enregistré. Ajoutez votre première destination RDP.</td></tr>");
    } else {
        let ghost start = body@;
        let mut i: usize = 0;
        while i < servers.len()
            invariant
                i <= servers@.len(),
                body@ == start + server_rows_spec(servers@.take(i as int), kiosks@),
            decreases servers@.len() - i,
        {
            assert(servers@.take(i + 1).drop_last() =~= servers@.take(i as int));
            let row = server_row(&servers[i], kiosks);
            body.append(row.as_str());
            i = i + 1;
        }
        assert(servers@.take(i as int) =~= servers@);
    }
    body.append("</tbody></table>");
    page("Serveurs RDP", body.as_str())
}

/// The title of the server form.
pub open spec fn server_form_title(id: Option<&str>) -> Seq<char> {
    if id is Some {
        "Modifier le serveur RDP"@
    } else {
        "Ajouter un serveur RDP"@
    }
}

/// Where the server form is sent.
pub open spec fn server_form_action(id: Option<&str>) -> Seq<char> {
    match id {
        Some(i) => "/rdp-servers/"@ + esc_spec(i@) + "/edit"@,
        None => "/rdp-servers/new"@,
    }
}

fn server_form_action_html(id: Option<&str>) -> (r: String)
    ensures
        r@ == server_form_action(id),
{
    match id {
        Some(i) => {
            let mut r = String::new();
            r.append("/rdp-servers/");
            r.append(esc(i).as_str());
            r.append("/edit");
            r
        },
        None => owned("/rdp-servers/new"),
    }
}

/// The body of the server form.
pub open spec fn server_form_body(id: Option<&str>, form: ServerForm, error: Option<&str>) -> Seq<char> {
    "<h1>"@ + (server_form_title(id)) + "</h1><p class=\"muted\">Une modification sera utilisée par les kiosques associés lors de leur prochaine connexion RDP.</p>"@ + (error_html_spec(error)) + "<form method=\"post\" action=\""@ + (server_form_action(id)) + "\" class=\"card\"><label>Nom du serveur<input name=\"name\" type=\"text\" value=\""@ + (esc_spec(form.name@)) + "\" required></label><label>Adresse IP ou nom DNS<input name=\"address\" type=\"text\" value=\""@ + (esc_spec(form.address@)) + "\" required></label><label>Port<input name=\"port\" type=\"text\" value=\""@ + (esc_spec(form.port@)) + "\" required></label><label class=\"check\"><input type=\"checkbox\" name=\"ignore_certificate_errors\" value=\"1\""@ + ((if form.ignore_certificate_errors is Some { " checked"@ } else { ""@ })) + "> Ignorer les erreurs de certificat</label><div class=\"actions\"><button class=\"btn primary\">Enregistrer le serveur</button><a class=\"btn\" href=\"/rdp-servers\">Annuler</a></div></form>"@
}

/// The form of a new server (`id` absent) or of an existing one, with the
/// error of a refused save.
pub fn server_form(id: Option<&str>, form: &ServerForm, error: Option<&str>) -> (r: String)
    ensures
        r@ == page_spec(server_form_title(id), server_form_body(id, *form, error)),
{
    let body = {
        let mut r = String::new();
        r.append("<h1>");
        let v0 = owned(if id.is_some() { "Modifier le serveur RDP" } else { "Ajouter un serveur RDP" });
        r.append(v0.as_str());
        r.append("</h1><p class=\"muted\">Une modification sera utilisée par les kiosques associés lors de leur prochaine connexion RDP.</p>");
        let v1 = error_html(error);
        r.append(v1.as_str());
        r.append("<form method=\"post\" action=\"");
        let v2 = server_form_action_html(id);
        r.append(v2.as_str());
        r.append("\" class=\"card\"><label>Nom du serveur<input name=\"name\" type=\"text\" value=\"");
        let v3 = esc(form.name.as_str());
        r.append(v3.as_str());
        r.append("\" required></label><label>Adresse IP ou nom DNS<input name=\"address\" type=\"text\" value=\"");
        let v4 = esc(form.address.as_str());
        r.append(v4.as_str());
        r.append("\" required></label><label>Port<input name=\"port\" type=\"text\" value=\"");
        let v5 = esc(form.port.as_str());
        r.append(v5.as_str());
        r.append("\" required></label><label class=\"check\"><input type=\"checkbox\" name=\"ignore_certificate_errors\" value=\"1\"");
        let v6 = owned(if form.ignore_certificate_errors.is_some() { " checked" } else { "" });
        r.append(v6.as_str());
        r.append("> Ignorer les erreurs de certificat</label><div class=\"actions\"><button class=\"btn primary\">Enregistrer le serveur</button><a class=\"btn\" href=\"/rdp-servers\">Annuler</a></div></form>");
        r
    };
    let title = if id.is_some() {
        "Modifier le serveur RDP"
    } else {
        "Ajouter un serveur RDP"
    };
    page(title, body.as_str())
}

} // verus!
