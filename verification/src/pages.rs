//! The HTML pages of the console.

use vstd::prelude::*;

use crate::models::{Certificate, Site};
use crate::reminders::{count_within, reminder_counts, CertReminder};
use crate::text::{dec_int, dec_nat, lemma_occurs_append, lemma_occurs_between, occurs_in, push_dec_i64, push_dec_u64, str_eq};

verus! {

/// The navigation bar at the top of every page behind the login.
pub open spec fn nav_html() -> Seq<char> {
    "\n    <nav>\n        <a href=\"/\">仪表盘</a>\n        <a href=\"/sites\">站点管理</a>\n        <a href=\"/certs\">证书管理</a>\n        <a href=\"/service\">服务控制</a>\n        <a href=\"/settings\">系统设置</a>\n        <a href=\"/logs\">操作日志</a>\n        <form method=\"post\" action=\"/logout\" style=\"display:inline\"><button type=\"submit\">退出登录</button></form>\n    </nav>\n    "@
}

/// The navigation bar at the top of every page behind the login.
pub fn nav() -> (r: &'static str)
    ensures
        r@ == nav_html(),
{
    "\n    <nav>\n        <a href=\"/\">仪表盘</a>\n        <a href=\"/sites\">站点管理</a>\n        <a href=\"/certs\">证书管理</a>\n        <a href=\"/service\">服务控制</a>\n        <a href=\"/settings\">系统设置</a>\n        <a href=\"/logs\">操作日志</a>\n        <form method=\"post\" action=\"/logout\" style=\"display:inline\"><button type=\"submit\">退出登录</button></form>\n    </nav>\n    "
}

/// The body of the login page.
pub open spec fn login_body() -> Seq<char> {
    "\n        <h1>Nginx 管理器</h1>\n        <form method=\"post\" action=\"/login\">\n            <label>用户名 <input name=\"username\" required /></label>\n            <label>密码 <input type=\"password\" name=\"password\" required /></label>\n            <button type=\"submit\">登录</button>\n        </form>\n    "@
}

/// The full HTML document with a title and a body.
pub open spec fn layout_text(title: Seq<char>, body: Seq<char>) -> Seq<char> {
    "<!doctype html>\n<html>\n<head>\n  <meta charset=\"utf-8\" />\n  <meta name=\"viewport\" content=\"width=device-width, initial-scale=1\" />\n  <title>"@
        + title
        + "</title>\n  <style>\n    :root { --bg:#f5f7fb; --card:#ffffff; --text:#202733; --accent:#1456d1; --line:#d9e0ef; }\n    body { margin:0; font-family: \"Segoe UI\", sans-serif; background:linear-gradient(160deg,#eef3ff,#f8fbff); color:var(--text); }\n    nav { display:flex; gap:12px; align-items:center; padding:12px 18px; background:var(--card); border-bottom:1px solid var(--line); }\n    nav a { color:var(--accent); text-decoration:none; font-weight:600; }\n    main { max-width:1080px; margin:20px auto; padding:0 14px; }\n    .cards { display:grid; grid-template-columns:repeat(auto-fit,minmax(180px,1fr)); gap:12px; }\n    .card { background:var(--card); border:1px solid var(--line); border-radius:14px; padding:14px; }\n    form { margin:12px 0; background:var(--card); border:1px solid var(--line); border-radius:14px; padding:12px; }\n    .form-grid { display:grid; grid-template-columns:repeat(auto-fit,minmax(220px,1fr)); gap:10px; }\n    label { display:flex; flex-direction:column; gap:6px; font-size:14px; }\n    input, select, button { border:1px solid var(--line); border-radius:8px; padding:8px; }\n    button { background:var(--accent); color:white; border:none; cursor:pointer; }\n    table { width:100%; border-collapse:collapse; background:var(--card); border:1px solid var(--line); border-radius:14px; overflow:hidden; }\n    th, td { border-bottom:1px solid var(--line); padding:10px; text-align:left; font-size:14px; }\n  </style>\n</head>\n<body>\n<main>\n"@
        + body
        + "\n</main>\n</body>\n</html>"@
}

/// The full HTML document with a title and a body.
pub fn layout(title: &str, body: &str) -> (r: String)
    ensures
        r@ == layout_text(title@, body@),
{
    let mut out = String::new();
    out.append("<!doctype html>\n<html>\n<head>\n  <meta charset=\"utf-8\" />\n  <meta name=\"viewport\" content=\"width=device-width, initial-scale=1\" />\n  <title>");
    out.append(title);
    out.append("</title>\n  <style>\n    :root { --bg:#f5f7fb; --card:#ffffff; --text:#202733; --accent:#1456d1; --line:#d9e0ef; }\n    body { margin:0; font-family: \"Segoe UI\", sans-serif; background:linear-gradient(160deg,#eef3ff,#f8fbff); color:var(--text); }\n    nav { display:flex; gap:12px; align-items:center; padding:12px 18px; background:var(--card); border-bottom:1px solid var(--line); }\n    nav a { color:var(--accent); text-decoration:none; font-weight:600; }\n    main { max-width:1080px; margin:20px auto; padding:0 14px; }\n    .cards { display:grid; grid-template-columns:repeat(auto-fit,minmax(180px,1fr)); gap:12px; }\n    .card { background:var(--card); border:1px solid var(--line); border-radius:14px; padding:14px; }\n    form { margin:12px 0; background:var(--card); border:1px solid var(--line); border-radius:14px; padding:12px; }\n    .form-grid { display:grid; grid-template-columns:repeat(auto-fit,minmax(220px,1fr)); gap:10px; }\n    label { display:flex; flex-direction:column; gap:6px; font-size:14px; }\n    input, select, button { border:1px solid var(--line); border-radius:8px; padding:8px; }\n    button { background:var(--accent); color:white; border:none; cursor:pointer; }\n    table { width:100%; border-collapse:collapse; background:var(--card); border:1px solid var(--line); border-radius:14px; overflow:hidden; }\n    th, td { border-bottom:1px solid var(--line); padding:10px; text-align:left; font-size:14px; }\n  </style>\n</head>\n<body>\n<main>\n");
    out.append(body);
    out.append("\n</main>\n</body>\n</html>");
    assert(out@ =~= layout_text(title@, body@));
    out
}

/// The login page.
pub fn login_page() -> (r: String)
    ensures
        r@ == layout_text("登录"@, login_body()),
{
    layout("登录", "\n        <h1>Nginx 管理器</h1>\n        <form method=\"post\" action=\"/login\">\n            <label>用户名 <input name=\"username\" required /></label>\n            <label>密码 <input type=\"password\" name=\"password\" required /></label>\n            <button type=\"submit\">登录</button>\n        </form>\n    ")
}

/// One line of the expiry reminder list.
pub open spec fn reminder_item_text(rem: CertReminder) -> Seq<char> {
    "<li>"@
        + rem.domain@
        + " 将在 "@
        + dec_int(rem.days_left as int)
        + " 天后过期（"@
        + rem.expires_at@
        + "）</li>"@
}

/// One line of the expiry reminder list.
pub fn reminder_item(rem: &CertReminder) -> (r: String)
    ensures
        r@ == reminder_item_text(*rem),
{
    let mut out = String::new();
    out.append("<li>");
    out.append(rem.domain.as_str());
    out.append(" 将在 ");
    push_dec_i64(&mut out, rem.days_left);
    out.append(" 天后过期（");
    out.append(rem.expires_at.as_str());
    out.append("）</li>");
    assert(out@ =~= reminder_item_text(*rem));
    out
}

/// The lines of the expiry reminder list, in order.
pub open spec fn reminder_items_text(rs: Seq<CertReminder>) -> Seq<char>
    decreases rs.len(),
{
    if rs.len() == 0 {
        Seq::empty()
    } else {
        reminder_items_text(rs.drop_last()) + reminder_item_text(rs.last())
    }
}

/// The reminder section: a list of the reminders, or a note that none is due.
pub open spec fn reminder_section_text(rs: Seq<CertReminder>) -> Seq<char> {
    if rs.len() == 0 {
        "<p>未来 30 天内无即将到期证书。</p>"@
    } else {
        "<ul>"@ + reminder_items_text(rs) + "</ul>"@
    }
}

/// The reminder section: a list of the reminders, or a note that none is due.
pub fn reminder_section(rs: &Vec<CertReminder>) -> (r: String)
    ensures
        r@ == reminder_section_text(rs@),
{
    if rs.len() == 0 {
        return String::from_str("<p>未来 30 天内无即将到期证书。</p>");
    }
    let mut items = String::new();
    let mut i: usize = 0;
    while i < rs.len()
        invariant
            i <= rs@.len(),
            items@ == reminder_items_text(rs@.subrange(0, i as int)),
        decreases rs@.len() - i,
    {
        let item = reminder_item(&rs[i]);
        items.append(item.as_str());
        proof {
            assert(rs@.subrange(0, i + 1).drop_last() =~= rs@.subrange(0, i as int));
        }
        i = i + 1;
    }
    assert(rs@.subrange(0, i as int) =~= rs@);
    let mut out = String::from_str("<ul>");
    out.append(items.as_str());
    out.append("</ul>");
    out
}

/// The dashboard: counts of sites, certificates and certificates expiring within 7, 15 and 30 days, and the reminder list.
pub open spec fn dashboard_body_text(sites: i64, certs: i64, rs: Seq<CertReminder>) -> Seq<char> {
    "\n        "@
        + nav_html()
        + "\n        <h1>仪表盘</h1>\n        <div class=\"cards\">\n            <div class=\"card\"><h3>站点数量</h3><p>"@
        + dec_int(sites as int)
        + "</p></div>\n            <div class=\"card\"><h3>证书数量</h3><p>"@
        + dec_int(certs as int)
        + "</p></div>\n            <div class=\"card\"><h3>7 天内到期</h3><p>"@
        + dec_nat(count_within(rs, 7))
        + "</p></div>\n            <div class=\"card\"><h3>15 天内到期</h3><p>"@
        + dec_nat(count_within(rs, 15))
        + "</p></div>\n            <div class=\"card\"><h3>30 天内到期</h3><p>"@
        + dec_nat(rs.len())
        + "</p></div>\n        </div>\n        <section class=\"card\">\n            <h3>证书到期提醒</h3>\n            "@
        + reminder_section_text(rs)
        + "\n        </section>\n    "@
}

/// The dashboard: counts of sites, certificates and certificates expiring within 7, 15 and 30 days, and the reminder list.
pub fn dashboard_body(sites: i64, certs: i64, rs: &Vec<CertReminder>) -> (r: String)
    ensures
        r@ == dashboard_body_text(sites, certs, rs@),
{
    let (danger, warn, notice) = reminder_counts(rs);
    let section = reminder_section(rs);
    let mut out = String::new();
    out.append("\n        ");
    out.append(nav());
    out.append("\n        <h1>仪表盘</h1>\n        <div class=\"cards\">\n            <div class=\"card\"><h3>站点数量</h3><p>");
    push_dec_i64(&mut out, sites);
    out.append("</p></div>\n            <div class=\"card\"><h3>证书数量</h3><p>");
    push_dec_i64(&mut out, certs);
    out.append("</p></div>\n            <div class=\"card\"><h3>7 天内到期</h3><p>");
    push_dec_u64(&mut out, danger as u64);
    out.append("</p></div>\n            <div class=\"card\"><h3>15 天内到期</h3><p>");
    push_dec_u64(&mut out, warn as u64);
    out.append("</p></div>\n            <div class=\"card\"><h3>30 天内到期</h3><p>");
    push_dec_u64(&mut out, notice as u64);
    out.append("</p></div>\n        </div>\n        <section class=\"card\">\n            <h3>证书到期提醒</h3>\n            ");
    out.append(section.as_str());
    out.append("\n        </section>\n    ");
    assert(out@ =~= dashboard_body_text(sites, certs, rs@));
    out
}

/// The dashboard page.
pub fn dashboard_page(sites: i64, certs: i64, rs: &Vec<CertReminder>) -> (r: String)
    ensures
        r@ == layout_text("仪表盘"@, dashboard_body_text(sites, certs, rs@)),
{
    let body = dashboard_body(sites, certs, rs);
    layout("仪表盘", body.as_str())
}

/// One certificate in the certificate menu of a site row.
pub open spec fn cert_option_text(c: Certificate) -> Seq<char> {
    "<option value=\""@
        + dec_int(c.id as int)
        + "\">"@
        + c.name@
        + "</option>"@
}

/// One certificate in the certificate menu of a site row.
pub fn cert_option(c: &Certificate) -> (r: String)
    ensures
        r@ == cert_option_text(*c),
{
    let mut out = String::new();
    out.append("<option value=\"");
    push_dec_i64(&mut out, c.id);
    out.append("\">");
    out.append(c.name.as_str());
    out.append("</option>");
    assert(out@ =~= cert_option_text(*c));
    out
}

/// The certificate menu of a site row: every certificate, in order.
pub open spec fn cert_options_text(cs: Seq<Certificate>) -> Seq<char>
    decreases cs.len(),
{
    if cs.len() == 0 {
        Seq::empty()
    } else {
        cert_options_text(cs.drop_last()) + cert_option_text(cs.last())
    }
}

/// The certificate menu of a site row: every certificate, in order.
pub fn cert_options(cs: &Vec<Certificate>) -> (r: String)
    ensures
        r@ == cert_options_text(cs@),
{
    let mut out = String::new();
    let mut i: usize = 0;
    while i < cs.len()
        invariant
            i <= cs@.len(),
            out@ == cert_options_text(cs@.subrange(0, i as int)),
        decreases cs@.len() - i,
    {
        let o = cert_option(&cs[i]);
        out.append(o.as_str());
        proof {
            assert(cs@.subrange(0, i + 1).drop_last() =~= cs@.subrange(0, i as int));
        }
        i = i + 1;
    }
    assert(cs@.subrange(0, i as int) =~= cs@);
    out
}

/// The state shown for a site: enabled where `enabled` is 1.
pub open spec fn site_status_text(enabled: i64) -> Seq<char> {
    if enabled == 1 { "已启用"@ } else { "已停用"@ }
}

/// The value the toggle button sends: the opposite of the current state.
pub open spec fn toggle_value_text(enabled: i64) -> Seq<char> {
    if enabled == 1 { "false"@ } else { "true"@ }
}

/// The label of the toggle button.
pub open spec fn toggle_label_text(enabled: i64) -> Seq<char> {
    if enabled == 1 { "停用"@ } else { "启用"@ }
}

/// One row of the site table, with its toggle, certificate and edit/delete controls.
pub open spec fn site_row_text(s: Site, options: Seq<char>) -> Seq<char> {
    "<tr>\n                <td>"@
        + dec_int(s.id as int)
        + "</td><td>"@
        + s.name@
        + "</td><td>"@
        + s.domain@
        + "</td><td>"@
        + s.site_type@
        + "</td><td>"@
        + dec_int(s.port as int)
        + "</td><td>"@
        + site_status_text(s.enabled)
        + "</td>\n                <td>\n                    <form method=\"post\" action=\"/sites/"@
        + dec_int(s.id as int)
        + "/toggle\" style=\"display:inline\">\n                        <input type=\"hidden\" name=\"enabled\" value=\""@
        + toggle_value_text(s.enabled)
        + "\" />\n                        <button type=\"submit\">"@
        + toggle_label_text(s.enabled)
        + "</button>\n                    </form>\n                </td>\n                <td>\n                    <form method=\"post\" action=\"/sites/"@
        + dec_int(s.id as int)
        + "/bind-cert\" style=\"display:flex;gap:8px\">\n                        <select name=\"cert_id\">"@
        + options
        + "</select>\n                        <button type=\"submit\">绑定</button>\n                    </form>\n                </td>\n                <td>\n                    <a href=\"/sites/"@
        + dec_int(s.id as int)
        + "/edit\">编辑</a>\n                    <form method=\"post\" action=\"/sites/"@
        + dec_int(s.id as int)
        + "/delete\" style=\"display:inline;margin-left:8px\" onsubmit=\"return confirm('确认删除该站点吗？此操作不可恢复。')\">\n                        <button type=\"submit\">删除</button>\n                    </form>\n                </td>\n            </tr>"@
}

/// One row of the site table, with its toggle, certificate and edit/delete controls.
pub fn site_row(s: &Site, options: &str) -> (r: String)
    ensures
        r@ == site_row_text(*s, options@),
{
    let mut out = String::new();
    out.append("<tr>\n                <td>");
    push_dec_i64(&mut out, s.id);
    out.append("</td><td>");
    out.append(s.name.as_str());
    out.append("</td><td>");
    out.append(s.domain.as_str());
    out.append("</td><td>");
    out.append(s.site_type.as_str());
    out.append("</td><td>");
    push_dec_i64(&mut out, s.port);
    out.append("</td><td>");
    if s.enabled == 1 {
        out.append("已启用");
    } else {
        out.append("已停用");
    }
    out.append("</td>\n                <td>\n                    <form method=\"post\" action=\"/sites/");
    push_dec_i64(&mut out, s.id);
    out.append("/toggle\" style=\"display:inline\">\n                        <input type=\"hidden\" name=\"enabled\" value=\"");
    if s.enabled == 1 {
        out.append("false");
    } else {
        out.append("true");
    }
    out.append("\" />\n                        <button type=\"submit\">");
    if s.enabled == 1 {
        out.append("停用");
    } else {
        out.append("启用");
    }
    out.append("</button>\n                    </form>\n                </td>\n                <td>\n                    <form method=\"post\" action=\"/sites/");
    push_dec_i64(&mut out, s.id);
    out.append("/bind-cert\" style=\"display:flex;gap:8px\">\n                        <select name=\"cert_id\">");
    out.append(options);
    out.append("</select>\n                        <button type=\"submit\">绑定</button>\n                    </form>\n                </td>\n                <td>\n                    <a href=\"/sites/");
    push_dec_i64(&mut out, s.id);
    out.append("/edit\">编辑</a>\n                    <form method=\"post\" action=\"/sites/");
    push_dec_i64(&mut out, s.id);
    out.append("/delete\" style=\"display:inline;margin-left:8px\" onsubmit=\"return confirm('确认删除该站点吗？此操作不可恢复。')\">\n                        <button type=\"submit\">删除</button>\n                    </form>\n                </td>\n            </tr>");
    assert(out@ =~= site_row_text(*s, options@));
    out
}

proof fn lemma_toggle_pieces()
    ensures
        "/toggle\" style=\"display:inline\">\n                        <input type=\"hidden\" name=\"enabled\" value=\""@
            == "/toggle\" style=\"display:inline\">\n                        "@
            + "<input type=\"hidden\" name=\"enabled\" value=\""@,
        "\" />\n                        <button type=\"submit\">"@ == "\" />"@
            + "\n                        "@ + "<button type=\"submit\">"@,
        "</button>\n                    </form>\n                </td>\n                <td>\n                    <form method=\"post\" action=\"/sites/"@
            == "</button>"@
            + "\n                    </form>\n                </td>\n                <td>\n                    <form method=\"post\" action=\"/sites/"@,
{
    reveal_strlit("/toggle\" style=\"display:inline\">\n                        <input type=\"hidden\" name=\"enabled\" value=\"");
    reveal_strlit("/toggle\" style=\"display:inline\">\n                        ");
    reveal_strlit("<input type=\"hidden\" name=\"enabled\" value=\"");
    reveal_strlit("\" />\n                        <button type=\"submit\">");
    reveal_strlit("\" />");
    reveal_strlit("\n                        ");
    reveal_strlit("<button type=\"submit\">");
    reveal_strlit("</button>\n                    </form>\n                </td>\n                <td>\n                    <form method=\"post\" action=\"/sites/");
    reveal_strlit("</button>");
    reveal_strlit("\n                    </form>\n                </td>\n                <td>\n                    <form method=\"post\" action=\"/sites/");
    assert("/toggle\" style=\"display:inline\">\n                        <input type=\"hidden\" name=\"enabled\" value=\""@
        =~= "/toggle\" style=\"display:inline\">\n                        "@
        + "<input type=\"hidden\" name=\"enabled\" value=\""@);
    assert("\" />\n                        <button type=\"submit\">"@ =~= "\" />"@
        + "\n                        "@ + "<button type=\"submit\">"@);
    assert("</button>\n                    </form>\n                </td>\n                <td>\n                    <form method=\"post\" action=\"/sites/"@
        =~= "</button>"@
        + "\n                    </form>\n                </td>\n                <td>\n                    <form method=\"post\" action=\"/sites/"@);
}

proof fn lemma_toggle_controls(v: Seq<char>, lab: Seq<char>)
    ensures
        v == "false"@ ==> "<input type=\"hidden\" name=\"enabled\" value=\"false\" />"@
            == "<input type=\"hidden\" name=\"enabled\" value=\""@ + v + "\" />"@,
        v == "true"@ ==> "<input type=\"hidden\" name=\"enabled\" value=\"true\" />"@
            == "<input type=\"hidden\" name=\"enabled\" value=\""@ + v + "\" />"@,
        lab == "停用"@ ==> "<button type=\"submit\">停用</button>"@ == "<button type=\"submit\">"@
            + lab + "</button>"@,
        lab == "启用"@ ==> "<button type=\"submit\">启用</button>"@ == "<button type=\"submit\">"@
            + lab + "</button>"@,
{
    reveal_strlit("<input type=\"hidden\" name=\"enabled\" value=\"");
    reveal_strlit("\" />");
    reveal_strlit("<button type=\"submit\">");
    reveal_strlit("</button>");
    reveal_strlit("false");
    reveal_strlit("true");
    reveal_strlit("停用");
    reveal_strlit("启用");
    reveal_strlit("<input type=\"hidden\" name=\"enabled\" value=\"false\" />");
    reveal_strlit("<input type=\"hidden\" name=\"enabled\" value=\"true\" />");
    reveal_strlit("<button type=\"submit\">停用</button>");
    reveal_strlit("<button type=\"submit\">启用</button>");
    if v == "false"@ {
        assert("<input type=\"hidden\" name=\"enabled\" value=\"false\" />"@
            =~= "<input type=\"hidden\" name=\"enabled\" value=\""@ + v + "\" />"@);
    }
    if v == "true"@ {
        assert("<input type=\"hidden\" name=\"enabled\" value=\"true\" />"@
            =~= "<input type=\"hidden\" name=\"enabled\" value=\""@ + v + "\" />"@);
    }
    if lab == "停用"@ {
        assert("<button type=\"submit\">停用</button>"@ =~= "<button type=\"submit\">"@ + lab
            + "</button>"@);
    }
    if lab == "启用"@ {
        assert("<button type=\"submit\">启用</button>"@ =~= "<button type=\"submit\">"@ + lab
            + "</button>"@);
    }
}

/// Law: the toggle button of a site's row sends the opposite of the
/// site's state: an enabled site (1) offers to disable it, any other
/// offers to enable it.
pub proof fn lemma_toggle_sends_opposite_state(s: Site, options: Seq<char>)
    ensures
        s.enabled == 1 ==> occurs_in(
            "<input type=\"hidden\" name=\"enabled\" value=\"false\" />"@,
            site_row_text(s, options),
        ) && occurs_in("<button type=\"submit\">停用</button>"@, site_row_text(s, options)),
        s.enabled != 1 ==> occurs_in(
            "<input type=\"hidden\" name=\"enabled\" value=\"true\" />"@,
            site_row_text(s, options),
        ) && occurs_in("<button type=\"submit\">启用</button>"@, site_row_text(s, options)),
{
    let v = toggle_value_text(s.enabled);
    let lab = toggle_label_text(s.enabled);
    let a = "<tr>\n                <td>"@
        + dec_int(s.id as int)
        + "</td><td>"@
        + s.name@
        + "</td><td>"@
        + s.domain@
        + "</td><td>"@
        + s.site_type@
        + "</td><td>"@
        + dec_int(s.port as int)
        + "</td><td>"@
        + site_status_text(s.enabled)
        + "</td>\n                <td>\n                    <form method=\"post\" action=\"/sites/"@
        + dec_int(s.id as int);
    let lb0 = "/toggle\" style=\"display:inline\">\n                        "@;
    let input = "<input type=\"hidden\" name=\"enabled\" value=\""@;
    let q = "\" />"@;
    let gap = "\n                        "@;
    let btn = "<button type=\"submit\">"@;
    let close = "</button>"@;
    let ld1 = "\n                    </form>\n                </td>\n                <td>\n                    <form method=\"post\" action=\"/sites/"@;
    lemma_toggle_pieces();
    lemma_toggle_controls(v, lab);
    let lb = "/toggle\" style=\"display:inline\">\n                        <input type=\"hidden\" name=\"enabled\" value=\""@;
    let lc = "\" />\n                        <button type=\"submit\">"@;
    let ld = "</button>\n                    </form>\n                </td>\n                <td>\n                    <form method=\"post\" action=\"/sites/"@;
    let front = a + lb + v + lc + lab + ld;
    assert(front =~= (a + lb0) + (input + v + q) + (gap + btn + lab + close + ld1));
    lemma_occurs_between(a + lb0, input + v + q, gap + btn + lab + close + ld1);
    assert(front =~= (a + lb0 + input + v + q + gap) + (btn + lab + close) + ld1);
    lemma_occurs_between(a + lb0 + input + v + q + gap, btn + lab + close, ld1);
    lemma_occurs_in_row_tail(input + v + q, front, s, options);
    lemma_occurs_in_row_tail(btn + lab + close, front, s, options);
}

/// What follows the toggle form in a site's row keeps what occurs before it.
proof fn lemma_occurs_in_row_tail(part: Seq<char>, front: Seq<char>, s: Site, options: Seq<char>)
    requires
        occurs_in(part, front),
    ensures
        occurs_in(
            part,
            front
                + dec_int(s.id as int)
                + "/bind-cert\" style=\"display:flex;gap:8px\">\n                        <select name=\"cert_id\">"@
                + options
                + "</select>\n                        <button type=\"submit\">绑定</button>\n                    </form>\n                </td>\n                <td>\n                    <a href=\"/sites/"@
                + dec_int(s.id as int)
                + "/edit\">编辑</a>\n                    <form method=\"post\" action=\"/sites/"@
                + dec_int(s.id as int)
                + "/delete\" style=\"display:inline;margin-left:8px\" onsubmit=\"return confirm('确认删除该站点吗？此操作不可恢复。')\">\n                        <button type=\"submit\">删除</button>\n                    </form>\n                </td>\n            </tr>"@,
        ),
{
    let t1 = front + dec_int(s.id as int);
    lemma_occurs_append(part, front, dec_int(s.id as int));
    let t2 = t1 + "/bind-cert\" style=\"display:flex;gap:8px\">\n                        <select name=\"cert_id\">"@;
    lemma_occurs_append(part, t1, "/bind-cert\" style=\"display:flex;gap:8px\">\n                        <select name=\"cert_id\">"@);
    let t3 = t2 + options;
    lemma_occurs_append(part, t2, options);
    let t4 = t3 + "</select>\n                        <button type=\"submit\">绑定</button>\n                    </form>\n                </td>\n                <td>\n                    <a href=\"/sites/"@;
    lemma_occurs_append(part, t3, "</select>\n                        <button type=\"submit\">绑定</button>\n                    </form>\n                </td>\n                <td>\n                    <a href=\"/sites/"@);
    let t5 = t4 + dec_int(s.id as int);
    lemma_occurs_append(part, t4, dec_int(s.id as int));
    let t6 = t5 + "/edit\">编辑</a>\n                    <form method=\"post\" action=\"/sites/"@;
    lemma_occurs_append(part, t5, "/edit\">编辑</a>\n                    <form method=\"post\" action=\"/sites/"@);
    let t7 = t6 + dec_int(s.id as int);
    lemma_occurs_append(part, t6, dec_int(s.id as int));
    lemma_occurs_append(part, t7, "/delete\" style=\"display:inline;margin-left:8px\" onsubmit=\"return confirm('确认删除该站点吗？此操作不可恢复。')\">\n                        <button type=\"submit\">删除</button>\n                    </form>\n                </td>\n            </tr>"@);
}

/// The rows of the site table, in order.
pub open spec fn site_rows_text(ss: Seq<Site>, options: Seq<char>) -> Seq<char>
    decreases ss.len(),
{
    if ss.len() == 0 {
        Seq::empty()
    } else {
        site_rows_text(ss.drop_last(), options) + site_row_text(ss.last(), options)
    }
}

/// The rows of the site table, in order.
pub fn site_rows(ss: &Vec<Site>, options: &str) -> (r: String)
    ensures
        r@ == site_rows_text(ss@, options@),
{
    let mut out = String::new();
    let mut i: usize = 0;
    while i < ss.len()
        invariant
            i <= ss@.len(),
            out@ == site_rows_text(ss@.subrange(0, i as int), options@),
        decreases ss@.len() - i,
    {
        let row = site_row(&ss[i], options);
        out.append(row.as_str());
        proof {
            assert(ss@.subrange(0, i + 1).drop_last() =~= ss@.subrange(0, i as int));
        }
        i = i + 1;
    }
    assert(ss@.subrange(0, i as int) =~= ss@);
    out
}

/// The site page: the form that creates a site and the table of sites.
pub open spec fn sites_body_text(rows: Seq<char>) -> Seq<char> {
    "\n        "@
        + nav_html()
        + "\n        <h1>站点管理</h1>\n        <form method=\"post\" action=\"/sites\" class=\"form-grid\">\n            <label>站点名称 <input name=\"name\" required /></label>\n            <label>域名 <input name=\"domain\" required /></label>\n            <label>站点类型\n                <select name=\"site_type\">\n                    <option value=\"proxy\">反向代理</option>\n                    <option value=\"static\">静态站点</option>\n                </select>\n            </label>\n            <label>代理目标地址（反向代理）<input name=\"upstream\" placeholder=\"http://127.0.0.1:3000\" /></label>\n            <label>站点目录（静态站点）<input name=\"root_dir\" placeholder=\"/var/www/html\" /></label>\n            <label>端口 <input name=\"port\" type=\"number\" value=\"80\" /></label>\n            <button type=\"submit\">创建站点</button>\n        </form>\n        <p>系统会自动检查域名和端口冲突，并提示被哪个站点占用。</p>\n        <table>\n            <thead><tr><th>ID</th><th>名称</th><th>域名</th><th>类型</th><th>端口</th><th>状态</th><th>启停</th><th>证书</th><th>操作</th></tr></thead>\n            <tbody>"@
        + rows
        + "</tbody>\n        </table>\n    "@
}

/// The site page: the form that creates a site and the table of sites.
pub fn sites_body(rows: &str) -> (r: String)
    ensures
        r@ == sites_body_text(rows@),
{
    let mut out = String::new();
    out.append("\n        ");
    out.append(nav());
    out.append("\n        <h1>站点管理</h1>\n        <form method=\"post\" action=\"/sites\" class=\"form-grid\">\n            <label>站点名称 <input name=\"name\" required /></label>\n            <label>域名 <input name=\"domain\" required /></label>\n            <label>站点类型\n                <select name=\"site_type\">\n                    <option value=\"proxy\">反向代理</option>\n                    <option value=\"static\">静态站点</option>\n                </select>\n            </label>\n            <label>代理目标地址（反向代理）<input name=\"upstream\" placeholder=\"http://127.0.0.1:3000\" /></label>\n            <label>站点目录（静态站点）<input name=\"root_dir\" placeholder=\"/var/www/html\" /></label>\n            <label>端口 <input name=\"port\" type=\"number\" value=\"80\" /></label>\n            <button type=\"submit\">创建站点</button>\n        </form>\n        <p>系统会自动检查域名和端口冲突，并提示被哪个站点占用。</p>\n        <table>\n            <thead><tr><th>ID</th><th>名称</th><th>域名</th><th>类型</th><th>端口</th><th>状态</th><th>启停</th><th>证书</th><th>操作</th></tr></thead>\n            <tbody>");
    out.append(rows);
    out.append("</tbody>\n        </table>\n    ");
    assert(out@ =~= sites_body_text(rows@));
    out
}

/// The site page, with a row per site (newest first as given) and a menu of
/// all certificates in each row.
pub fn sites_page(ss: &Vec<Site>, cs: &Vec<Certificate>) -> (r: String)
    ensures
        r@ == layout_text("站点管理"@, sites_body_text(site_rows_text(ss@, cert_options_text(cs@)))),
{
    let options = cert_options(cs);
    let rows = site_rows(ss, options.as_str());
    let body = sites_body(rows.as_str());
    layout("站点管理", body.as_str())
}

/// The text of an optional field, empty where it is absent.
pub open spec fn or_empty(v: Option<String>) -> Seq<char> {
    match v {
        Some(s) => s@,
        None => Seq::empty(),
    }
}

/// `selected` where the site has the given type, else nothing.
pub open spec fn selected_text(site_type: Seq<char>, wanted: Seq<char>) -> Seq<char> {
    if site_type == wanted { "selected"@ } else { Seq::empty() }
}

/// The form that edits a site, filled with its current values.
pub open spec fn edit_site_body_text(s: Site) -> Seq<char> {
    "\n        "@
        + nav_html()
        + "\n        <h1>编辑站点 #"@
        + dec_int(s.id as int)
        + "</h1>\n        <form method=\"post\" action=\"/sites/"@
        + dec_int(s.id as int)
        + "/update\" class=\"form-grid\">\n            <label>站点名称 <input name=\"name\" value=\""@
        + s.name@
        + "\" required /></label>\n            <label>域名 <input name=\"domain\" value=\""@
        + s.domain@
        + "\" required /></label>\n            <label>站点类型\n                <select name=\"site_type\">\n                    <option value=\"proxy\" "@
        + selected_text(s.site_type@, "proxy"@)
        + ">反向代理</option>\n                    <option value=\"static\" "@
        + selected_text(s.site_type@, "static"@)
        + ">静态站点</option>\n                </select>\n            </label>\n            <label>代理目标地址（反向代理）<input name=\"upstream\" value=\""@
        + or_empty(s.upstream)
        + "\" /></label>\n            <label>站点目录（静态站点）<input name=\"root_dir\" value=\""@
        + or_empty(s.root_dir)
        + "\" /></label>\n            <label>端口 <input name=\"port\" type=\"number\" value=\""@
        + dec_int(s.port as int)
        + "\" /></label>\n            <button type=\"submit\">保存修改</button>\n        </form>\n        <p><a href=\"/sites\">返回列表</a></p>\n    "@
}

proof fn lemma_type_option_pieces()
    ensures
        "\" required /></label>\n            <label>站点类型\n                <select name=\"site_type\">\n                    <option value=\"proxy\" "@
            == "\" required /></label>\n            <label>站点类型\n                <select name=\"site_type\">\n                    "@
            + "<option value=\"proxy\" "@,
        ">反向代理</option>\n                    <option value=\"static\" "@ == ">反向代理</option>"@
            + "\n                    "@ + "<option value=\"static\" "@,
        ">静态站点</option>\n                </select>\n            </label>\n            <label>代理目标地址（反向代理）<input name=\"upstream\" value=\""@
            == ">静态站点</option>"@
            + "\n                </select>\n            </label>\n            <label>代理目标地址（反向代理）<input name=\"upstream\" value=\""@,
        "<option value=\"proxy\" selected>反向代理</option>"@ == "<option value=\"proxy\" "@
            + "selected"@ + ">反向代理</option>"@,
        "<option value=\"proxy\" >反向代理</option>"@ == "<option value=\"proxy\" "@
            + Seq::<char>::empty() + ">反向代理</option>"@,
        "<option value=\"static\" selected>静态站点</option>"@ == "<option value=\"static\" "@
            + "selected"@ + ">静态站点</option>"@,
        "<option value=\"static\" >静态站点</option>"@ == "<option value=\"static\" "@
            + Seq::<char>::empty() + ">静态站点</option>"@,
        "static"@ != "proxy"@,
{
    reveal_strlit("\" required /></label>\n            <label>站点类型\n                <select name=\"site_type\">\n                    <option value=\"proxy\" ");
    reveal_strlit("\" required /></label>\n            <label>站点类型\n                <select name=\"site_type\">\n                    ");
    reveal_strlit("<option value=\"proxy\" ");
    reveal_strlit(">反向代理</option>\n                    <option value=\"static\" ");
    reveal_strlit(">反向代理</option>");
    reveal_strlit("\n                    ");
    reveal_strlit("<option value=\"static\" ");
    reveal_strlit(">静态站点</option>\n                </select>\n            </label>\n            <label>代理目标地址（反向代理）<input name=\"upstream\" value=\"");
    reveal_strlit(">静态站点</option>");
    reveal_strlit("\n                </select>\n            </label>\n            <label>代理目标地址（反向代理）<input name=\"upstream\" value=\"");
    reveal_strlit("<option value=\"proxy\" selected>反向代理</option>");
    reveal_strlit("<option value=\"proxy\" >反向代理</option>");
    reveal_strlit("<option value=\"static\" selected>静态站点</option>");
    reveal_strlit("<option value=\"static\" >静态站点</option>");
    reveal_strlit("selected");
    reveal_strlit("static");
    reveal_strlit("proxy");
    assert("\" required /></label>\n            <label>站点类型\n                <select name=\"site_type\">\n                    <option value=\"proxy\" "@
        =~= "\" required /></label>\n            <label>站点类型\n                <select name=\"site_type\">\n                    "@
        + "<option value=\"proxy\" "@);
    assert(">反向代理</option>\n                    <option value=\"static\" "@ =~= ">反向代理</option>"@
        + "\n                    "@ + "<option value=\"static\" "@);
    assert(">静态站点</option>\n                </select>\n            </label>\n            <label>代理目标地址（反向代理）<input name=\"upstream\" value=\""@
        =~= ">静态站点</option>"@
        + "\n                </select>\n            </label>\n            <label>代理目标地址（反向代理）<input name=\"upstream\" value=\""@);
    assert("<option value=\"proxy\" selected>反向代理</option>"@ =~= "<option value=\"proxy\" "@
        + "selected"@ + ">反向代理</option>"@);
    assert("<option value=\"proxy\" >反向代理</option>"@ =~= "<option value=\"proxy\" "@
        + Seq::<char>::empty() + ">反向代理</option>"@);
    assert("<option value=\"static\" selected>静态站点</option>"@ =~= "<option value=\"static\" "@
        + "selected"@ + ">静态站点</option>"@);
    assert("<option value=\"static\" >静态站点</option>"@ =~= "<option value=\"static\" "@
        + Seq::<char>::empty() + ">静态站点</option>"@);
    assert("static"@[0] != "proxy"@[0]);
}

/// What follows the site-type choice in the edit form keeps what occurs
/// before it.
proof fn lemma_occurs_in_edit_tail(part: Seq<char>, front: Seq<char>, s: Site)
    requires
        occurs_in(part, front),
    ensures
        occurs_in(
            part,
            front
                + or_empty(s.upstream)
                + "\" /></label>\n            <label>站点目录（静态站点）<input name=\"root_dir\" value=\""@
                + or_empty(s.root_dir)
                + "\" /></label>\n            <label>端口 <input name=\"port\" type=\"number\" value=\""@
                + dec_int(s.port as int)
                + "\" /></label>\n            <button type=\"submit\">保存修改</button>\n        </form>\n        <p><a href=\"/sites\">返回列表</a></p>\n    "@,
        ),
{
    let t1 = front + or_empty(s.upstream);
    lemma_occurs_append(part, front, or_empty(s.upstream));
    let t2 = t1 + "\" /></label>\n            <label>站点目录（静态站点）<input name=\"root_dir\" value=\""@;
    lemma_occurs_append(part, t1, "\" /></label>\n            <label>站点目录（静态站点）<input name=\"root_dir\" value=\""@);
    let t3 = t2 + or_empty(s.root_dir);
    lemma_occurs_append(part, t2, or_empty(s.root_dir));
    let t4 = t3 + "\" /></label>\n            <label>端口 <input name=\"port\" type=\"number\" value=\""@;
    lemma_occurs_append(part, t3, "\" /></label>\n            <label>端口 <input name=\"port\" type=\"number\" value=\""@);
    let t5 = t4 + dec_int(s.port as int);
    lemma_occurs_append(part, t4, dec_int(s.port as int));
    lemma_occurs_append(part, t5, "\" /></label>\n            <button type=\"submit\">保存修改</button>\n        </form>\n        <p><a href=\"/sites\">返回列表</a></p>\n    "@);
}

/// Law: the edit form offers both site types and preselects exactly the
/// one the site has: a proxy site shows "反向代理" chosen, a static site
/// "静态站点", and a site of neither type neither.
pub proof fn lemma_edit_form_selects_site_type(s: Site)
    ensures
        s.site_type@ == "proxy"@ ==> occurs_in(
            "<option value=\"proxy\" selected>反向代理</option>"@,
            edit_site_body_text(s),
        ) && occurs_in("<option value=\"static\" >静态站点</option>"@, edit_site_body_text(s)),
        s.site_type@ == "static"@ ==> occurs_in(
            "<option value=\"proxy\" >反向代理</option>"@,
            edit_site_body_text(s),
        ) && occurs_in("<option value=\"static\" selected>静态站点</option>"@, edit_site_body_text(s)),
        s.site_type@ != "proxy"@ && s.site_type@ != "static"@ ==> occurs_in(
            "<option value=\"proxy\" >反向代理</option>"@,
            edit_site_body_text(s),
        ) && occurs_in("<option value=\"static\" >静态站点</option>"@, edit_site_body_text(s)),
{
    lemma_type_option_pieces();
    let sp = selected_text(s.site_type@, "proxy"@);
    let ss = selected_text(s.site_type@, "static"@);
    let a = "\n        "@
        + nav_html()
        + "\n        <h1>编辑站点 #"@
        + dec_int(s.id as int)
        + "</h1>\n        <form method=\"post\" action=\"/sites/"@
        + dec_int(s.id as int)
        + "/update\" class=\"form-grid\">\n            <label>站点名称 <input name=\"name\" value=\""@
        + s.name@
        + "\" required /></label>\n            <label>域名 <input name=\"domain\" value=\""@
        + s.domain@;
    let ca = "\" required /></label>\n            <label>站点类型\n                <select name=\"site_type\">\n                    <option value=\"proxy\" "@;
    let ca0 = "\" required /></label>\n            <label>站点类型\n                <select name=\"site_type\">\n                    "@;
    let op = "<option value=\"proxy\" "@;
    let cb = ">反向代理</option>\n                    <option value=\"static\" "@;
    let lp = ">反向代理</option>"@;
    let gap = "\n                    "@;
    let os = "<option value=\"static\" "@;
    let cc = ">静态站点</option>\n                </select>\n            </label>\n            <label>代理目标地址（反向代理）<input name=\"upstream\" value=\""@;
    let ls = ">静态站点</option>"@;
    let cc1 = "\n                </select>\n            </label>\n            <label>代理目标地址（反向代理）<input name=\"upstream\" value=\""@;
    let front = a + ca + sp + cb + ss + cc;
    assert(front =~= (a + ca0) + (op + sp + lp) + (gap + os + ss + ls + cc1));
    lemma_occurs_between(a + ca0, op + sp + lp, gap + os + ss + ls + cc1);
    assert(front =~= (a + ca0 + op + sp + lp + gap) + (os + ss + ls) + cc1);
    lemma_occurs_between(a + ca0 + op + sp + lp + gap, os + ss + ls, cc1);
    lemma_occurs_in_edit_tail(op + sp + lp, front, s);
    lemma_occurs_in_edit_tail(os + ss + ls, front, s);
}

/// The form that edits a site, filled with its current values.
pub fn edit_site_body(s: &Site) -> (r: String)
    ensures
        r@ == edit_site_body_text(*s),
{
    let mut out = String::new();
    out.append("\n        ");
    out.append(nav());
    out.append("\n        <h1>编辑站点 #");
    push_dec_i64(&mut out, s.id);
    out.append("</h1>\n        <form method=\"post\" action=\"/sites/");
    push_dec_i64(&mut out, s.id);
    out.append("/update\" class=\"form-grid\">\n            <label>站点名称 <input name=\"name\" value=\"");
    out.append(s.name.as_str());
    out.append("\" required /></label>\n            <label>域名 <input name=\"domain\" value=\"");
    out.append(s.domain.as_str());
    out.append("\" required /></label>\n            <label>站点类型\n                <select name=\"site_type\">\n                    <option value=\"proxy\" ");
    if str_eq(s.site_type.as_str(), "proxy") {
        out.append("selected");
    }
    out.append(">反向代理</option>\n                    <option value=\"static\" ");
    if str_eq(s.site_type.as_str(), "static") {
        out.append("selected");
    }
    out.append(">静态站点</option>\n                </select>\n            </label>\n            <label>代理目标地址（反向代理）<input name=\"upstream\" value=\"");
    match &s.upstream {
        Some(u) => out.append(u.as_str()),
        None => {},
    }
    out.append("\" /></label>\n            <label>站点目录（静态站点）<input name=\"root_dir\" value=\"");
    match &s.root_dir {
        Some(d) => out.append(d.as_str()),
        None => {},
    }
    out.append("\" /></label>\n            <label>端口 <input name=\"port\" type=\"number\" value=\"");
    push_dec_i64(&mut out, s.port);
    out.append("\" /></label>\n            <button type=\"submit\">保存修改</button>\n        </form>\n        <p><a href=\"/sites\">返回列表</a></p>\n    ");
    assert(out@ =~= edit_site_body_text(*s));
    out
}

/// The page that edits a site.
pub fn edit_site_page(s: &Site) -> (r: String)
    ensures
        r@ == layout_text("编辑站点"@, edit_site_body_text(*s)),
{
    let body = edit_site_body(s);
    layout("编辑站点", body.as_str())
}

/// The expiry shown for a certificate, `未知` where it is unknown.
pub open spec fn expiry_shown(v: Option<String>) -> Seq<char> {
    match v {
        Some(s) => s@,
        None => "未知"@,
    }
}

/// One row of the certificate table.
pub open spec fn cert_row_text(c: Certificate) -> Seq<char> {
    "<tr><td>"@
        + dec_int(c.id as int)
        + "</td><td>"@
        + c.name@
        + "</td><td>"@
        + c.domain@
        + "</td><td>"@
        + c.issuer@
        + "</td><td>"@
        + expiry_shown(c.expires_at)
        + "</td><td>"@
        + c.cert_path@
        + "</td></tr>"@
}

/// One row of the certificate table.
pub fn cert_row(c: &Certificate) -> (r: String)
    ensures
        r@ == cert_row_text(*c),
{
    let mut out = String::new();
    out.append("<tr><td>");
    push_dec_i64(&mut out, c.id);
    out.append("</td><td>");
    out.append(c.name.as_str());
    out.append("</td><td>");
    out.append(c.domain.as_str());
    out.append("</td><td>");
    out.append(c.issuer.as_str());
    out.append("</td><td>");
    match &c.expires_at {
        Some(e) => out.append(e.as_str()),
        None => out.append("未知"),
    }
    out.append("</td><td>");
    out.append(c.cert_path.as_str());
    out.append("</td></tr>");
    assert(out@ =~= cert_row_text(*c));
    out
}

/// The rows of the certificate table, in order.
pub open spec fn cert_rows_text(cs: Seq<Certificate>) -> Seq<char>
    decreases cs.len(),
{
    if cs.len() == 0 {
        Seq::empty()
    } else {
        cert_rows_text(cs.drop_last()) + cert_row_text(cs.last())
    }
}

/// The rows of the certificate table, in order.
pub fn cert_rows(cs: &Vec<Certificate>) -> (r: String)
    ensures
        r@ == cert_rows_text(cs@),
{
    let mut out = String::new();
    let mut i: usize = 0;
    while i < cs.len()
        invariant
            i <= cs@.len(),
            out@ == cert_rows_text(cs@.subrange(0, i as int)),
        decreases cs@.len() - i,
    {
        let row = cert_row(&cs[i]);
        out.append(row.as_str());
        proof {
            assert(cs@.subrange(0, i + 1).drop_last() =~= cs@.subrange(0, i as int));
        }
        i = i + 1;
    }
    assert(cs@.subrange(0, i as int) =~= cs@);
    out
}

/// The certificate page: upload form, Let's Encrypt form and the table.
pub open spec fn certs_body_text(rows: Seq<char>) -> Seq<char> {
    "\n        "@
        + nav_html()
        + "\n        <h1>证书管理</h1>\n        <h2>上传已有证书</h2>\n        <form method=\"post\" action=\"/certs/upload\" enctype=\"multipart/form-data\" class=\"form-grid\">\n            <label>证书名称 <input name=\"name\" required /></label>\n            <label>域名 <input name=\"domain\" required /></label>\n            <label>CRT 文件 <input type=\"file\" name=\"cert_file\" required /></label>\n            <label>KEY 文件 <input type=\"file\" name=\"key_file\" required /></label>\n            <button type=\"submit\">上传</button>\n        </form>\n        <h2>Let's Encrypt 申请（HTTP-01）</h2>\n        <form method=\"post\" action=\"/certs/request\" class=\"form-grid\">\n            <label>证书名称 <input name=\"name\" required /></label>\n            <label>域名 <input name=\"domain\" required /></label>\n            <label>邮箱 <input name=\"email\" required /></label>\n            <button type=\"submit\">申请证书</button>\n        </form>\n        <table>\n            <thead><tr><th>ID</th><th>名称</th><th>域名</th><th>签发方</th><th>到期时间</th><th>证书路径</th></tr></thead>\n            <tbody>"@
        + rows
        + "</tbody>\n        </table>\n    "@
}

/// The certificate page: upload form, Let's Encrypt form and the table.
pub fn certs_body(rows: &str) -> (r: String)
    ensures
        r@ == certs_body_text(rows@),
{
    let mut out = String::new();
    out.append("\n        ");
    out.append(nav());
    out.append("\n        <h1>证书管理</h1>\n        <h2>上传已有证书</h2>\n        <form method=\"post\" action=\"/certs/upload\" enctype=\"multipart/form-data\" class=\"form-grid\">\n            <label>证书名称 <input name=\"name\" required /></label>\n            <label>域名 <input name=\"domain\" required /></label>\n            <label>CRT 文件 <input type=\"file\" name=\"cert_file\" required /></label>\n            <label>KEY 文件 <input type=\"file\" name=\"key_file\" required /></label>\n            <button type=\"submit\">上传</button>\n        </form>\n        <h2>Let's Encrypt 申请（HTTP-01）</h2>\n        <form method=\"post\" action=\"/certs/request\" class=\"form-grid\">\n            <label>证书名称 <input name=\"name\" required /></label>\n            <label>域名 <input name=\"domain\" required /></label>\n            <label>邮箱 <input name=\"email\" required /></label>\n            <button type=\"submit\">申请证书</button>\n        </form>\n        <table>\n            <thead><tr><th>ID</th><th>名称</th><th>域名</th><th>签发方</th><th>到期时间</th><th>证书路径</th></tr></thead>\n            <tbody>");
    out.append(rows);
    out.append("</tbody>\n        </table>\n    ");
    assert(out@ =~= certs_body_text(rows@));
    out
}

/// The certificate page.
pub fn certs_page(cs: &Vec<Certificate>) -> (r: String)
    ensures
        r@ == layout_text("证书管理"@, certs_body_text(cert_rows_text(cs@))),
{
    let rows = cert_rows(cs);
    let body = certs_body(rows.as_str());
    layout("证书管理", body.as_str())
}

/// The service page: the menu of service actions.
pub open spec fn service_body_text() -> Seq<char> {
    "\n        "@
        + nav_html()
        + "\n        <h1>Nginx 服务控制</h1>\n        <form method=\"post\" action=\"/service/control\">\n            <select name=\"action\">\n                <option value=\"status\">查看状态</option>\n                <option value=\"start\">启动</option>\n                <option value=\"stop\">停止</option>\n                <option value=\"restart\">重启</option>\n                <option value=\"reload\">重载</option>\n            </select>\n            <button type=\"submit\">执行</button>\n        </form>\n    "@
}

/// The service page: the menu of service actions.
pub fn service_body() -> (r: String)
    ensures
        r@ == service_body_text(),
{
    let mut out = String::new();
    out.append("\n        ");
    out.append(nav());
    out.append("\n        <h1>Nginx 服务控制</h1>\n        <form method=\"post\" action=\"/service/control\">\n            <select name=\"action\">\n                <option value=\"status\">查看状态</option>\n                <option value=\"start\">启动</option>\n                <option value=\"stop\">停止</option>\n                <option value=\"restart\">重启</option>\n                <option value=\"reload\">重载</option>\n            </select>\n            <button type=\"submit\">执行</button>\n        </form>\n    ");
    assert(out@ =~= service_body_text());
    out
}

/// The service page.
pub fn service_page() -> (r: String)
    ensures
        r@ == layout_text("服务控制"@, service_body_text()),
{
    let body = service_body();
    layout("服务控制", body.as_str())
}

/// The settings page: the password form.
pub open spec fn settings_body_text() -> Seq<char> {
    "\n        "@
        + nav_html()
        + "\n        <h1>系统设置</h1>\n        <form method=\"post\" action=\"/settings/password\" class=\"form-grid\">\n            <label>当前密码 <input type=\"password\" name=\"current_password\" required /></label>\n            <label>新密码 <input type=\"password\" name=\"new_password\" required /></label>\n            <button type=\"submit\">修改密码</button>\n        </form>\n    "@
}

/// The settings page: the password form.
pub fn settings_body() -> (r: String)
    ensures
        r@ == settings_body_text(),
{
    let mut out = String::new();
    out.append("\n        ");
    out.append(nav());
    out.append("\n        <h1>系统设置</h1>\n        <form method=\"post\" action=\"/settings/password\" class=\"form-grid\">\n            <label>当前密码 <input type=\"password\" name=\"current_password\" required /></label>\n            <label>新密码 <input type=\"password\" name=\"new_password\" required /></label>\n            <button type=\"submit\">修改密码</button>\n        </form>\n    ");
    assert(out@ =~= settings_body_text());
    out
}

/// The settings page.
pub fn settings_page() -> (r: String)
    ensures
        r@ == layout_text("系统设置"@, settings_body_text()),
{
    let body = settings_body();
    layout("系统设置", body.as_str())
}

/// An audit log entry.
#[derive(Debug, Clone)]
pub struct AuditLog {
    pub actor: String,
    pub action: String,
    pub detail: String,
    pub created_at: String,
}

/// The Chinese name of a logged action; other actions are shown as they are.
pub open spec fn action_name(action: Seq<char>) -> Seq<char> {
    if action == "login"@ {
        "登录"@
    } else if action == "create_site"@ {
        "创建站点"@
    } else if action == "update_site"@ {
        "更新站点"@
    } else if action == "delete_site"@ {
        "删除站点"@
    } else if action == "upload_cert"@ {
        "上传证书"@
    } else if action == "request_cert"@ {
        "申请证书"@
    } else if action == "change_password"@ {
        "修改密码"@
    } else {
        action
    }
}

/// The Chinese name of a logged action; other actions are shown as they are.
pub fn action_to_cn<'a>(action: &'a str) -> (r: &'a str)
    ensures
        r@ == action_name(action@),
{
    if str_eq(action, "login") {
        "登录"
    } else if str_eq(action, "create_site") {
        "创建站点"
    } else if str_eq(action, "update_site") {
        "更新站点"
    } else if str_eq(action, "delete_site") {
        "删除站点"
    } else if str_eq(action, "upload_cert") {
        "上传证书"
    } else if str_eq(action, "request_cert") {
        "申请证书"
    } else if str_eq(action, "change_password") {
        "修改密码"
    } else {
        action
    }
}

/// One row of the audit log table.
pub open spec fn log_row_text(l: AuditLog) -> Seq<char> {
    "<tr><td>"@
        + l.created_at@
        + "</td><td>"@
        + l.actor@
        + "</td><td>"@
        + action_name(l.action@)
        + "</td><td>"@
        + l.detail@
        + "</td></tr>"@
}

/// One row of the audit log table.
pub fn log_row(l: &AuditLog) -> (r: String)
    ensures
        r@ == log_row_text(*l),
{
    let mut out = String::new();
    out.append("<tr><td>");
    out.append(l.created_at.as_str());
    out.append("</td><td>");
    out.append(l.actor.as_str());
    out.append("</td><td>");
    out.append(action_to_cn(l.action.as_str()));
    out.append("</td><td>");
    out.append(l.detail.as_str());
    out.append("</td></tr>");
    assert(out@ =~= log_row_text(*l));
    out
}

/// The rows of the audit log table, in order.
pub open spec fn log_rows_text(ls: Seq<AuditLog>) -> Seq<char>
    decreases ls.len(),
{
    if ls.len() == 0 {
        Seq::empty()
    } else {
        log_rows_text(ls.drop_last()) + log_row_text(ls.last())
    }
}

/// The rows of the audit log table, in order.
pub fn log_rows(ls: &Vec<AuditLog>) -> (r: String)
    ensures
        r@ == log_rows_text(ls@),
{
    let mut out = String::new();
    let mut i: usize = 0;
    while i < ls.len()
        invariant
            i <= ls@.len(),
            out@ == log_rows_text(ls@.subrange(0, i as int)),
        decreases ls@.len() - i,
    {
        let row = log_row(&ls[i]);
        out.append(row.as_str());
        proof {
            assert(ls@.subrange(0, i + 1).drop_last() =~= ls@.subrange(0, i as int));
        }
        i = i + 1;
    }
    assert(ls@.subrange(0, i as int) =~= ls@);
    out
}

/// The audit log page.
pub open spec fn logs_body_text(rows: Seq<char>) -> Seq<char> {
    "\n        "@
        + nav_html()
        + "\n        <h1>操作日志</h1>\n        <table>\n            <thead><tr><th>时间</th><th>操作者</th><th>动作</th><th>详情</th></tr></thead>\n            <tbody>"@
        + rows
        + "</tbody>\n        </table>\n    "@
}

/// The audit log page.
pub fn logs_body(rows: &str) -> (r: String)
    ensures
        r@ == logs_body_text(rows@),
{
    let mut out = String::new();
    out.append("\n        ");
    out.append(nav());
    out.append("\n        <h1>操作日志</h1>\n        <table>\n            <thead><tr><th>时间</th><th>操作者</th><th>动作</th><th>详情</th></tr></thead>\n            <tbody>");
    out.append(rows);
    out.append("</tbody>\n        </table>\n    ");
    assert(out@ =~= logs_body_text(rows@));
    out
}

/// The audit log page, a row per entry in the order given.
pub fn logs_page(ls: &Vec<AuditLog>) -> (r: String)
    ensures
        r@ == layout_text("操作日志"@, logs_body_text(log_rows_text(ls@))),
{
    let rows = log_rows(ls);
    let body = logs_body(rows.as_str());
    layout("操作日志", body.as_str())
}

/// The page that shows what a service command printed.
pub fn service_result_page(output: &str) -> (r: String)
    ensures
        r@ == layout_text("执行结果"@, nav_html() + "<pre>"@ + output@ + "</pre>"@),
{
    let mut body = String::from_str(nav());
    body.append("<pre>");
    body.append(output);
    body.append("</pre>");
    layout("执行结果", body.as_str())
}

/// The page that confirms a password change.
pub fn password_changed_page() -> (r: String)
    ensures
        r@ == layout_text("系统设置"@, nav_html() + "<p>密码修改成功，请妥善保管。</p>"@),
{
    let mut body = String::from_str(nav());
    body.append("<p>密码修改成功，请妥善保管。</p>");
    layout("系统设置", body.as_str())
}

} // verus!
