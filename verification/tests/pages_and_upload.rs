use nginx_manager::models::{Certificate, Site};
use nginx_manager::pages::{
    action_to_cn, certs_page, dashboard_page, edit_site_page, layout, login_page, logs_page, nav,
    service_page, settings_page, sites_page, AuditLog,
};
use nginx_manager::reminders::CertReminder;
use nginx_manager::reply::Reply;
use nginx_manager::steps::{
    bad_upload_form, deleted_detail, password_changed, reminders_or_none, service_reply, site_found,
};
use nginx_manager::upload::{upload_audit_detail, upload_field_kind, CertUpload, UploadFieldKind, UploadPart};

fn site(id: i64, enabled: i64) -> Site {
    Site {
        id,
        name: format!("s{id}"),
        domain: format!("s{id}.example.com"),
        site_type: "static".to_string(),
        upstream: None,
        root_dir: Some("/srv".to_string()),
        port: 81,
        enabled,
        cert_id: None,
        created_at: "t".to_string(),
    }
}

fn cert(id: i64, expires: Option<&str>) -> Certificate {
    Certificate {
        id,
        name: format!("c{id}"),
        domain: "x.example.com".to_string(),
        cert_path: format!("/certs/c{id}.crt"),
        key_path: format!("/certs/c{id}.key"),
        issuer: "uploaded".to_string(),
        expires_at: expires.map(String::from),
        auto_managed: 0,
        created_at: "t".to_string(),
    }
}

#[test]
fn layout_wraps_title_and_body() {
    let page = layout("T", "<p>B</p>");
    assert!(page.starts_with("<!doctype html>\n<html>\n<head>\n  <meta charset=\"utf-8\" />"));
    assert!(page.contains("<title>T</title>"));
    assert!(page.contains(":root { --bg:#f5f7fb;"));
    assert!(page.ends_with("<main>\n<p>B</p>\n</main>\n</body>\n</html>"));
    assert!(login_page().contains("<h1>Nginx 管理器</h1>"));
    assert!(nav().contains("<a href=\"/logs\">操作日志</a>"));
}

#[test]
fn action_names() {
    assert_eq!(action_to_cn("login"), "登录");
    assert_eq!(action_to_cn("create_site"), "创建站点");
    assert_eq!(action_to_cn("update_site"), "更新站点");
    assert_eq!(action_to_cn("delete_site"), "删除站点");
    assert_eq!(action_to_cn("upload_cert"), "上传证书");
    assert_eq!(action_to_cn("request_cert"), "申请证书");
    assert_eq!(action_to_cn("change_password"), "修改密码");
    assert_eq!(action_to_cn("创建站点"), "创建站点");
}

#[test]
fn dashboard_counts_and_list() {
    let rs = vec![
        CertReminder { domain: "a.com".to_string(), days_left: 3, expires_at: "2030-01-01T00:00:00+00:00".to_string() },
        CertReminder { domain: "b.com".to_string(), days_left: 12, expires_at: "e2".to_string() },
        CertReminder { domain: "c.com".to_string(), days_left: 29, expires_at: "e3".to_string() },
    ];
    let page = dashboard_page(4, 2, &rs);
    assert!(page.contains("<div class=\"card\"><h3>站点数量</h3><p>4</p></div>"));
    assert!(page.contains("<div class=\"card\"><h3>证书数量</h3><p>2</p></div>"));
    assert!(page.contains("<h3>7 天内到期</h3><p>1</p>"));
    assert!(page.contains("<h3>15 天内到期</h3><p>2</p>"));
    assert!(page.contains("<h3>30 天内到期</h3><p>3</p>"));
    assert!(page.contains("<ul><li>a.com 将在 3 天后过期（2030-01-01T00:00:00+00:00）</li><li>b.com 将在 12 天后过期（e2）</li>"));
    let empty = dashboard_page(0, 0, &vec![]);
    assert!(empty.contains("<p>未来 30 天内无即将到期证书。</p>"));
}

#[test]
fn site_table() {
    let page = sites_page(&vec![site(2, 1), site(1, 0)], &vec![cert(5, None), cert(4, None)]);
    assert!(page.contains("<td>2</td><td>s2</td><td>s2.example.com</td><td>static</td><td>81</td><td>已启用</td>"));
    assert!(page.contains("<td>1</td><td>s1</td><td>s1.example.com</td><td>static</td><td>81</td><td>已停用</td>"));
    assert!(page.contains("<input type=\"hidden\" name=\"enabled\" value=\"false\" />"));
    assert!(page.contains("<button type=\"submit\">启用</button>"));
    assert!(page.contains("<select name=\"cert_id\"><option value=\"5\">c5</option><option value=\"4\">c4</option></select>"));
    assert!(page.find("s2.example.com").unwrap() < page.find("s1.example.com").unwrap());
}

#[test]
fn edit_page_fields() {
    let mut s = site(7, 1);
    s.site_type = "proxy".to_string();
    s.upstream = Some("http://u".to_string());
    s.root_dir = None;
    let page = edit_site_page(&s);
    assert!(page.contains("<h1>编辑站点 #7</h1>"));
    assert!(page.contains("action=\"/sites/7/update\""));
    assert!(page.contains("<option value=\"proxy\" selected>反向代理</option>"));
    assert!(page.contains("<option value=\"static\" >静态站点</option>"));
    assert!(page.contains("<input name=\"upstream\" value=\"http://u\" />"));
    assert!(page.contains("<input name=\"root_dir\" value=\"\" />"));
    assert!(page.contains("<title>编辑站点</title>"));
}

#[test]
fn certificate_and_log_tables() {
    let page = certs_page(&vec![cert(1, None), cert(2, Some("2031-05-01T00:00:00+00:00"))]);
    assert!(page.contains("<tr><td>1</td><td>c1</td><td>x.example.com</td><td>uploaded</td><td>未知</td><td>/certs/c1.crt</td></tr>"));
    assert!(page.contains("<td>2031-05-01T00:00:00+00:00</td>"));
    let logs = vec![AuditLog {
        actor: "admin".to_string(),
        action: "login".to_string(),
        detail: "管理员登录".to_string(),
        created_at: "2024-01-01".to_string(),
    }];
    assert!(logs_page(&logs).contains("<tr><td>2024-01-01</td><td>admin</td><td>登录</td><td>管理员登录</td></tr>"));
    assert!(service_page().contains("<option value=\"reload\">重载</option>"));
    assert!(settings_page().contains("name=\"new_password\""));
}

#[test]
fn upload_form_parts() {
    assert_eq!(upload_field_kind("name"), UploadFieldKind::Name);
    assert_eq!(upload_field_kind("domain"), UploadFieldKind::Domain);
    assert_eq!(upload_field_kind("cert_file"), UploadFieldKind::CertFile);
    assert_eq!(upload_field_kind("key_file"), UploadFieldKind::KeyFile);
    assert_eq!(upload_field_kind("other"), UploadFieldKind::Other);
    let mut u = CertUpload::new();
    u.accept(UploadPart::Name("first".to_string()));
    u.accept(UploadPart::Name("blog".to_string()));
    u.accept(UploadPart::Domain("blog.example.com".to_string()));
    u.accept(UploadPart::CertFile(Some(b"CERT".to_vec())));
    u.accept(UploadPart::Other);
    assert!(matches!(u.finish("/d"), Err(Reply::Status(400, ref m)) if m == "缺少必填字段"));
    let mut u = CertUpload::new();
    u.accept(UploadPart::Name("blog".to_string()));
    u.accept(UploadPart::Domain("blog.example.com".to_string()));
    u.accept(UploadPart::CertFile(Some(b"CERT".to_vec())));
    u.accept(UploadPart::KeyFile(Some(b"KEY".to_vec())));
    let plan = u.finish("/etc/nginx-manager/certs").ok().unwrap();
    assert_eq!(plan.cert_path, "/etc/nginx-manager/certs/blog.crt");
    assert_eq!(plan.key_path, "/etc/nginx-manager/certs/blog.key");
    assert_eq!(plan.cert_bytes, b"CERT".to_vec());
    assert_eq!(plan.key_bytes, b"KEY".to_vec());
    assert_eq!(upload_audit_detail("blog", "blog.example.com"), "name=blog domain=blog.example.com");
    let mut u = CertUpload::new();
    u.accept(UploadPart::Name("".to_string()));
    u.accept(UploadPart::Domain("d".to_string()));
    u.accept(UploadPart::CertFile(Some(vec![])));
    u.accept(UploadPart::KeyFile(Some(vec![])));
    assert!(u.finish("/d").is_err());
}

#[test]
fn handler_steps() {
    assert!(matches!(site_found(Err("none".to_string())), Err(Reply::Status(404, ref m)) if m == "站点不存在"));
    assert_eq!(deleted_detail(3, "a", "a.com"), "site_id=3 name=a domain=a.com");
    assert_eq!(service_reply(Err("不支持的服务操作".to_string())), Reply::Status(400, "命令执行失败：不支持的服务操作".to_string()));
    match service_reply(Ok("active (running)".to_string())) {
        Reply::Page(p) => assert!(p.contains("<pre>active (running)</pre>") && p.contains("<title>执行结果</title>")),
        _ => panic!(),
    }
    match password_changed() {
        Reply::Page(p) => assert!(p.contains("<p>密码修改成功，请妥善保管。</p>")),
        _ => panic!(),
    }
    assert!(reminders_or_none(Err("x".to_string())).is_empty());
    assert_eq!(bad_upload_form(), Reply::Status(400, "上传表单格式错误".to_string()));
}

#[test]
fn audit_entries() {
    let e = nginx_manager::steps::login_audit("root");
    assert_eq!((e.actor.as_str(), e.action.as_str(), e.detail.as_str()), ("root", "login", "管理员登录"));
    let e = nginx_manager::steps::deleted_audit(2, "a", "a.com");
    assert_eq!((e.actor.as_str(), e.action.as_str(), e.detail.as_str()), ("admin", "删除站点", "site_id=2 name=a domain=a.com"));
    let e = nginx_manager::steps::uploaded_audit("c", "c.com");
    assert_eq!((e.action.as_str(), e.detail.as_str()), ("上传证书", "name=c domain=c.com"));
    let e = nginx_manager::steps::requested_audit("c", "c.com");
    assert_eq!((e.action.as_str(), e.detail.as_str()), ("申请证书", "name=c domain=c.com"));
    let e = nginx_manager::steps::password_audit("root");
    assert_eq!((e.actor.as_str(), e.action.as_str(), e.detail.as_str()), ("root", "修改密码", "管理员修改密码"));
    assert_eq!(nginx_manager::reminders::DASHBOARD_WINDOW_DAYS, 30);
}
