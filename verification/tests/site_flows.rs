use nginx_manager::models::{Certificate, CreateSiteForm, Site};
use nginx_manager::reply::Reply;
use nginx_manager::site_apply::{link_step, FileAction, FileStage, LinkStep, SiteFiles};
use nginx_manager::site_form::{
    check_site_form, domain_conflict_message, normalize_opt, port_conflict_message, SiteFormError,
};
use nginx_manager::site_save::{SiteSave, SiteSaveAction, SiteSaveStage};

fn form(site_type: &str, upstream: Option<&str>, root: Option<&str>) -> CreateSiteForm {
    CreateSiteForm {
        name: "app".to_string(),
        domain: "app.example.com".to_string(),
        site_type: site_type.to_string(),
        upstream: upstream.map(|s| s.to_string()),
        root_dir: root.map(|s| s.to_string()),
        port: 80,
    }
}

fn stored(id: i64, name: &str, cert_id: Option<i64>) -> Site {
    Site {
        id,
        name: name.to_string(),
        domain: "app.example.com".to_string(),
        site_type: "proxy".to_string(),
        upstream: Some("http://127.0.0.1:3000".to_string()),
        root_dir: None,
        port: 80,
        enabled: 1,
        cert_id,
        created_at: "2024-01-01T00:00:00+00:00".to_string(),
    }
}

fn status(code: u16, msg: &str) -> Reply {
    Reply::Status(code, msg.to_string())
}

#[test]
fn normalize_optional_fields() {
    assert_eq!(normalize_opt(None), None);
    assert_eq!(normalize_opt(Some("   ".to_string())), None);
    assert_eq!(normalize_opt(Some(" http://a ".to_string())), Some("http://a".to_string()));
}

#[test]
fn site_form_checks() {
    let ok = check_site_form(form(" proxy ", Some(" http://x "), Some("  "))).unwrap();
    assert_eq!(ok.site_type, "proxy");
    assert_eq!(ok.upstream, Some("http://x".to_string()));
    assert_eq!(ok.root_dir, None);
    assert_eq!(ok.port, 80);
    assert_eq!(check_site_form(form("php", Some("x"), None)).err(), Some(SiteFormError::InvalidType));
    assert_eq!(check_site_form(form("proxy", Some(" "), None)).err(), Some(SiteFormError::MissingUpstream));
    assert_eq!(check_site_form(form("static", None, None)).err(), Some(SiteFormError::MissingRootDir));
    assert_eq!(SiteFormError::InvalidType.message(), "站点类型必须是“反向代理”或“静态站点”");
    assert_eq!(SiteFormError::MissingUpstream.message(), "反向代理站点必须填写代理目标地址");
    assert_eq!(SiteFormError::MissingRootDir.message(), "静态站点必须填写站点目录");
}

#[test]
fn conflict_messages() {
    assert_eq!(domain_conflict_message(4, "shop"), "域名已被站点 #4（shop）使用");
    assert_eq!(port_conflict_message(80, 4, "shop", "shop.example.com"), "端口 80 已被站点 #4（shop, shop.example.com）使用");
}

#[test]
fn create_site_happy_path() {
    let (mut s, a) = SiteSave::start_create(form("proxy", Some("http://127.0.0.1:3000"), None));
    match a {
        SiteSaveAction::FindDomainUser { domain, exclude } => {
            assert_eq!(domain, "app.example.com");
            assert_eq!(exclude, None);
        }
        _ => panic!("expected the domain check"),
    }
    match s.on_domain_checked(Ok(None)) {
        SiteSaveAction::FindPortUser { port, exclude } => {
            assert_eq!(port, 80);
            assert_eq!(exclude, None);
        }
        _ => panic!("expected the port check"),
    }
    match s.on_port_checked(Ok(None)) {
        SiteSaveAction::Insert(input) => {
            assert_eq!(input.name, "app");
            assert_eq!(input.site_type, "proxy");
        }
        _ => panic!("expected the insert"),
    }
    match s.on_written(Ok(())) {
        SiteSaveAction::LoadByName(n) => assert_eq!(n, "app"),
        _ => panic!("expected the read back"),
    }
    match s.on_reloaded(Ok(stored(9, "app", None))) {
        SiteSaveAction::Apply(site, cert) => {
            assert_eq!(site.id, 9);
            assert!(cert.is_none());
        }
        _ => panic!("expected the apply"),
    }
    match s.on_applied(Ok(())) {
        SiteSaveAction::Audit { actor, action, detail } => {
            assert_eq!(actor, "admin");
            assert_eq!(action, "创建站点");
            assert_eq!(detail, "site=app domain=app.example.com");
        }
        _ => panic!("expected the audit"),
    }
    match s.on_audited() {
        SiteSaveAction::Respond(r) => assert_eq!(r, Reply::Redirect("/sites".to_string())),
        _ => panic!("expected the answer"),
    }
    assert_eq!(s.current_stage(), SiteSaveStage::Finished);
}

#[test]
fn create_site_refusals() {
    let (s, a) = SiteSave::start_create(form("static", None, None));
    assert_eq!(s.current_stage(), SiteSaveStage::Finished);
    match a {
        SiteSaveAction::Respond(r) => assert_eq!(r, status(400, "静态站点必须填写站点目录")),
        _ => panic!(),
    }
    let (mut s, _) = SiteSave::start_create(form("proxy", Some("http://a"), None));
    match s.on_domain_checked(Ok(Some((2, "old".to_string())))) {
        SiteSaveAction::Respond(r) => assert_eq!(r, status(400, "域名已被站点 #2（old）使用")),
        _ => panic!(),
    }
    let (mut s, _) = SiteSave::start_create(form("proxy", Some("http://a"), None));
    match s.on_domain_checked(Err("locked".to_string())) {
        SiteSaveAction::Respond(r) => assert_eq!(r, status(500, "域名冲突检查失败")),
        _ => panic!(),
    }
    let (mut s, _) = SiteSave::start_create(form("proxy", Some("http://a"), None));
    s.on_domain_checked(Ok(None));
    match s.on_port_checked(Ok(Some((5, "other".to_string(), "o.example.com".to_string())))) {
        SiteSaveAction::Respond(r) => assert_eq!(r, status(400, "端口 80 已被站点 #5（other, o.example.com）使用")),
        _ => panic!(),
    }
    let (mut s, _) = SiteSave::start_create(form("proxy", Some("http://a"), None));
    s.on_domain_checked(Ok(None));
    match s.on_port_checked(Err("x".to_string())) {
        SiteSaveAction::Respond(r) => assert_eq!(r, status(500, "端口冲突检查失败")),
        _ => panic!(),
    }
    let (mut s, _) = SiteSave::start_create(form("proxy", Some("http://a"), None));
    s.on_domain_checked(Ok(None));
    s.on_port_checked(Ok(None));
    match s.on_written(Err("UNIQUE constraint failed".to_string())) {
        SiteSaveAction::Respond(r) => assert_eq!(r, status(400, "站点创建失败（名称重复或输入无效）")),
        _ => panic!(),
    }
    let (mut s, _) = SiteSave::start_create(form("proxy", Some("http://a"), None));
    s.on_domain_checked(Ok(None));
    s.on_port_checked(Ok(None));
    s.on_written(Ok(()));
    match s.on_reloaded(Err("gone".to_string())) {
        SiteSaveAction::Respond(r) => assert_eq!(r, status(500, "读取新建站点失败")),
        _ => panic!(),
    }
    let (mut s, _) = SiteSave::start_create(form("proxy", Some("http://a"), None));
    s.on_domain_checked(Ok(None));
    s.on_port_checked(Ok(None));
    s.on_written(Ok(()));
    s.on_reloaded(Ok(stored(1, "app", None)));
    match s.on_applied(Err("nginx -t 校验失败：bad".to_string())) {
        SiteSaveAction::Respond(r) => assert_eq!(r, status(400, "应用 Nginx 配置失败：nginx -t 校验失败：bad")),
        _ => panic!(),
    }
}

#[test]
fn update_site_rolls_back_a_failed_apply() {
    let (mut s, a) = SiteSave::start_update(9, form("proxy", Some("http://127.0.0.1:4000"), None));
    match a {
        SiteSaveAction::LoadExisting(id) => assert_eq!(id, 9),
        _ => panic!(),
    }
    match s.on_existing(Ok(stored(9, "before", None))) {
        SiteSaveAction::FindDomainUser { exclude, .. } => assert_eq!(exclude, Some(9)),
        _ => panic!(),
    }
    match s.on_domain_checked(Ok(None)) {
        SiteSaveAction::FindPortUser { exclude, .. } => assert_eq!(exclude, Some(9)),
        _ => panic!(),
    }
    match s.on_port_checked(Ok(None)) {
        SiteSaveAction::Update(id, input) => {
            assert_eq!(id, 9);
            assert_eq!(input.upstream, Some("http://127.0.0.1:4000".to_string()));
        }
        _ => panic!(),
    }
    match s.on_written(Ok(())) {
        SiteSaveAction::LoadById(id) => assert_eq!(id, 9),
        _ => panic!(),
    }
    match s.on_reloaded(Ok(stored(9, "app", Some(7)))) {
        SiteSaveAction::LoadCert(c) => assert_eq!(c, 7),
        _ => panic!(),
    }
    match s.on_cert(Err("no table".to_string())) {
        SiteSaveAction::Apply(site, cert) => {
            assert_eq!(site.name, "app");
            assert!(cert.is_none());
        }
        _ => panic!(),
    }
    match s.on_applied(Err("重载失败：boom".to_string())) {
        SiteSaveAction::Restore(id, old) => {
            assert_eq!(id, 9);
            assert_eq!(old.name, "before");
        }
        _ => panic!(),
    }
    match s.on_restored() {
        SiteSaveAction::Respond(r) => assert_eq!(r, status(400, "应用 Nginx 配置失败：重载失败：boom")),
        _ => panic!(),
    }
}

#[test]
fn update_site_success_and_missing() {
    let (mut s, _) = SiteSave::start_update(3, form("proxy", Some("http://a"), None));
    match s.on_existing(Err("no rows".to_string())) {
        SiteSaveAction::Respond(r) => assert_eq!(r, status(404, "站点不存在")),
        _ => panic!(),
    }
    let (mut s, _) = SiteSave::start_update(3, form("proxy", Some("http://a"), None));
    s.on_existing(Ok(stored(3, "app", None)));
    s.on_domain_checked(Ok(None));
    s.on_port_checked(Ok(None));
    match s.on_written(Err("disk full".to_string())) {
        SiteSaveAction::Respond(r) => assert_eq!(r, status(400, "更新失败：disk full")),
        _ => panic!(),
    }
    let (mut s, _) = SiteSave::start_update(3, form("proxy", Some("http://a"), None));
    s.on_existing(Ok(stored(3, "app", None)));
    s.on_domain_checked(Ok(None));
    s.on_port_checked(Ok(None));
    s.on_written(Ok(()));
    let cert = Certificate {
        id: 1,
        name: "c".to_string(),
        domain: "d".to_string(),
        cert_path: "/c".to_string(),
        key_path: "/k".to_string(),
        issuer: "uploaded".to_string(),
        expires_at: None,
        auto_managed: 0,
        created_at: "t".to_string(),
    };
    s.on_reloaded(Ok(stored(3, "app", Some(1))));
    match s.on_cert(Ok(Some(cert))) {
        SiteSaveAction::Apply(_, c) => assert_eq!(c.unwrap().cert_path, "/c"),
        _ => panic!(),
    }
    match s.on_applied(Ok(())) {
        SiteSaveAction::Audit { action, detail, .. } => {
            assert_eq!(action, "更新站点");
            assert_eq!(detail, "site_id=3 name=app domain=app.example.com");
        }
        _ => panic!(),
    }
}

#[test]
fn enabled_link_steps() {
    assert_eq!(link_step(true, false), LinkStep::Create);
    assert_eq!(link_step(true, true), LinkStep::Keep);
    assert_eq!(link_step(false, true), LinkStep::Remove);
    assert_eq!(link_step(false, false), LinkStep::Keep);
}

#[test]
fn apply_restores_previous_files_when_nginx_refuses() {
    let site = stored(1, "app", None);
    let (mut f, a) = SiteFiles::start_apply(&site, None);
    assert!(matches!(a, FileAction::Snapshot));
    match f.on_snapshot(Some(b"old".to_vec()), false) {
        FileAction::WriteConfig(c) => assert!(c.starts_with("server {\n    listen 80;")),
        _ => panic!(),
    }
    match f.on_written(Ok(())) {
        FileAction::SetLink(on) => assert!(on),
        _ => panic!(),
    }
    assert!(matches!(f.on_link_set(Ok(())), FileAction::TestConfig));
    match f.on_tested(Err("nginx -t 校验失败：x".to_string())) {
        FileAction::RestoreConfig(b) => assert_eq!(b, b"old".to_vec()),
        _ => panic!(),
    }
    match f.on_config_restored() {
        FileAction::RestoreLink(on) => assert!(!on),
        _ => panic!(),
    }
    match f.on_link_restored() {
        FileAction::Done(r) => assert_eq!(r, Err("nginx -t 校验失败：x".to_string())),
        _ => panic!(),
    }
    assert_eq!(f.current_stage(), FileStage::Finished);
}

#[test]
fn apply_of_new_file_is_undone_and_blank_domain_refused() {
    let site = stored(1, "app", None);
    let (mut f, _) = SiteFiles::start_apply(&site, None);
    f.on_snapshot(None, false);
    f.on_written(Ok(()));
    f.on_link_set(Ok(()));
    assert!(matches!(f.on_tested(Ok(())), FileAction::Reload));
    assert!(matches!(f.on_reloaded(Err("e".to_string())), FileAction::DropConfig));
    let mut blank = stored(1, "app", None);
    blank.domain = "  ".to_string();
    match SiteFiles::start_apply(&blank, None).1 {
        FileAction::Done(r) => assert_eq!(r, Err("域名不能为空".to_string())),
        _ => panic!(),
    }
    let mut bad = stored(1, "app", None);
    bad.upstream = None;
    let (mut f, _) = SiteFiles::start_apply(&bad, None);
    match f.on_snapshot(None, true) {
        FileAction::Done(r) => assert_eq!(r, Err("反向代理站点缺少 upstream".to_string())),
        _ => panic!(),
    }
}

#[test]
fn removal_puts_back_link_when_reload_fails() {
    let (mut f, _) = SiteFiles::start_remove();
    assert!(matches!(f.on_snapshot(None, true), FileAction::RemoveLink));
    assert!(matches!(f.on_link_removed(Ok(())), FileAction::RemoveConfig));
    assert!(matches!(f.on_config_removed(Ok(())), FileAction::TestConfig));
    assert!(matches!(f.on_tested(Ok(())), FileAction::Reload));
    match f.on_reloaded(Err("bad".to_string())) {
        FileAction::RestoreLink(on) => assert!(on),
        _ => panic!(),
    }
    let (mut f, _) = SiteFiles::start_remove();
    f.on_snapshot(None, false);
    match f.on_link_removed(Err("删除已启用链接失败".to_string())) {
        FileAction::Done(r) => assert_eq!(r, Err("删除已启用链接失败".to_string())),
        _ => panic!(),
    }
    let (mut f, _) = SiteFiles::start_remove();
    f.on_snapshot(None, false);
    f.on_link_removed(Ok(()));
    f.on_config_removed(Ok(()));
    f.on_tested(Ok(()));
    assert!(matches!(f.on_reloaded(Ok(())), FileAction::Done(Ok(()))));
}

#[test]
fn update_site_checks_and_writes_the_submitted_form() {
    let (mut s, _) = SiteSave::start_update(4, form("php", Some("http://a"), None));
    match s.on_existing(Ok(stored(4, "app", None))) {
        SiteSaveAction::Respond(r) => assert_eq!(r, status(400, "站点类型必须是“反向代理”或“静态站点”")),
        _ => panic!(),
    }
    let mut f = form(" static ", None, Some(" /srv/www "));
    f.name = "blog".to_string();
    f.domain = "blog.example.com".to_string();
    f.port = 8080;
    let (mut s, _) = SiteSave::start_update(4, f.clone());
    match s.on_existing(Ok(stored(4, "app", None))) {
        SiteSaveAction::FindDomainUser { domain, exclude } => {
            assert_eq!(domain, "blog.example.com");
            assert_eq!(exclude, Some(4));
        }
        _ => panic!(),
    }
    match s.on_domain_checked(Ok(None)) {
        SiteSaveAction::FindPortUser { port, exclude } => {
            assert_eq!(port, 8080);
            assert_eq!(exclude, Some(4));
        }
        _ => panic!(),
    }
    match s.on_port_checked(Ok(None)) {
        SiteSaveAction::Update(id, input) => {
            assert_eq!(id, 4);
            assert_eq!(input.name, "blog");
            assert_eq!(input.domain, "blog.example.com");
            assert_eq!(input.site_type, "static");
            assert_eq!(input.upstream, None);
            assert_eq!(input.root_dir, Some("/srv/www".to_string()));
            assert_eq!(input.port, 8080);
        }
        _ => panic!(),
    }
    let (mut s, _) = SiteSave::start_update(4, f);
    s.on_existing(Ok(stored(4, "app", None)));
    s.on_domain_checked(Ok(None));
    match s.on_port_checked(Ok(Some((6, "web".to_string(), "web.example.com".to_string())))) {
        SiteSaveAction::Respond(r) => assert_eq!(r, status(400, "端口 8080 已被站点 #6（web, web.example.com）使用")),
        _ => panic!(),
    }
}

#[test]
fn create_site_inserts_the_checked_values() {
    let mut f = form("static", Some("http://unused"), Some("/var/www/app"));
    f.port = 8443;
    let (mut s, _) = SiteSave::start_create(f);
    s.on_domain_checked(Ok(None));
    match s.on_port_checked(Ok(None)) {
        SiteSaveAction::Insert(input) => {
            assert_eq!(input.name, "app");
            assert_eq!(input.domain, "app.example.com");
            assert_eq!(input.site_type, "static");
            assert_eq!(input.upstream, Some("http://unused".to_string()));
            assert_eq!(input.root_dir, Some("/var/www/app".to_string()));
            assert_eq!(input.port, 8443);
        }
        _ => panic!(),
    }
    match s.on_written(Ok(())) {
        SiteSaveAction::LoadByName(n) => assert_eq!(n, "app"),
        _ => panic!(),
    }
}
