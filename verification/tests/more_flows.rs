use nginx_manager::account::{PasswordAction, PasswordFlow, PasswordStage};
use nginx_manager::cert_flows::{CertAction, CertFlow, CertStage, ExpiryRefresh, RefreshAction};
use nginx_manager::models::{BindCertForm, Certificate, ChangePasswordForm, RequestCertForm, Site, ToggleSiteForm};
use nginx_manager::passwords::{hash_password, verify_password};
use nginx_manager::reply::Reply;
use nginx_manager::site_ops::{BindFlow, DeleteFlow, SiteOpAction, SiteOpStage, ToggleFlow};
use nginx_manager::upload::{CertUpload, UploadPart};

fn site(id: i64, cert_id: Option<i64>) -> Site {
    Site {
        id,
        name: "web".to_string(),
        domain: "web.example.com".to_string(),
        site_type: "proxy".to_string(),
        upstream: Some("http://127.0.0.1:8000".to_string()),
        root_dir: None,
        port: 80,
        enabled: 1,
        cert_id,
        created_at: "t".to_string(),
    }
}

fn cert(id: i64, path: &str, domain: &str) -> Certificate {
    Certificate {
        id,
        name: format!("c{id}"),
        domain: domain.to_string(),
        cert_path: path.to_string(),
        key_path: "/k".to_string(),
        issuer: "uploaded".to_string(),
        expires_at: None,
        auto_managed: 0,
        created_at: "t".to_string(),
    }
}

fn status(code: u16, msg: &str) -> Reply {
    Reply::Status(code, msg.to_string())
}

#[test]
fn toggle_flow() {
    let (mut f, a) = ToggleFlow::start(4, &ToggleSiteForm { enabled: false });
    assert!(matches!(a, SiteOpAction::SetEnabled { id: 4, enabled: 0 }));
    assert!(matches!(f.on_written(Ok(())), SiteOpAction::LoadSite(4)));
    assert!(matches!(f.on_site(Ok(site(4, Some(2)))), SiteOpAction::LoadCert(2)));
    match f.on_cert(Ok(Some(cert(2, "/c", "d")))) {
        SiteOpAction::Apply(s, c) => {
            assert_eq!(s.id, 4);
            assert_eq!(c.unwrap().id, 2);
        }
        _ => panic!(),
    }
    match f.on_applied(Err("重载失败：x".to_string())) {
        SiteOpAction::Respond(r) => assert_eq!(r, status(400, "切换启停后应用配置失败：重载失败：x")),
        _ => panic!(),
    }
    assert_eq!(f.current_stage(), SiteOpStage::Finished);
    let (mut f, a) = ToggleFlow::start(4, &ToggleSiteForm { enabled: true });
    assert!(matches!(a, SiteOpAction::SetEnabled { id: 4, enabled: 1 }));
    match f.on_written(Err("locked".to_string())) {
        SiteOpAction::Respond(r) => assert_eq!(r, status(400, "更新启用状态失败：locked")),
        _ => panic!(),
    }
    let (mut f, _) = ToggleFlow::start(4, &ToggleSiteForm { enabled: true });
    f.on_written(Ok(()));
    match f.on_site(Err("x".to_string())) {
        SiteOpAction::Respond(r) => assert_eq!(r, status(500, "站点不存在")),
        _ => panic!(),
    }
    let (mut f, _) = ToggleFlow::start(4, &ToggleSiteForm { enabled: true });
    f.on_written(Ok(()));
    assert!(matches!(f.on_site(Ok(site(4, None))), SiteOpAction::Apply(_, None)));
    match f.on_applied(Ok(())) {
        SiteOpAction::Respond(r) => assert_eq!(r, Reply::Redirect("/sites".to_string())),
        _ => panic!(),
    }
}

#[test]
fn bind_flow() {
    let (mut f, a) = BindFlow::start(6, &BindCertForm { cert_id: 3 });
    assert!(matches!(a, SiteOpAction::LoadCert(3)));
    assert!(matches!(f.on_cert(Ok(cert(3, "/c3", "d"))), SiteOpAction::SetCert { site_id: 6, cert_id: 3 }));
    assert!(matches!(f.on_written(Ok(())), SiteOpAction::LoadSite(6)));
    match f.on_site(Ok(site(6, None))) {
        SiteOpAction::Apply(s, c) => {
            assert_eq!(s.id, 6);
            assert_eq!(c.unwrap().cert_path, "/c3");
        }
        _ => panic!(),
    }
    match f.on_applied(Err("e".to_string())) {
        SiteOpAction::Respond(r) => assert_eq!(r, status(400, "绑定后应用配置失败：e")),
        _ => panic!(),
    }
    let (mut f, _) = BindFlow::start(6, &BindCertForm { cert_id: 3 });
    match f.on_cert(Err("no rows".to_string())) {
        SiteOpAction::Respond(r) => assert_eq!(r, status(400, "证书不存在")),
        _ => panic!(),
    }
    let (mut f, _) = BindFlow::start(6, &BindCertForm { cert_id: 3 });
    f.on_cert(Ok(cert(3, "/c3", "d")));
    match f.on_written(Err("fk".to_string())) {
        SiteOpAction::Respond(r) => assert_eq!(r, status(400, "绑定证书失败：fk")),
        _ => panic!(),
    }
    let (mut f, _) = BindFlow::start(6, &BindCertForm { cert_id: 3 });
    f.on_cert(Ok(cert(3, "/c3", "d")));
    f.on_written(Ok(()));
    match f.on_site(Err("gone".to_string())) {
        SiteOpAction::Respond(r) => assert_eq!(r, status(400, "站点不存在")),
        _ => panic!(),
    }
}

#[test]
fn delete_flow() {
    let (mut f, a) = DeleteFlow::start(8);
    assert!(matches!(a, SiteOpAction::LoadSite(8)));
    match f.on_site(Ok(site(8, None))) {
        SiteOpAction::RemoveConfig(n) => assert_eq!(n, "web"),
        _ => panic!(),
    }
    assert!(matches!(f.on_config_removed(Ok(())), SiteOpAction::DeleteRow(8)));
    match f.on_row_deleted(Ok(())) {
        SiteOpAction::Audit(e) => {
            assert_eq!(e.actor, "admin");
            assert_eq!(e.action, "删除站点");
            assert_eq!(e.detail, "site_id=8 name=web domain=web.example.com");
        }
        _ => panic!(),
    }
    match f.on_audited() {
        SiteOpAction::Respond(r) => assert_eq!(r, Reply::Redirect("/sites".to_string())),
        _ => panic!(),
    }
    let (mut f, _) = DeleteFlow::start(8);
    match f.on_site(Err("no".to_string())) {
        SiteOpAction::Respond(r) => assert_eq!(r, status(404, "站点不存在")),
        _ => panic!(),
    }
    let (mut f, _) = DeleteFlow::start(8);
    f.on_site(Ok(site(8, None)));
    match f.on_config_removed(Err("nginx -t 校验失败：x".to_string())) {
        SiteOpAction::Respond(r) => assert_eq!(r, status(400, "删除后应用配置失败：nginx -t 校验失败：x")),
        _ => panic!(),
    }
    let (mut f, _) = DeleteFlow::start(8);
    f.on_site(Ok(site(8, None)));
    f.on_config_removed(Ok(()));
    match f.on_row_deleted(Err("busy".to_string())) {
        SiteOpAction::Respond(r) => assert_eq!(r, status(400, "删除数据库记录失败：busy")),
        _ => panic!(),
    }
}

#[test]
fn request_cert_flow() {
    let form = RequestCertForm { name: "le".to_string(), domain: "a.example.com".to_string(), email: "ops@a.example.com".to_string() };
    let (mut f, a) = CertFlow::start_request(form);
    match a {
        CertAction::RunCertbot { domain, email } => {
            assert_eq!(domain, "a.example.com");
            assert_eq!(email, "ops@a.example.com");
        }
        _ => panic!(),
    }
    match f.on_certbot(Ok(())) {
        CertAction::Insert { name, domain, cert_path, key_path, letsencrypt } => {
            assert_eq!(name, "le");
            assert_eq!(domain, "a.example.com");
            assert_eq!(cert_path, "/etc/letsencrypt/live/a.example.com/fullchain.pem");
            assert_eq!(key_path, "/etc/letsencrypt/live/a.example.com/privkey.pem");
            assert!(letsencrypt);
        }
        _ => panic!(),
    }
    match f.on_inserted(Ok(())) {
        CertAction::Audit(e) => {
            assert_eq!(e.action, "申请证书");
            assert_eq!(e.detail, "name=le domain=a.example.com");
        }
        _ => panic!(),
    }
    match f.on_audited() {
        CertAction::Respond(r) => assert_eq!(r, Reply::Redirect("/certs".to_string())),
        _ => panic!(),
    }
    let form = RequestCertForm { name: "le".to_string(), domain: "a".to_string(), email: "e".to_string() };
    let (mut f, _) = CertFlow::start_request(form);
    match f.on_certbot(Err("certbot 执行失败：rate".to_string())) {
        CertAction::Respond(r) => assert_eq!(r, status(400, "证书申请失败：certbot 执行失败：rate")),
        _ => panic!(),
    }
    assert_eq!(f.current_stage(), CertStage::Finished);
}

#[test]
fn upload_cert_flow() {
    let mut u = CertUpload::new();
    u.accept(UploadPart::Name("up".to_string()));
    u.accept(UploadPart::Domain("b.example.com".to_string()));
    u.accept(UploadPart::CertFile(Some(b"C".to_vec())));
    u.accept(UploadPart::KeyFile(Some(b"K".to_vec())));
    let (mut f, a) = CertFlow::start_upload(u, "/certs");
    match a {
        CertAction::CreateDir(d) => assert_eq!(d, "/certs"),
        _ => panic!(),
    }
    match f.on_dir(Ok(())) {
        CertAction::WriteFiles { cert_path, cert_bytes, key_path, key_bytes } => {
            assert_eq!(cert_path, "/certs/up.crt");
            assert_eq!(key_path, "/certs/up.key");
            assert_eq!(cert_bytes, b"C".to_vec());
            assert_eq!(key_bytes, b"K".to_vec());
        }
        _ => panic!(),
    }
    match f.on_files(Ok(())) {
        CertAction::Insert { letsencrypt, cert_path, .. } => {
            assert!(!letsencrypt);
            assert_eq!(cert_path, "/certs/up.crt");
        }
        _ => panic!(),
    }
    match f.on_inserted(Err("UNIQUE".to_string())) {
        CertAction::Respond(r) => assert_eq!(r, status(400, "保存证书记录失败：UNIQUE")),
        _ => panic!(),
    }
    let (_, a) = CertFlow::start_upload(CertUpload::new(), "/certs");
    match a {
        CertAction::Respond(r) => assert_eq!(r, status(400, "缺少必填字段")),
        _ => panic!(),
    }
    let mut u = CertUpload::new();
    u.accept(UploadPart::Name("up".to_string()));
    u.accept(UploadPart::Domain("b".to_string()));
    u.accept(UploadPart::CertFile(Some(vec![])));
    u.accept(UploadPart::KeyFile(Some(vec![])));
    let (mut f, _) = CertFlow::start_upload(u, "/certs");
    match f.on_dir(Err("permission denied".to_string())) {
        CertAction::Respond(r) => assert_eq!(r, status(500, "创建证书目录失败：permission denied")),
        _ => panic!(),
    }
}

#[test]
fn expiry_refresh_flow() {
    let certs = vec![cert(1, "/a.pem", "a.com"), cert(2, "/b.pem", "b.com"), cert(3, "/c.pem", "c.com")];
    let (mut r, a) = ExpiryRefresh::start(certs, 30);
    match a {
        RefreshAction::ReadExpiry(p) => assert_eq!(p, "/a.pem"),
        _ => panic!(),
    }
    match r.on_expiry(Ok(Some(("2030-01-01T00:00:00+00:00".to_string(), 12)))) {
        RefreshAction::StoreExpiry(id, at) => {
            assert_eq!(id, 1);
            assert_eq!(at, "2030-01-01T00:00:00+00:00");
        }
        _ => panic!(),
    }
    match r.on_stored() {
        RefreshAction::ReadExpiry(p) => assert_eq!(p, "/b.pem"),
        _ => panic!(),
    }
    match r.on_expiry(Ok(None)) {
        RefreshAction::ReadExpiry(p) => assert_eq!(p, "/c.pem"),
        _ => panic!(),
    }
    assert!(matches!(r.on_expiry(Ok(Some(("x".to_string(), 3)))), RefreshAction::StoreExpiry(3, _)));
    match r.on_stored() {
        RefreshAction::Done(Ok(rs)) => {
            let got: Vec<(String, i64)> = rs.iter().map(|x| (x.domain.clone(), x.days_left)).collect();
            assert_eq!(got, vec![("c.com".to_string(), 3), ("a.com".to_string(), 12)]);
        }
        _ => panic!(),
    }
    let (mut r, _) = ExpiryRefresh::start(vec![cert(1, "/a.pem", "a.com")], 30);
    match r.on_expiry(Err("执行 openssl 读取证书到期时间失败".to_string())) {
        RefreshAction::Done(Err(e)) => assert_eq!(e, "执行 openssl 读取证书到期时间失败"),
        _ => panic!(),
    }
    let (_, a) = ExpiryRefresh::start(vec![], 30);
    assert!(matches!(a, RefreshAction::Done(Ok(ref v)) if v.is_empty()));
}

#[test]
fn expiry_refresh_goes_on_after_an_unreadable_certificate() {
    let certs = vec![cert(1, "/a.pem", "a.com"), cert(2, "/b.pem", "b.com")];
    let (mut r, _) = ExpiryRefresh::start(certs, 30);
    assert!(matches!(r.on_expiry(Ok(Some(("t".to_string(), 40)))), RefreshAction::StoreExpiry(1, _)));
    assert!(matches!(r.on_stored(), RefreshAction::ReadExpiry(_)));
    match r.on_expiry(Ok(None)) {
        RefreshAction::Done(Ok(rs)) => assert!(rs.is_empty()),
        _ => panic!(),
    }
    let certs = vec![cert(1, "/a.pem", "a.com"), cert(2, "/b.pem", "b.com")];
    let (mut r, _) = ExpiryRefresh::start(certs, 30);
    assert!(matches!(r.on_expiry(Ok(Some(("t".to_string(), 5)))), RefreshAction::StoreExpiry(1, _)));
    r.on_stored();
    match r.on_expiry(Ok(None)) {
        RefreshAction::Done(Ok(rs)) => {
            assert_eq!(rs.len(), 1);
            assert_eq!(rs[0].domain, "a.com");
            assert_eq!(rs[0].days_left, 5);
        }
        _ => panic!(),
    }
}

#[test]
fn password_flow() {
    let hash = hash_password("old-password").unwrap();
    let form = ChangePasswordForm { current_password: "old-password".to_string(), new_password: "brand-new-pw".to_string() };
    let (mut f, a) = PasswordFlow::start(1, form);
    assert!(matches!(a, PasswordAction::LoadUser(1)));
    let stored = match f.on_user(Ok(("admin".to_string(), hash.clone()))) {
        PasswordAction::StoreHash(id, h) => {
            assert_eq!(id, 1);
            h
        }
        _ => panic!(),
    };
    assert!(verify_password("brand-new-pw", &stored));
    match f.on_stored(Ok(())) {
        PasswordAction::Audit(e) => {
            assert_eq!(e.actor, "admin");
            assert_eq!(e.action, "修改密码");
        }
        _ => panic!(),
    }
    match f.on_audited() {
        PasswordAction::Respond(Reply::Page(p)) => assert!(p.contains("密码修改成功")),
        _ => panic!(),
    }
    assert_eq!(f.current_stage(), PasswordStage::Finished);
    let short = ChangePasswordForm { current_password: "x".to_string(), new_password: "short".to_string() };
    match PasswordFlow::start(1, short).1 {
        PasswordAction::Respond(r) => assert_eq!(r, status(400, "新密码长度至少 8 位")),
        _ => panic!(),
    }
    let form = ChangePasswordForm { current_password: "wrong".to_string(), new_password: "brand-new-pw".to_string() };
    let (mut f, _) = PasswordFlow::start(1, form);
    match f.on_user(Ok(("admin".to_string(), hash))) {
        PasswordAction::Respond(r) => assert_eq!(r, status(400, "当前密码不正确")),
        _ => panic!(),
    }
    let form = ChangePasswordForm { current_password: "old-password".to_string(), new_password: "brand-new-pw".to_string() };
    let (mut f, _) = PasswordFlow::start(1, form);
    f.on_user(Err("db".to_string()));
    assert_eq!(f.current_stage(), PasswordStage::Finished);
}

#[test]
fn upload_is_audited_as_an_upload() {
    let mut u = CertUpload::new();
    u.accept(UploadPart::Name("up".to_string()));
    u.accept(UploadPart::Domain("b.example.com".to_string()));
    u.accept(UploadPart::CertFile(Some(b"C".to_vec())));
    u.accept(UploadPart::KeyFile(Some(b"K".to_vec())));
    let (mut f, _) = CertFlow::start_upload(u, "/certs");
    f.on_dir(Ok(()));
    f.on_files(Ok(()));
    match f.on_inserted(Ok(())) {
        CertAction::Audit(entry) => {
            assert_eq!(entry.actor, "admin");
            assert_eq!(entry.action, "上传证书");
            assert_eq!(entry.detail, "name=up domain=b.example.com");
        }
        _ => panic!(),
    }
    match f.on_audited() {
        CertAction::Respond(r) => assert_eq!(r, Reply::Redirect("/certs".to_string())),
        _ => panic!(),
    }
}
