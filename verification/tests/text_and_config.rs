use nginx_manager::config::{initial_admin, needs_initial_admin, AppConfig};
use nginx_manager::site_config::{check_site_domain, render_site_config, SiteConfigError};
use nginx_manager::models::{Certificate, Site};
use nginx_manager::text::{i64_to_string, str_eq, strip_prefix, trim_str, utf8_lossy};

fn site(site_type: &str, upstream: Option<&str>, root: Option<&str>) -> Site {
    Site {
        id: 3,
        name: "blog".to_string(),
        domain: "blog.example.com".to_string(),
        site_type: site_type.to_string(),
        upstream: upstream.map(|s| s.to_string()),
        root_dir: root.map(|s| s.to_string()),
        port: 8080,
        enabled: 1,
        cert_id: None,
        created_at: "2024-01-01T00:00:00+00:00".to_string(),
    }
}

fn cert() -> Certificate {
    Certificate {
        id: 7,
        name: "blog-cert".to_string(),
        domain: "blog.example.com".to_string(),
        cert_path: "/etc/nginx-manager/certs/blog.crt".to_string(),
        key_path: "/etc/nginx-manager/certs/blog.key".to_string(),
        issuer: "uploaded".to_string(),
        expires_at: None,
        auto_managed: 0,
        created_at: "2024-01-01T00:00:00+00:00".to_string(),
    }
}

#[test]
fn trim_removes_ascii_and_unicode_whitespace() {
    assert_eq!(trim_str("  a b \t\n"), "a b");
    assert_eq!(trim_str("\u{3000}x\u{a0}"), "x");
    assert_eq!(trim_str(" \t "), "");
    assert_eq!(trim_str(""), "");
    assert_eq!(trim_str("x"), "x");
}

#[test]
fn trim_agrees_with_std() {
    for s in ["  a ", "\u{2003}b\u{2028}", "\u{85}c", "d\u{200b}", "  ", "中 文 "] {
        assert_eq!(trim_str(s), s.trim());
    }
}

#[test]
fn decimal_notation() {
    assert_eq!(i64_to_string(0), "0");
    assert_eq!(i64_to_string(-5), "-5");
    assert_eq!(i64_to_string(1234567890), "1234567890");
    assert_eq!(i64_to_string(i64::MIN), i64::MIN.to_string());
    assert_eq!(i64_to_string(i64::MAX), i64::MAX.to_string());
}

#[test]
fn prefix_and_equality() {
    assert_eq!(strip_prefix("notAfter=Jan", "notAfter="), Some("Jan".to_string()));
    assert_eq!(strip_prefix("notBefore=Jan", "notAfter="), None);
    assert_eq!(strip_prefix("not", "notAfter="), None);
    assert!(str_eq("proxy", "proxy"));
    assert!(!str_eq("proxy", "proxy "));
}

#[test]
fn lossy_decoding() {
    assert_eq!(utf8_lossy("ok 你好".as_bytes()), "ok 你好");
    assert_eq!(utf8_lossy(&[b'a', 0xff, b'b']), "a\u{fffd}b");
}

#[test]
fn config_defaults_and_overrides() {
    let c = AppConfig::from_values(None, None, None, None, None, None, None, None);
    assert_eq!(c.bind_addr, "0.0.0.0:8080");
    assert_eq!(c.database_url, "sqlite:///var/lib/nginx-manager/manager.db");
    assert_eq!(c.nginx_bin, "nginx");
    assert_eq!(c.systemctl_bin, "systemctl");
    assert_eq!(c.certbot_bin, "certbot");
    assert_eq!(c.nginx_sites_available, "/etc/nginx/sites-available");
    assert_eq!(c.nginx_sites_enabled, "/etc/nginx/sites-enabled");
    assert_eq!(c.managed_cert_dir, "/etc/nginx-manager/certs");
    let c = AppConfig::from_values(Some("127.0.0.1:9000".to_string()), None, Some("/usr/sbin/nginx".to_string()), None, None, None, None, Some("/tmp/certs".to_string()));
    assert_eq!(c.bind_addr, "127.0.0.1:9000");
    assert_eq!(c.nginx_bin, "/usr/sbin/nginx");
    assert_eq!(c.managed_cert_dir, "/tmp/certs");
    assert!(needs_initial_admin(0));
    assert!(!needs_initial_admin(1));
    assert_eq!(initial_admin(None, None), ("admin".to_string(), "admin123!".to_string()));
    assert_eq!(initial_admin(Some("root".to_string()), Some("pw".to_string())), ("root".to_string(), "pw".to_string()));
}

#[test]
fn render_proxy_site() {
    let out = render_site_config(&site("proxy", Some("http://127.0.0.1:3000"), None), None).unwrap();
    assert_eq!(
        out,
        "server {\n    listen 8080;\n    server_name blog.example.com;\n    location / {\n        proxy_set_header Host $host;\n        proxy_set_header X-Real-IP $remote_addr;\n        proxy_set_header X-Forwarded-For $proxy_add_x_forwarded_for;\n        proxy_set_header X-Forwarded-Proto $scheme;\n        proxy_pass http://127.0.0.1:3000;\n    }\n}\n"
    );
}

#[test]
fn render_static_site_with_certificate() {
    let c = cert();
    let out = render_site_config(&site("static", None, Some("/var/www/html")), Some(&c)).unwrap();
    assert_eq!(
        out,
        "server {\n    listen 8080;\n    server_name blog.example.com;\n    root /var/www/html;\n    index index.html index.htm;\n    listen 443 ssl;\n    ssl_certificate /etc/nginx-manager/certs/blog.crt;\n    ssl_certificate_key /etc/nginx-manager/certs/blog.key;\n}\n"
    );
}

#[test]
fn render_refusals() {
    assert_eq!(render_site_config(&site("proxy", None, Some("/x")), None), Err(SiteConfigError::MissingUpstream));
    assert_eq!(render_site_config(&site("static", Some("http://a"), None), None), Err(SiteConfigError::MissingRootDir));
    assert_eq!(render_site_config(&site("php", Some("http://a"), Some("/x")), None), Err(SiteConfigError::InvalidSiteType));
    assert_eq!(render_site_config(&site(" proxy", Some("http://a"), None), None), Err(SiteConfigError::InvalidSiteType));
    assert_eq!(SiteConfigError::MissingUpstream.message(), "反向代理站点缺少 upstream");
    assert_eq!(SiteConfigError::MissingRootDir.message(), "静态站点缺少 root_dir");
    assert_eq!(SiteConfigError::InvalidSiteType.message(), "无效的站点类型");
    assert_eq!(SiteConfigError::EmptyDomain.message(), "域名不能为空");
}

#[test]
fn blank_domain_is_refused() {
    let mut s = site("proxy", Some("http://a"), None);
    assert_eq!(check_site_domain(&s), Ok(()));
    s.domain = " \t".to_string();
    assert_eq!(check_site_domain(&s), Err(SiteConfigError::EmptyDomain));
}
