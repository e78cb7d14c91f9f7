//! The console's settings: where it listens, which programs it runs and
//! which directories it writes.

use vstd::prelude::*;

verus! {

/// The console's settings.
#[derive(Debug, Clone)]
pub struct AppConfig {
    pub bind_addr: String,
    pub database_url: String,
    pub nginx_bin: String,
    pub systemctl_bin: String,
    pub certbot_bin: String,
    pub nginx_sites_available: String,
    pub nginx_sites_enabled: String,
    pub managed_cert_dir: String,
}

/// A setting's value: the one given, else the default.
pub open spec fn setting(given: Option<String>, default: Seq<char>) -> Seq<char> {
    match given {
        Some(v) => v@,
        None => default,
    }
}

fn or_default(given: Option<String>, default: &str) -> (r: String)
    ensures
        r@ == setting(given, default@),
{
    match given {
        Some(v) => v,
        None => String::from_str(default),
    }
}

impl AppConfig {
    /// The settings from the values given (from `NGINX_MANAGER_BIND`,
    /// `NGINX_MANAGER_DB`, `NGINX_BIN`, `SYSTEMCTL_BIN`, `CERTBOT_BIN`,
    /// `NGINX_SITES_AVAILABLE`, `NGINX_SITES_ENABLED` and
    /// `NGINX_MANAGER_CERT_DIR`), each absent one replaced by its default.
    pub fn from_values(
        bind_addr: Option<String>,
        database_url: Option<String>,
        nginx_bin: Option<String>,
        systemctl_bin: Option<String>,
        certbot_bin: Option<String>,
        nginx_sites_available: Option<String>,
        nginx_sites_enabled: Option<String>,
        managed_cert_dir: Option<String>,
    ) -> (c: AppConfig)
        ensures
            c.bind_addr@ == setting(bind_addr, "0.0.0.0:8080"@),
            c.database_url@ == setting(database_url, "sqlite:///var/lib/nginx-manager/manager.db"@),
            c.nginx_bin@ == setting(nginx_bin, "nginx"@),
            c.systemctl_bin@ == setting(systemctl_bin, "systemctl"@),
            c.certbot_bin@ == setting(certbot_bin, "certbot"@),
            c.nginx_sites_available@ == setting(nginx_sites_available, "/etc/nginx/sites-available"@),
            c.nginx_sites_enabled@ == setting(nginx_sites_enabled, "/etc/nginx/sites-enabled"@),
            c.managed_cert_dir@ == setting(managed_cert_dir, "/etc/nginx-manager/certs"@),
    {
        AppConfig {
            bind_addr: or_default(bind_addr, "0.0.0.0:8080"),
            database_url: or_default(database_url, "sqlite:///var/lib/nginx-manager/manager.db"),
            nginx_bin: or_default(nginx_bin, "nginx"),
            systemctl_bin: or_default(systemctl_bin, "systemctl"),
            certbot_bin: or_default(certbot_bin, "certbot"),
            nginx_sites_available: or_default(nginx_sites_available, "/etc/nginx/sites-available"),
            nginx_sites_enabled: or_default(nginx_sites_enabled, "/etc/nginx/sites-enabled"),
            managed_cert_dir: or_default(managed_cert_dir, "/etc/nginx-manager/certs"),
        }
    }
}

/// Whether the administrator account is to be created: only where the
/// user table is empty.
pub fn needs_initial_admin(user_count: i64) -> (r: bool)
    ensures
        r == (user_count == 0),
{
    user_count == 0
}

/// The administrator account created on first start: the name and the
/// password given (from `NGINX_MANAGER_ADMIN_USER` and
/// `NGINX_MANAGER_ADMIN_PASS`), else `admin` and `admin123!`.
pub fn initial_admin(username: Option<String>, password: Option<String>) -> (r: (String, String))
    ensures
        r.0@ == setting(username, "admin"@),
        r.1@ == setting(password, "admin123!"@),
{
    (or_default(username, "admin"), or_default(password, "admin123!"))
}

} // verus!
