//! The records that the console keeps and the forms that it receives.

use vstd::prelude::*;

verus! {

/// A managed site, as stored in the `sites` table.
#[derive(Debug, Clone)]
pub struct Site {
    pub id: i64,
    pub name: String,
    pub domain: String,
    pub site_type: String,
    pub upstream: Option<String>,
    pub root_dir: Option<String>,
    pub port: i64,
    pub enabled: i64,
    pub cert_id: Option<i64>,
    pub created_at: String,
}

/// A certificate record, as stored in the `certificates` table.
#[derive(Debug, Clone)]
pub struct Certificate {
    pub id: i64,
    pub name: String,
    pub domain: String,
    pub cert_path: String,
    pub key_path: String,
    pub issuer: String,
    pub expires_at: Option<String>,
    pub auto_managed: i64,
    pub created_at: String,
}

/// The login form.
#[derive(Debug, Clone)]
pub struct LoginForm {
    pub username: String,
    pub password: String,
}

/// The form that creates or updates a site.
#[derive(Debug, Clone)]
pub struct CreateSiteForm {
    pub name: String,
    pub domain: String,
    pub site_type: String,
    pub upstream: Option<String>,
    pub root_dir: Option<String>,
    pub port: u16,
}

/// The form that enables or disables a site.
#[derive(Debug, Clone)]
pub struct ToggleSiteForm {
    pub enabled: bool,
}

/// The form that binds a certificate to a site.
#[derive(Debug, Clone)]
pub struct BindCertForm {
    pub cert_id: i64,
}

/// The form that requests a Let's Encrypt certificate.
#[derive(Debug, Clone)]
pub struct RequestCertForm {
    pub name: String,
    pub domain: String,
    pub email: String,
}

/// The form that runs a service action.
#[derive(Debug, Clone)]
pub struct ServiceControlForm {
    pub action: String,
}

/// The form that changes the administrator's password.
#[derive(Debug, Clone)]
pub struct ChangePasswordForm {
    pub current_password: String,
    pub new_password: String,
}

} // verus!
