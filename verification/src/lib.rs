//! Verified core of a small web console that manages Nginx sites,
//! TLS certificates and the Nginx service on a Linux host.

pub mod text;
pub mod models;
pub mod site_config;
pub mod site_form;
pub mod expiry;
pub mod reminders;
pub mod sessions;
pub mod reply;
pub mod passwords;
pub mod auth;
pub mod ops;
pub mod config;
pub mod pages;
pub mod site_save;
pub mod upload;
pub mod site_apply;
pub mod steps;
pub mod site_ops;
pub mod cert_flows;
pub mod account;
