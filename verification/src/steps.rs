//! The decisions between the steps of each request: what a failed step is
//! answered with, and what a finished one leads to.

use vstd::prelude::*;

use crate::models::{Certificate, Site};
use crate::pages::{layout_text, nav_html, password_changed_page, service_result_page};
use crate::passwords::{hash_password, max_password_bytes, spec_password_matches, verify_password};
use vstd::utf8::encode_utf8;
use crate::reminders::CertReminder;
use crate::reply::{fail_with, failure_reply, status, Reply, ReplyView};
use crate::text::{dec_int, push_dec_i64};
use crate::upload::upload_audit_detail;

verus! {

fn keep_or_fixed<T>(r: Result<T, String>, code: u16, msg: &str) -> (out: Result<T, Reply>)
    ensures
        match r {
            Ok(v) => out == Ok::<T, Reply>(v),
            Err(_) => out matches Err(reply) && reply@ == ReplyView::Status(code, msg@),
        },
{
    match r {
        Ok(v) => Ok(v),
        Err(_) => Err(status(code, msg)),
    }
}

/// A site that was looked up by id; a missing one is `404`.
pub fn site_found(r: Result<Site, String>) -> (out: Result<Site, Reply>)
    ensures
        match r {
            Ok(v) => out == Ok::<Site, Reply>(v),
            Err(_) => out matches Err(reply) && reply@ == ReplyView::Status(404, "站点不存在"@),
        },
{
    keep_or_fixed(r, 404, "站点不存在")
}

/// The number of sites was counted (or the query failed).
pub fn site_count_loaded(r: Result<i64, String>) -> (out: Result<i64, Reply>)
    ensures
        match r {
            Ok(v) => out == Ok::<i64, Reply>(v),
            Err(_) => out matches Err(reply) && reply@ == ReplyView::Status(500, "查询失败"@),
        },
{
    keep_or_fixed(r, 500, "查询失败")
}

/// The number of certificates was counted (or the query failed).
pub fn cert_count_loaded(r: Result<i64, String>) -> (out: Result<i64, Reply>)
    ensures
        match r {
            Ok(v) => out == Ok::<i64, Reply>(v),
            Err(_) => out matches Err(reply) && reply@ == ReplyView::Status(500, "查询失败"@),
        },
{
    keep_or_fixed(r, 500, "查询失败")
}

/// The sites were read (or the query failed).
pub fn sites_loaded(r: Result<Vec<Site>, String>) -> (out: Result<Vec<Site>, Reply>)
    ensures
        match r {
            Ok(v) => out == Ok::<Vec<Site>, Reply>(v),
            Err(_) => out matches Err(reply) && reply@ == ReplyView::Status(500, "查询站点失败"@),
        },
{
    keep_or_fixed(r, 500, "查询站点失败")
}

/// The certificates were read (or the query failed).
pub fn certs_loaded(r: Result<Vec<Certificate>, String>) -> (out: Result<Vec<Certificate>, Reply>)
    ensures
        match r {
            Ok(v) => out == Ok::<Vec<Certificate>, Reply>(v),
            Err(_) => out matches Err(reply) && reply@ == ReplyView::Status(500, "查询证书失败"@),
        },
{
    keep_or_fixed(r, 500, "查询证书失败")
}

/// The audit entries were read (or the query failed).
pub fn logs_loaded(r: Result<Vec<crate::pages::AuditLog>, String>) -> (out: Result<Vec<crate::pages::AuditLog>, Reply>)
    ensures
        match r {
            Ok(v) => out == Ok::<Vec<crate::pages::AuditLog>, Reply>(v),
            Err(_) => out matches Err(reply) && reply@ == ReplyView::Status(500, "查询日志失败"@),
        },
{
    keep_or_fixed(r, 500, "查询日志失败")
}

/// The audit detail of a deleted site.
pub fn deleted_detail(id: i64, name: &str, domain: &str) -> (r: String)
    ensures
        r@ == "site_id="@ + dec_int(id as int) + " name="@ + name@ + " domain="@ + domain@,
{
    let mut s = String::from_str("site_id=");
    push_dec_i64(&mut s, id);
    s.append(" name=");
    s.append(name);
    s.append(" domain=");
    s.append(domain);
    assert(s@ =~= "site_id="@ + dec_int(id as int) + " name="@ + name@ + " domain="@ + domain@);
    s
}

/// The answer to a service command: its output on a page, or `400` with
/// what went wrong.
pub fn service_reply(r: Result<String, String>) -> (out: Reply)
    ensures
        match r {
            Ok(text) => out@ == ReplyView::Page(
                layout_text("执行结果"@, nav_html() + "<pre>"@ + text@ + "</pre>"@),
            ),
            Err(e) => out@ == failure_reply(400, "命令执行失败："@, e@),
        },
{
    match r {
        Ok(text) => Reply::Page(service_result_page(text.as_str())),
        Err(e) => fail_with(400, "命令执行失败：", e.as_str()),
    }
}

/// The reminders for the dashboard; where reading them failed, none.
pub fn reminders_or_none(r: Result<Vec<CertReminder>, String>) -> (v: Vec<CertReminder>)
    ensures
        match r {
            Ok(rs) => v@ == rs@,
            Err(_) => v@.len() == 0,
        },
{
    match r {
        Ok(rs) => rs,
        Err(_) => Vec::new(),
    }
}

/// The answer to a multipart body that could not be read.
pub fn bad_upload_form() -> (r: Reply)
    ensures
        r@ == ReplyView::Status(400, "上传表单格式错误"@),
{
    status(400, "上传表单格式错误")
}

/// A new password must be at least 8 bytes long.
pub fn check_new_password(new_password: &str) -> (r: Result<(), Reply>)
    ensures
        match r {
            Ok(()) => new_password.len() >= 8,
            Err(reply) => new_password.len() < 8 && reply@ == ReplyView::Status(
                400,
                "新密码长度至少 8 位"@,
            ),
        },
{
    if new_password.len() < 8 {
        Err(status(400, "新密码长度至少 8 位"))
    } else {
        Ok(())
    }
}

/// What a password change needs before anything is stored: the new
/// password must be at least 8 bytes long, the user's record must be
/// readable, and the current password must match it. The new password is
/// then hashed, which succeeds unless it is longer than Argon2 accepts. On
/// success the user's name and the new hash come back.
pub fn prepare_password_change(
    current_password: &str,
    new_password: &str,
    user: Result<(String, String), String>,
) -> (r: Result<(String, String), Reply>)
    ensures
        match r {
            Ok((name, hash)) => {
                &&& new_password.len() >= 8
                &&& user matches Ok((n, h)) && n@ == name@ && spec_password_matches(
                    current_password@,
                    h@,
                )
                &&& spec_password_matches(new_password@, hash@)
            },
            Err(reply) => if new_password.len() < 8 {
                reply@ == ReplyView::Status(400, "新密码长度至少 8 位"@)
            } else {
                match user {
                    Err(_) => reply@ == ReplyView::Status(500, "查询当前用户失败"@),
                    Ok((n, h)) => if !spec_password_matches(current_password@, h@) {
                        reply@ == ReplyView::Status(400, "当前密码不正确"@)
                    } else {
                        reply@ == ReplyView::Status(500, "密码加密失败"@) && encode_utf8(
                            new_password@,
                        ).len() > max_password_bytes()
                    },
                }
            },
        },
{
    if new_password.len() < 8 {
        return Err(status(400, "新密码长度至少 8 位"));
    }
    let (name, current_hash) = match user {
        Ok(u) => u,
        Err(_) => {
            return Err(status(500, "查询当前用户失败"));
        },
    };
    if !verify_password(current_password, current_hash.as_str()) {
        return Err(status(400, "当前密码不正确"));
    }
    match hash_password(new_password) {
        Ok(h) => Ok((name, h)),
        Err(_) => Err(status(500, "密码加密失败")),
    }
}

/// The answer once a password change was stored.
pub fn password_changed() -> (r: Reply)
    ensures
        r@ == ReplyView::Page(
            layout_text("系统设置"@, nav_html() + "<p>密码修改成功，请妥善保管。</p>"@),
        ),
{
    Reply::Page(password_changed_page())
}

/// An entry for the audit log.
#[derive(Debug, Clone, PartialEq, Eq)]
pub struct AuditEntry {
    pub actor: String,
    pub action: String,
    pub detail: String,
}

fn entry(actor: &str, action: &str, detail: String) -> (e: AuditEntry)
    ensures
        e.actor@ == actor@,
        e.action@ == action@,
        e.detail == detail,
{
    AuditEntry { actor: String::from_str(actor), action: String::from_str(action), detail }
}

/// The audit entry of a login by `username`.
pub fn login_audit(username: &str) -> (e: AuditEntry)
    ensures
        e.actor@ == username@,
        e.action@ == "login"@,
        e.detail@ == "管理员登录"@,
{
    entry(username, "login", String::from_str("管理员登录"))
}

/// The audit entry of a deleted site.
pub fn deleted_audit(id: i64, name: &str, domain: &str) -> (e: AuditEntry)
    ensures
        e.actor@ == "admin"@,
        e.action@ == "删除站点"@,
        e.detail@ == "site_id="@ + dec_int(id as int) + " name="@ + name@ + " domain="@ + domain@,
{
    entry("admin", "删除站点", deleted_detail(id, name, domain))
}

/// The audit entry of an uploaded certificate.
pub fn uploaded_audit(name: &str, domain: &str) -> (e: AuditEntry)
    ensures
        e.actor@ == "admin"@,
        e.action@ == "上传证书"@,
        e.detail@ == "name="@ + name@ + " domain="@ + domain@,
{
    entry("admin", "上传证书", upload_audit_detail(name, domain))
}

/// The audit entry of a requested certificate.
pub fn requested_audit(name: &str, domain: &str) -> (e: AuditEntry)
    ensures
        e.actor@ == "admin"@,
        e.action@ == "申请证书"@,
        e.detail@ == "name="@ + name@ + " domain="@ + domain@,
{
    entry("admin", "申请证书", upload_audit_detail(name, domain))
}

/// The audit entry of a password change by `username`.
pub fn password_audit(username: &str) -> (e: AuditEntry)
    ensures
        e.actor@ == username@,
        e.action@ == "修改密码"@,
        e.detail@ == "管理员修改密码"@,
{
    entry(username, "修改密码", String::from_str("管理员修改密码"))
}

} // verus!
