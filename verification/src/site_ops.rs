//! Enabling or disabling a site, binding a certificate to it and deleting
//! it: each as a machine that is told what a step gave and answers with
//! the next step.

use vstd::prelude::*;

use crate::models::{BindCertForm, Certificate, Site, ToggleSiteForm};
use crate::reply::{fail_with, failure_reply, redirect, status, server_error, Reply, ReplyView};
use crate::steps::{deleted_audit, AuditEntry};
use crate::text::dec_int;

verus! {

/// The next step of a toggle, a binding or a deletion.
pub enum SiteOpAction {
    /// Store the enabled flag of the site.
    SetEnabled { id: i64, enabled: i64 },
    /// Store the certificate binding of the site.
    SetCert { site_id: i64, cert_id: i64 },
    /// Read the site with this id.
    LoadSite(i64),
    /// Read the certificate with this id.
    LoadCert(i64),
    /// Write and activate the site's Nginx configuration.
    Apply(Site, Option<Certificate>),
    /// Take the configuration of the site with this name out of Nginx.
    RemoveConfig(String),
    /// Delete the site's record.
    DeleteRow(i64),
    /// Record an audit entry.
    Audit(AuditEntry),
    /// Answer the request; the flow is over.
    Respond(Reply),
}

/// Where a flow stands.
#[derive(Debug, Clone, Copy, PartialEq, Eq)]
pub enum SiteOpStage {
    AwaitWrite,
    AwaitSite,
    AwaitCert,
    AwaitApply,
    AwaitRemoval,
    AwaitDelete,
    AwaitAudit,
    Finished,
}

/// Enabling or disabling a site.
pub struct ToggleFlow {
    id: i64,
    site: Option<Site>,
    stage: SiteOpStage,
}

impl ToggleFlow {
    /// The stage the flow is in.
    pub closed spec fn stage(&self) -> SiteOpStage {
        self.stage
    }

    /// The site being toggled.
    pub closed spec fn site_id(&self) -> i64 {
        self.id
    }

    /// The site read back, while its certificate is read.
    pub closed spec fn kept_site(&self) -> Option<Site> {
        self.site
    }

    /// What each stage needs to have been recorded.
    pub closed spec fn wf(&self) -> bool {
        self.stage == SiteOpStage::AwaitCert ==> self.site is Some
    }

    /// The stage the flow is in.
    pub fn current_stage(&self) -> (r: SiteOpStage)
        ensures
            r == self.stage(),
    {
        self.stage
    }

    /// Starts enabling or disabling the site `id`: the flag (1 or 0) is
    /// stored first.
    pub fn start(id: i64, form: &ToggleSiteForm) -> (r: (ToggleFlow, SiteOpAction))
        ensures
            r.0.wf(),
            r.0.site_id() == id,
            r.0.stage() == SiteOpStage::AwaitWrite,
            r.1 == (SiteOpAction::SetEnabled { id, enabled: if form.enabled { 1 } else { 0 } }),
    {
        let enabled: i64 = if form.enabled { 1 } else { 0 };
        (ToggleFlow { id, site: None, stage: SiteOpStage::AwaitWrite }, SiteOpAction::SetEnabled { id, enabled })
    }

    /// The flag was stored (or not).
    pub fn on_written(&mut self, r: Result<(), String>) -> (a: SiteOpAction)
        requires
            old(self).wf(),
            old(self).stage() == SiteOpStage::AwaitWrite,
        ensures
            final(self).wf(),
            final(self).site_id() == old(self).site_id(),
            match r {
                Err(e) => a matches SiteOpAction::Respond(reply) && reply@ == failure_reply(
                    400,
                    "更新启用状态失败："@,
                    e@,
                ) && final(self).stage() == SiteOpStage::Finished,
                Ok(()) => a == SiteOpAction::LoadSite(old(self).site_id()) && final(self).stage()
                    == SiteOpStage::AwaitSite,
            },
    {
        match r {
            Err(e) => {
                self.stage = SiteOpStage::Finished;
                SiteOpAction::Respond(fail_with(400, "更新启用状态失败：", e.as_str()))
            },
            Ok(()) => {
                self.stage = SiteOpStage::AwaitSite;
                SiteOpAction::LoadSite(self.id)
            },
        }
    }

    /// The site was read back (or not).
    pub fn on_site(&mut self, r: Result<Site, String>) -> (a: SiteOpAction)
        requires
            old(self).wf(),
            old(self).stage() == SiteOpStage::AwaitSite,
        ensures
            final(self).wf(),
            match r {
                Err(_) => a matches SiteOpAction::Respond(reply) && reply@ == ReplyView::Status(
                    500,
                    "站点不存在"@,
                ) && final(self).stage() == SiteOpStage::Finished,
                Ok(site) => match site.cert_id {
                    Some(c) => a == SiteOpAction::LoadCert(c) && final(self).stage()
                        == SiteOpStage::AwaitCert && final(self).kept_site() == Some(site),
                    None => a == SiteOpAction::Apply(site, None) && final(self).stage()
                        == SiteOpStage::AwaitApply,
                },
            },
    {
        match r {
            Err(_) => {
                self.stage = SiteOpStage::Finished;
                SiteOpAction::Respond(server_error("站点不存在"))
            },
            Ok(site) => match site.cert_id {
                Some(c) => {
                    self.site = Some(site);
                    self.stage = SiteOpStage::AwaitCert;
                    SiteOpAction::LoadCert(c)
                },
                None => {
                    self.stage = SiteOpStage::AwaitApply;
                    SiteOpAction::Apply(site, None)
                },
            },
        }
    }

    /// The bound certificate was read; a failed read counts as none.
    pub fn on_cert(&mut self, r: Result<Option<Certificate>, String>) -> (a: SiteOpAction)
        requires
            old(self).wf(),
            old(self).stage() == SiteOpStage::AwaitCert,
        ensures
            final(self).wf(),
            final(self).stage() == SiteOpStage::AwaitApply,
            a == SiteOpAction::Apply(
                old(self).kept_site().unwrap(),
                match r {
                    Ok(c) => c,
                    Err(_) => None,
                },
            ),
    {
        let site = self.site.take().unwrap();
        self.stage = SiteOpStage::AwaitApply;
        let cert = match r {
            Ok(c) => c,
            Err(_) => None,
        };
        SiteOpAction::Apply(site, cert)
    }

    /// The configuration was applied (or not).
    pub fn on_applied(&mut self, r: Result<(), String>) -> (a: SiteOpAction)
        requires
            old(self).wf(),
            old(self).stage() == SiteOpStage::AwaitApply,
        ensures
            final(self).wf(),
            final(self).stage() == SiteOpStage::Finished,
            a matches SiteOpAction::Respond(reply) && match r {
                Ok(()) => reply@ == ReplyView::Redirect("/sites"@),
                Err(e) => reply@ == failure_reply(400, "切换启停后应用配置失败："@, e@),
            },
    {
        self.stage = SiteOpStage::Finished;
        match r {
            Ok(()) => SiteOpAction::Respond(redirect("/sites")),
            Err(e) => SiteOpAction::Respond(fail_with(400, "切换启停后应用配置失败：", e.as_str())),
        }
    }
}

/// Binding a certificate to a site.
pub struct BindFlow {
    site_id: i64,
    cert: Option<Certificate>,
    stage: SiteOpStage,
}

impl BindFlow {
    /// The stage the flow is in.
    pub closed spec fn stage(&self) -> SiteOpStage {
        self.stage
    }

    /// The site the certificate is bound to.
    pub closed spec fn site_id(&self) -> i64 {
        self.site_id
    }

    /// The certificate, once read.
    pub closed spec fn kept_cert(&self) -> Option<Certificate> {
        self.cert
    }

    /// What each stage needs to have been recorded.
    pub closed spec fn wf(&self) -> bool {
        (self.stage == SiteOpStage::AwaitWrite || self.stage == SiteOpStage::AwaitSite)
            ==> self.cert is Some
    }

    /// The stage the flow is in.
    pub fn current_stage(&self) -> (r: SiteOpStage)
        ensures
            r == self.stage(),
    {
        self.stage
    }

    /// Starts binding the certificate of `form` to the site `site_id`: the
    /// certificate is read first.
    pub fn start(site_id: i64, form: &BindCertForm) -> (r: (BindFlow, SiteOpAction))
        ensures
            r.0.wf(),
            r.0.site_id() == site_id,
            r.0.stage() == SiteOpStage::AwaitCert,
            r.1 == SiteOpAction::LoadCert(form.cert_id),
    {
        (BindFlow { site_id, cert: None, stage: SiteOpStage::AwaitCert }, SiteOpAction::LoadCert(form.cert_id))
    }

    /// The certificate was read (or does not exist).
    pub fn on_cert(&mut self, r: Result<Certificate, String>) -> (a: SiteOpAction)
        requires
            old(self).wf(),
            old(self).stage() == SiteOpStage::AwaitCert,
        ensures
            final(self).wf(),
            final(self).site_id() == old(self).site_id(),
            match r {
                Err(_) => a matches SiteOpAction::Respond(reply) && reply@ == ReplyView::Status(
                    400,
                    "证书不存在"@,
                ) && final(self).stage() == SiteOpStage::Finished,
                Ok(c) => a == (SiteOpAction::SetCert { site_id: old(self).site_id(), cert_id: c.id })
                    && final(self).stage() == SiteOpStage::AwaitWrite && final(self).kept_cert()
                    == Some(c),
            },
    {
        match r {
            Err(_) => {
                self.stage = SiteOpStage::Finished;
                SiteOpAction::Respond(status(400, "证书不存在"))
            },
            Ok(c) => {
                let cert_id = c.id;
                self.cert = Some(c);
                self.stage = SiteOpStage::AwaitWrite;
                SiteOpAction::SetCert { site_id: self.site_id, cert_id }
            },
        }
    }

    /// The binding was stored (or not).
    pub fn on_written(&mut self, r: Result<(), String>) -> (a: SiteOpAction)
        requires
            old(self).wf(),
            old(self).stage() == SiteOpStage::AwaitWrite,
        ensures
            final(self).wf(),
            final(self).kept_cert() == old(self).kept_cert(),
            match r {
                Err(e) => a matches SiteOpAction::Respond(reply) && reply@ == failure_reply(
                    400,
                    "绑定证书失败："@,
                    e@,
                ) && final(self).stage() == SiteOpStage::Finished,
                Ok(()) => a == SiteOpAction::LoadSite(old(self).site_id()) && final(self).stage()
                    == SiteOpStage::AwaitSite,
            },
    {
        match r {
            Err(e) => {
                self.stage = SiteOpStage::Finished;
                SiteOpAction::Respond(fail_with(400, "绑定证书失败：", e.as_str()))
            },
            Ok(()) => {
                self.stage = SiteOpStage::AwaitSite;
                SiteOpAction::LoadSite(self.site_id)
            },
        }
    }

    /// The site was read back (or not); it is applied with the certificate.
    pub fn on_site(&mut self, r: Result<Site, String>) -> (a: SiteOpAction)
        requires
            old(self).wf(),
            old(self).stage() == SiteOpStage::AwaitSite,
        ensures
            final(self).wf(),
            match r {
                Err(_) => a matches SiteOpAction::Respond(reply) && reply@ == ReplyView::Status(
                    400,
                    "站点不存在"@,
                ) && final(self).stage() == SiteOpStage::Finished,
                Ok(site) => a == SiteOpAction::Apply(site, old(self).kept_cert()) && final(self).stage() == SiteOpStage::AwaitApply,
            },
    {
        match r {
            Err(_) => {
                self.stage = SiteOpStage::Finished;
                SiteOpAction::Respond(status(400, "站点不存在"))
            },
            Ok(site) => {
                self.stage = SiteOpStage::AwaitApply;
                let cert = self.cert.take();
                SiteOpAction::Apply(site, cert)
            },
        }
    }

    /// The configuration was applied (or not).
    pub fn on_applied(&mut self, r: Result<(), String>) -> (a: SiteOpAction)
        requires
            old(self).wf(),
            old(self).stage() == SiteOpStage::AwaitApply,
        ensures
            final(self).wf(),
            final(self).stage() == SiteOpStage::Finished,
            a matches SiteOpAction::Respond(reply) && match r {
                Ok(()) => reply@ == ReplyView::Redirect("/sites"@),
                Err(e) => reply@ == failure_reply(400, "绑定后应用配置失败："@, e@),
            },
    {
        self.stage = SiteOpStage::Finished;
        match r {
            Ok(()) => SiteOpAction::Respond(redirect("/sites")),
            Err(e) => SiteOpAction::Respond(fail_with(400, "绑定后应用配置失败：", e.as_str())),
        }
    }
}

/// Deleting a site: its configuration leaves Nginx first, then its record.
pub struct DeleteFlow {
    id: i64,
    name: String,
    domain: String,
    stage: SiteOpStage,
}

impl DeleteFlow {
    /// The stage the flow is in.
    pub closed spec fn stage(&self) -> SiteOpStage {
        self.stage
    }

    /// The site being deleted.
    pub closed spec fn site_id(&self) -> i64 {
        self.id
    }

    /// The name and domain of the site, once read.
    pub closed spec fn deleted(&self) -> (Seq<char>, Seq<char>) {
        (self.name@, self.domain@)
    }

    /// The stage the flow is in.
    pub fn current_stage(&self) -> (r: SiteOpStage)
        ensures
            r == self.stage(),
    {
        self.stage
    }

    /// Starts deleting the site `id`: it is read first.
    pub fn start(id: i64) -> (r: (DeleteFlow, SiteOpAction))
        ensures
            r.0.site_id() == id,
            r.0.stage() == SiteOpStage::AwaitSite,
            r.1 == SiteOpAction::LoadSite(id),
    {
        (
            DeleteFlow { id, name: String::new(), domain: String::new(), stage: SiteOpStage::AwaitSite },
            SiteOpAction::LoadSite(id),
        )
    }

    /// The site was read (or does not exist).
    pub fn on_site(&mut self, r: Result<Site, String>) -> (a: SiteOpAction)
        requires
            old(self).stage() == SiteOpStage::AwaitSite,
        ensures
            final(self).site_id() == old(self).site_id(),
            match r {
                Err(_) => a matches SiteOpAction::Respond(reply) && reply@ == ReplyView::Status(
                    404,
                    "站点不存在"@,
                ) && final(self).stage() == SiteOpStage::Finished,
                Ok(site) => a matches SiteOpAction::RemoveConfig(n) && n@ == site.name@ && final(self).stage() == SiteOpStage::AwaitRemoval && final(self).deleted() == (
                    site.name@,
                    site.domain@,
                ),
            },
    {
        match r {
            Err(_) => {
                self.stage = SiteOpStage::Finished;
                SiteOpAction::Respond(status(404, "站点不存在"))
            },
            Ok(site) => {
                self.name = site.name.clone();
                self.domain = site.domain;
                self.stage = SiteOpStage::AwaitRemoval;
                SiteOpAction::RemoveConfig(site.name)
            },
        }
    }

    /// The configuration was taken out of Nginx (or not).
    pub fn on_config_removed(&mut self, r: Result<(), String>) -> (a: SiteOpAction)
        requires
            old(self).stage() == SiteOpStage::AwaitRemoval,
        ensures
            final(self).site_id() == old(self).site_id(),
            final(self).deleted() == old(self).deleted(),
            match r {
                Err(e) => a matches SiteOpAction::Respond(reply) && reply@ == failure_reply(
                    400,
                    "删除后应用配置失败："@,
                    e@,
                ) && final(self).stage() == SiteOpStage::Finished,
                Ok(()) => a == SiteOpAction::DeleteRow(old(self).site_id()) && final(self).stage()
                    == SiteOpStage::AwaitDelete,
            },
    {
        match r {
            Err(e) => {
                self.stage = SiteOpStage::Finished;
                SiteOpAction::Respond(fail_with(400, "删除后应用配置失败：", e.as_str()))
            },
            Ok(()) => {
                self.stage = SiteOpStage::AwaitDelete;
                SiteOpAction::DeleteRow(self.id)
            },
        }
    }

    /// The record was deleted (or not).
    pub fn on_row_deleted(&mut self, r: Result<(), String>) -> (a: SiteOpAction)
        requires
            old(self).stage() == SiteOpStage::AwaitDelete,
        ensures
            match r {
                Err(e) => a matches SiteOpAction::Respond(reply) && reply@ == failure_reply(
                    400,
                    "删除数据库记录失败："@,
                    e@,
                ) && final(self).stage() == SiteOpStage::Finished,
                Ok(()) => a matches SiteOpAction::Audit(entry) && entry.actor@ == "admin"@
                    && entry.action@ == "删除站点"@ && entry.detail@ == "site_id="@ + dec_int(
                    old(self).site_id() as int,
                ) + " name="@ + old(self).deleted().0 + " domain="@ + old(self).deleted().1
                    && final(self).stage() == SiteOpStage::AwaitAudit,
            },
    {
        match r {
            Err(e) => {
                self.stage = SiteOpStage::Finished;
                SiteOpAction::Respond(fail_with(400, "删除数据库记录失败：", e.as_str()))
            },
            Ok(()) => {
                self.stage = SiteOpStage::AwaitAudit;
                SiteOpAction::Audit(deleted_audit(self.id, self.name.as_str(), self.domain.as_str()))
            },
        }
    }

    /// The audit entry was recorded; the answer is the site list.
    pub fn on_audited(&mut self) -> (a: SiteOpAction)
        requires
            old(self).stage() == SiteOpStage::AwaitAudit,
        ensures
            final(self).stage() == SiteOpStage::Finished,
            a matches SiteOpAction::Respond(reply) && reply@ == ReplyView::Redirect("/sites"@),
    {
        self.stage = SiteOpStage::Finished;
        SiteOpAction::Respond(redirect("/sites"))
    }
}

} // verus!
