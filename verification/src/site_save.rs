//! Creating and updating a site: the sequence of checks, writes and the
//! Nginx apply step, as a machine that is told what each step gave and
//! answers with the next step.

use vstd::prelude::*;

use crate::models::{Certificate, CreateSiteForm, Site};
use crate::reply::{fail_with, failure_reply, redirect, status, server_error, Reply, ReplyView};
use crate::site_form::{
    check_site_form, domain_conflict_message, domain_conflict_text, port_conflict_message,
    port_conflict_text, site_form_outcome, opt_view, SiteInput,
};
use crate::text::{dec_int, push_dec_i64};

verus! {

/// What the next step is.
pub enum SiteSaveAction {
    /// Read the site that is being updated.
    LoadExisting(i64),
    /// Look for another site with this domain (other than `exclude`).
    FindDomainUser { domain: String, exclude: Option<i64> },
    /// Look for another site on this port (other than `exclude`).
    FindPortUser { port: i64, exclude: Option<i64> },
    /// Insert a new, enabled site with these values.
    Insert(SiteInput),
    /// Overwrite the site with this id with these values.
    Update(i64, SiteInput),
    /// Read back the site with this name.
    LoadByName(String),
    /// Read back the site with this id.
    LoadById(i64),
    /// Read the certificate with this id.
    LoadCert(i64),
    /// Write and activate the Nginx configuration of the site.
    Apply(Site, Option<Certificate>),
    /// Write these earlier values back into the site with this id.
    Restore(i64, Site),
    /// Record an audit entry.
    Audit { actor: String, action: String, detail: String },
    /// Answer the request; the flow is over.
    Respond(Reply),
}

/// Where a save stands.
#[derive(Debug, Clone, Copy, PartialEq, Eq)]
pub enum SiteSaveStage {
    AwaitExisting,
    AwaitDomainCheck,
    AwaitPortCheck,
    AwaitWrite,
    AwaitReload,
    AwaitCert,
    AwaitApply,
    AwaitRestore,
    AwaitAudit,
    Finished,
}

/// A create (no target) or an update of the site with the target id.
pub struct SiteSave {
    id: Option<i64>,
    form: Option<CreateSiteForm>,
    input: Option<SiteInput>,
    name: String,
    domain: String,
    port: i64,
    existing: Option<Site>,
    site: Option<Site>,
    audit_detail: String,
    apply_error: String,
    stage: SiteSaveStage,
}

/// The audit detail of a created site.
pub open spec fn created_detail(name: Seq<char>, domain: Seq<char>) -> Seq<char> {
    "site="@ + name + " domain="@ + domain
}

/// The audit detail of an updated site.
pub open spec fn updated_detail(id: i64, name: Seq<char>, domain: Seq<char>) -> Seq<char> {
    "site_id="@ + dec_int(id as int) + " name="@ + name + " domain="@ + domain
}

impl SiteSave {
    /// The stage the save is in.
    pub closed spec fn stage(&self) -> SiteSaveStage {
        self.stage
    }

    /// The site being updated, or `None` for a create.
    pub closed spec fn target(&self) -> Option<i64> {
        self.id
    }

    /// The name of the site as submitted.
    pub closed spec fn name(&self) -> Seq<char> {
        self.name@
    }

    /// The domain of the site as submitted.
    pub closed spec fn domain(&self) -> Seq<char> {
        self.domain@
    }

    /// The port of the site as submitted.
    pub closed spec fn port(&self) -> i64 {
        self.port
    }

    /// The form of an update, until the current record has been read.
    pub closed spec fn pending_form(&self) -> Option<CreateSiteForm> {
        self.form
    }

    /// The checked values, from the form check up to the write.
    pub closed spec fn input(&self) -> Option<SiteInput> {
        self.input
    }

    /// The earlier record of the site being updated.
    pub closed spec fn existing(&self) -> Option<Site> {
        self.existing
    }

    /// The record read back after the write, until it is applied.
    pub closed spec fn reloaded(&self) -> Option<Site> {
        self.site
    }

    /// The text of the failed apply step, once there was one.
    pub closed spec fn apply_error(&self) -> Seq<char> {
        self.apply_error@
    }

    /// The audit detail, once the site was read back.
    pub closed spec fn audit_detail(&self) -> Seq<char> {
        self.audit_detail@
    }

    /// What each stage needs to have been recorded.
    pub closed spec fn wf(&self) -> bool {
        &&& (self.stage == SiteSaveStage::AwaitExisting ==> self.id is Some && self.form is Some)
        &&& (self.stage == SiteSaveStage::AwaitDomainCheck || self.stage
            == SiteSaveStage::AwaitPortCheck) ==> self.input is Some
        &&& (self.stage == SiteSaveStage::AwaitCert ==> self.site is Some)
        &&& self.id is Some && self.stage != SiteSaveStage::AwaitExisting && self.stage
            != SiteSaveStage::AwaitRestore && self.stage != SiteSaveStage::AwaitAudit
            && self.stage != SiteSaveStage::Finished ==> self.existing is Some
        &&& (self.stage == SiteSaveStage::AwaitCert ==> self.id is Some)
    }

    /// The stage the save is in.
    pub fn current_stage(&self) -> (r: SiteSaveStage)
        ensures
            r == self.stage(),
    {
        self.stage
    }

    fn check_form(&mut self, form: CreateSiteForm) -> (a: SiteSaveAction)
        requires
            old(self).id is Some ==> old(self).existing is Some,
        ensures
            final(self).wf(),
            final(self).target() == old(self).target(),
            final(self).existing() == old(self).existing(),
            match site_form_outcome(form) {
                Err(e) => a matches SiteSaveAction::Respond(r) && r@ == ReplyView::Status(
                    400,
                    e.spec_message(),
                ) && final(self).stage() == SiteSaveStage::Finished,
                Ok(v) => {
                    &&& a matches SiteSaveAction::FindDomainUser { domain, exclude } && domain@
                        == form.domain@ && exclude == old(self).target()
                    &&& final(self).stage() == SiteSaveStage::AwaitDomainCheck
                    &&& final(self).name() == form.name@
                    &&& final(self).domain() == form.domain@
                    &&& final(self).port() == form.port as i64
                    &&& final(self).input() matches Some(i) && i.name@ == form.name@
                        && i.domain@ == form.domain@ && i.port == form.port as i64
                        && i.site_type@ == v.0 && opt_view(i.upstream) == v.1
                        && opt_view(i.root_dir) == v.2
                },
            },
    {
        match check_site_form(form) {
            Err(e) => {
                self.stage = SiteSaveStage::Finished;
                SiteSaveAction::Respond(Reply::Status(400, e.message()))
            },
            Ok(input) => {
                self.name = input.name.clone();
                self.domain = input.domain.clone();
                self.port = input.port;
                let domain = input.domain.clone();
                self.stage = SiteSaveStage::AwaitDomainCheck;
                self.input = Some(input);
                SiteSaveAction::FindDomainUser { domain, exclude: self.id }
            },
        }
    }

    fn blank(id: Option<i64>, form: Option<CreateSiteForm>, stage: SiteSaveStage) -> (s: SiteSave)
        ensures
            s.id == id,
            s.form == form,
            s.stage == stage,
            s.existing is None,
            s.site is None,
            s.input is None,
    {
        SiteSave {
            id,
            form,
            input: None,
            name: String::new(),
            domain: String::new(),
            port: 0,
            existing: None,
            site: None,
            audit_detail: String::new(),
            apply_error: String::new(),
            stage,
        }
    }

    /// Starts creating a site from `form`: the form is checked first.
    pub fn start_create(form: CreateSiteForm) -> (r: (SiteSave, SiteSaveAction))
        ensures
            r.0.wf(),
            r.0.target() is None,
            match site_form_outcome(form) {
                Err(e) => r.1 matches SiteSaveAction::Respond(reply) && reply@ == ReplyView::Status(
                    400,
                    e.spec_message(),
                ) && r.0.stage() == SiteSaveStage::Finished,
                Ok(v) => {
                    &&& r.1 matches SiteSaveAction::FindDomainUser { domain, exclude } && domain@
                        == form.domain@ && exclude is None
                    &&& r.0.stage() == SiteSaveStage::AwaitDomainCheck
                    &&& r.0.name() == form.name@
                    &&& r.0.domain() == form.domain@
                    &&& r.0.port() == form.port as i64
                    &&& r.0.input() matches Some(i) && i.name@ == form.name@ && i.domain@
                        == form.domain@ && i.port == form.port as i64 && i.site_type@ == v.0
                        && opt_view(i.upstream) == v.1 && opt_view(i.root_dir) == v.2
                },
            },
    {
        let mut s = SiteSave::blank(None, None, SiteSaveStage::Finished);
        let a = s.check_form(form);
        (s, a)
    }

    /// Starts updating the site `id` with `form`: its current record is
    /// read first.
    pub fn start_update(id: i64, form: CreateSiteForm) -> (r: (SiteSave, SiteSaveAction))
        ensures
            r.0.wf(),
            r.0.target() == Some(id),
            r.0.stage() == SiteSaveStage::AwaitExisting,
            r.0.pending_form() == Some(form),
            r.1 == SiteSaveAction::LoadExisting(id),
    {
        (SiteSave::blank(Some(id), Some(form), SiteSaveStage::AwaitExisting), SiteSaveAction::LoadExisting(id))
    }

    /// The current record of the site being updated was read (or not).
    pub fn on_existing(&mut self, found: Result<Site, String>) -> (a: SiteSaveAction)
        requires
            old(self).wf(),
            old(self).stage() == SiteSaveStage::AwaitExisting,
        ensures
            final(self).wf(),
            final(self).target() == old(self).target(),
            match found {
                Err(_) => a matches SiteSaveAction::Respond(r) && r@ == ReplyView::Status(
                    404,
                    "站点不存在"@,
                ) && final(self).stage() == SiteSaveStage::Finished,
                Ok(site) => {
                    &&& final(self).existing() == Some(site)
                    &&& match site_form_outcome(old(self).pending_form().unwrap()) {
                        Err(e) => (a matches SiteSaveAction::Respond(r) && r@ == ReplyView::Status(
                            400,
                            e.spec_message(),
                        )) && final(self).stage() == SiteSaveStage::Finished,
                        Ok(v) => {
                            let pending = old(self).pending_form().unwrap();
                            &&& a matches SiteSaveAction::FindDomainUser { domain, exclude }
                                && domain@ == pending.domain@ && exclude == old(self).target()
                            &&& final(self).stage() == SiteSaveStage::AwaitDomainCheck
                            &&& final(self).name() == pending.name@
                            &&& final(self).domain() == pending.domain@
                            &&& final(self).port() == pending.port as i64
                            &&& final(self).input() matches Some(i) && i.name@ == pending.name@
                                && i.domain@ == pending.domain@ && i.port == pending.port as i64
                                && i.site_type@ == v.0 && opt_view(i.upstream) == v.1
                                && opt_view(i.root_dir) == v.2
                        },
                    }
                },
            },
    {
        match found {
            Err(_) => {
                self.stage = SiteSaveStage::Finished;
                SiteSaveAction::Respond(status(404, "站点不存在"))
            },
            Ok(site) => {
                self.existing = Some(site);
                let form = self.form.take().unwrap();
                self.check_form(form)
            },
        }
    }

    /// The domain check found (or did not find) another site.
    pub fn on_domain_checked(&mut self, found: Result<Option<(i64, String)>, String>) -> (a:
        SiteSaveAction)
        requires
            old(self).wf(),
            old(self).stage() == SiteSaveStage::AwaitDomainCheck,
        ensures
            final(self).wf(),
            final(self).target() == old(self).target(),
            final(self).existing() == old(self).existing(),
            final(self).name() == old(self).name(),
            final(self).domain() == old(self).domain(),
            final(self).port() == old(self).port(),
            final(self).input() == old(self).input(),
            match found {
                Err(_) => a matches SiteSaveAction::Respond(r) && r@ == ReplyView::Status(
                    500,
                    "域名冲突检查失败"@,
                ) && final(self).stage() == SiteSaveStage::Finished,
                Ok(Some((id, name))) => a matches SiteSaveAction::Respond(r) && r@
                    == ReplyView::Status(400, domain_conflict_text(id, name@)) && final(self).stage() == SiteSaveStage::Finished,
                Ok(None) => a matches SiteSaveAction::FindPortUser { port, exclude } && port
                    == old(self).port() && exclude == old(self).target() && final(self).stage()
                    == SiteSaveStage::AwaitPortCheck,
            },
    {
        match found {
            Err(_) => {
                self.stage = SiteSaveStage::Finished;
                SiteSaveAction::Respond(server_error("域名冲突检查失败"))
            },
            Ok(Some((id, name))) => {
                self.stage = SiteSaveStage::Finished;
                SiteSaveAction::Respond(Reply::Status(400, domain_conflict_message(id, name.as_str())))
            },
            Ok(None) => {
                self.stage = SiteSaveStage::AwaitPortCheck;
                SiteSaveAction::FindPortUser { port: self.port, exclude: self.id }
            },
        }
    }

    /// The port check found (or did not find) another site. Only where
    /// neither check found one is the site written.
    pub fn on_port_checked(&mut self, found: Result<Option<(i64, String, String)>, String>) -> (a:
        SiteSaveAction)
        requires
            old(self).wf(),
            old(self).stage() == SiteSaveStage::AwaitPortCheck,
        ensures
            final(self).wf(),
            final(self).target() == old(self).target(),
            final(self).existing() == old(self).existing(),
            final(self).name() == old(self).name(),
            final(self).domain() == old(self).domain(),
            final(self).port() == old(self).port(),
            match found {
                Err(_) => a matches SiteSaveAction::Respond(r) && r@ == ReplyView::Status(
                    500,
                    "端口冲突检查失败"@,
                ) && final(self).stage() == SiteSaveStage::Finished,
                Ok(Some((id, name, domain))) => a matches SiteSaveAction::Respond(r) && r@
                    == ReplyView::Status(400, port_conflict_text(old(self).port(), id, name@, domain@))
                    && final(self).stage() == SiteSaveStage::Finished,
                Ok(None) => final(self).stage() == SiteSaveStage::AwaitWrite && match old(self).target() {
                    None => a == SiteSaveAction::Insert(old(self).input().unwrap()),
                    Some(id) => a == SiteSaveAction::Update(id, old(self).input().unwrap()),
                },
            },
    {
        match found {
            Err(_) => {
                self.stage = SiteSaveStage::Finished;
                SiteSaveAction::Respond(server_error("端口冲突检查失败"))
            },
            Ok(Some((id, name, domain))) => {
                self.stage = SiteSaveStage::Finished;
                SiteSaveAction::Respond(
                    Reply::Status(400, port_conflict_message(self.port, id, name.as_str(), domain.as_str())),
                )
            },
            Ok(None) => {
                self.stage = SiteSaveStage::AwaitWrite;
                let input = self.input.take().unwrap();
                match self.id {
                    None => SiteSaveAction::Insert(input),
                    Some(id) => SiteSaveAction::Update(id, input),
                }
            },
        }
    }

    /// The insert or update was done (or refused).
    pub fn on_written(&mut self, done: Result<(), String>) -> (a: SiteSaveAction)
        requires
            old(self).wf(),
            old(self).stage() == SiteSaveStage::AwaitWrite,
        ensures
            final(self).wf(),
            final(self).target() == old(self).target(),
            final(self).existing() == old(self).existing(),
            final(self).name() == old(self).name(),
            final(self).domain() == old(self).domain(),
            final(self).port() == old(self).port(),
            match (done, old(self).target()) {
                (Err(_), None) => a matches SiteSaveAction::Respond(r) && r@ == ReplyView::Status(
                    400,
                    "站点创建失败（名称重复或输入无效）"@,
                ) && final(self).stage() == SiteSaveStage::Finished,
                (Err(e), Some(_)) => a matches SiteSaveAction::Respond(r) && r@ == failure_reply(
                    400,
                    "更新失败："@,
                    e@,
                ) && final(self).stage() == SiteSaveStage::Finished,
                (Ok(()), None) => a matches SiteSaveAction::LoadByName(n) && n@ == old(self).name()
                    && final(self).stage() == SiteSaveStage::AwaitReload,
                (Ok(()), Some(id)) => a == SiteSaveAction::LoadById(id) && final(self).stage()
                    == SiteSaveStage::AwaitReload,
            },
    {
        match done {
            Err(e) => {
                self.stage = SiteSaveStage::Finished;
                match self.id {
                    None => SiteSaveAction::Respond(status(400, "站点创建失败（名称重复或输入无效）")),
                    Some(_) => SiteSaveAction::Respond(fail_with(400, "更新失败：", e.as_str())),
                }
            },
            Ok(()) => {
                self.stage = SiteSaveStage::AwaitReload;
                match self.id {
                    None => SiteSaveAction::LoadByName(self.name.clone()),
                    Some(id) => SiteSaveAction::LoadById(id),
                }
            },
        }
    }

    /// The written site was read back (or not).
    pub fn on_reloaded(&mut self, found: Result<Site, String>) -> (a: SiteSaveAction)
        requires
            old(self).wf(),
            old(self).stage() == SiteSaveStage::AwaitReload,
        ensures
            final(self).wf(),
            final(self).target() == old(self).target(),
            final(self).existing() == old(self).existing(),
            match (found, old(self).target()) {
                (Err(_), None) => a matches SiteSaveAction::Respond(r) && r@ == ReplyView::Status(
                    500,
                    "读取新建站点失败"@,
                ) && final(self).stage() == SiteSaveStage::Finished,
                (Err(_), Some(_)) => a matches SiteSaveAction::Respond(r) && r@ == ReplyView::Status(
                    500,
                    "读取更新后的站点失败"@,
                ) && final(self).stage() == SiteSaveStage::Finished,
                (Ok(site), None) => a == SiteSaveAction::Apply(site, None) && final(self).stage()
                    == SiteSaveStage::AwaitApply && final(self).audit_detail() == created_detail(
                    site.name@,
                    site.domain@,
                ),
                (Ok(site), Some(id)) => final(self).audit_detail() == updated_detail(
                    id,
                    old(self).name(),
                    old(self).domain(),
                ) && match site.cert_id {
                    Some(c) => a == SiteSaveAction::LoadCert(c) && final(self).stage()
                        == SiteSaveStage::AwaitCert && final(self).reloaded() == Some(site),
                    None => a == SiteSaveAction::Apply(site, None) && final(self).stage()
                        == SiteSaveStage::AwaitApply,
                },
            },
    {
        match found {
            Err(_) => {
                self.stage = SiteSaveStage::Finished;
                match self.id {
                    None => SiteSaveAction::Respond(server_error("读取新建站点失败")),
                    Some(_) => SiteSaveAction::Respond(server_error("读取更新后的站点失败")),
                }
            },
            Ok(site) => {
                match self.id {
                    None => {
                        let mut d = String::from_str("site=");
                        d.append(site.name.as_str());
                        d.append(" domain=");
                        d.append(site.domain.as_str());
                        self.audit_detail = d;
                        self.stage = SiteSaveStage::AwaitApply;
                        self.site = None;
                        SiteSaveAction::Apply(site, None)
                    },
                    Some(id) => {
                        let mut d = String::from_str("site_id=");
                        push_dec_i64(&mut d, id);
                        d.append(" name=");
                        d.append(self.name.as_str());
                        d.append(" domain=");
                        d.append(self.domain.as_str());
                        assert(d@ =~= updated_detail(id, self.name@, self.domain@));
                        self.audit_detail = d;
                        match site.cert_id {
                            Some(c) => {
                                self.stage = SiteSaveStage::AwaitCert;
                                self.site = Some(site);
                                SiteSaveAction::LoadCert(c)
                            },
                            None => {
                                self.stage = SiteSaveStage::AwaitApply;
                                self.site = None;
                                SiteSaveAction::Apply(site, None)
                            },
                        }
                    },
                }
            },
        }
    }

    /// The bound certificate was read; a failed read counts as no
    /// certificate.
    pub fn on_cert(&mut self, found: Result<Option<Certificate>, String>) -> (a: SiteSaveAction)
        requires
            old(self).wf(),
            old(self).stage() == SiteSaveStage::AwaitCert,
        ensures
            final(self).wf(),
            final(self).target() == old(self).target(),
            final(self).existing() == old(self).existing(),
            final(self).audit_detail() == old(self).audit_detail(),
            final(self).stage() == SiteSaveStage::AwaitApply,
            a == SiteSaveAction::Apply(
                old(self).reloaded().unwrap(),
                match found {
                    Ok(c) => c,
                    Err(_) => None,
                },
            ),
    {
        let site = self.site.take().unwrap();
        self.stage = SiteSaveStage::AwaitApply;
        let cert = match found {
            Ok(c) => c,
            Err(_) => None,
        };
        SiteSaveAction::Apply(site, cert)
    }

    /// The configuration was applied (or the apply failed and Nginx was
    /// left as it was). A failed update is rolled back in the table.
    pub fn on_applied(&mut self, done: Result<(), String>) -> (a: SiteSaveAction)
        requires
            old(self).wf(),
            old(self).stage() == SiteSaveStage::AwaitApply,
        ensures
            final(self).wf(),
            final(self).target() == old(self).target(),
            match (done, old(self).target()) {
                (Err(e), None) => a matches SiteSaveAction::Respond(r) && r@ == failure_reply(
                    400,
                    "应用 Nginx 配置失败："@,
                    e@,
                ) && final(self).stage() == SiteSaveStage::Finished,
                (Err(e), Some(id)) => a == SiteSaveAction::Restore(id, old(self).existing().unwrap())
                    && final(self).stage() == SiteSaveStage::AwaitRestore && final(self).apply_error()
                    == e@,
                (Ok(()), None) => a matches SiteSaveAction::Audit { actor, action, detail }
                    && actor@ == "admin"@ && action@ == "创建站点"@ && detail@ == old(self).audit_detail() && final(self).stage() == SiteSaveStage::AwaitAudit,
                (Ok(()), Some(_)) => a matches SiteSaveAction::Audit { actor, action, detail }
                    && actor@ == "admin"@ && action@ == "更新站点"@ && detail@ == old(self).audit_detail() && final(self).stage() == SiteSaveStage::AwaitAudit,
            },
    {
        match done {
            Err(e) => {
                match self.id {
                    None => {
                        self.stage = SiteSaveStage::Finished;
                        SiteSaveAction::Respond(fail_with(400, "应用 Nginx 配置失败：", e.as_str()))
                    },
                    Some(id) => {
                        self.stage = SiteSaveStage::AwaitRestore;
                        self.apply_error = e;
                        let existing = self.existing.take().unwrap();
                        SiteSaveAction::Restore(id, existing)
                    },
                }
            },
            Ok(()) => {
                self.stage = SiteSaveStage::AwaitAudit;
                let action = match self.id {
                    None => String::from_str("创建站点"),
                    Some(_) => String::from_str("更新站点"),
                };
                SiteSaveAction::Audit {
                    actor: String::from_str("admin"),
                    action,
                    detail: self.audit_detail.clone(),
                }
            },
        }
    }

    /// The earlier values were written back after a failed apply.
    pub fn on_restored(&mut self) -> (a: SiteSaveAction)
        requires
            old(self).wf(),
            old(self).stage() == SiteSaveStage::AwaitRestore,
        ensures
            final(self).wf(),
            final(self).stage() == SiteSaveStage::Finished,
            a matches SiteSaveAction::Respond(r) && r@ == failure_reply(
                400,
                "应用 Nginx 配置失败："@,
                old(self).apply_error(),
            ),
    {
        self.stage = SiteSaveStage::Finished;
        SiteSaveAction::Respond(fail_with(400, "应用 Nginx 配置失败：", self.apply_error.as_str()))
    }

    /// The audit entry was recorded; the answer is the site list.
    pub fn on_audited(&mut self) -> (a: SiteSaveAction)
        requires
            old(self).wf(),
            old(self).stage() == SiteSaveStage::AwaitAudit,
        ensures
            final(self).wf(),
            final(self).stage() == SiteSaveStage::Finished,
            a matches SiteSaveAction::Respond(r) && r@ == ReplyView::Redirect("/sites"@),
    {
        self.stage = SiteSaveStage::Finished;
        SiteSaveAction::Respond(redirect("/sites"))
    }
}

} // verus!
