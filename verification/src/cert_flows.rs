//! Adding a certificate (requested from Let's Encrypt or uploaded) and
//! refreshing the recorded expiry dates, as machines that are told what a
//! step gave and answer with the next step.

use vstd::prelude::*;

use crate::models::{Certificate, RequestCertForm};
use crate::ops::letsencrypt_paths;
use crate::reminders::{collect_reminders, due_reminders, sort_by_days, CertExpiry, CertReminder};
use crate::reply::{fail_with, failure_reply, redirect, Reply, ReplyView};
use crate::steps::{requested_audit, uploaded_audit, AuditEntry};
use crate::upload::{upload_complete, CertUpload, UploadPlan};

verus! {

/// The next step of adding a certificate.
pub enum CertAction {
    /// Run certbot for this domain, registering this e-mail address.
    RunCertbot { domain: String, email: String },
    /// Create the directory for uploaded certificates.
    CreateDir(String),
    /// Write the certificate and the key to these paths.
    WriteFiles { cert_path: String, cert_bytes: Vec<u8>, key_path: String, key_bytes: Vec<u8> },
    /// Store the certificate record: issued by Let's Encrypt (automatically
    /// renewed) or uploaded.
    Insert { name: String, domain: String, cert_path: String, key_path: String, letsencrypt: bool },
    /// Record an audit entry.
    Audit(AuditEntry),
    /// Answer the request; the flow is over.
    Respond(Reply),
}

/// Where adding a certificate stands.
#[derive(Debug, Clone, Copy, PartialEq, Eq)]
pub enum CertStage {
    AwaitCertbot,
    AwaitDir,
    AwaitFiles,
    AwaitInsert,
    AwaitAudit,
    Finished,
}

/// Adding a certificate.
pub struct CertFlow {
    name: String,
    domain: String,
    cert_path: String,
    key_path: String,
    files: Option<(Vec<u8>, Vec<u8>)>,
    letsencrypt: bool,
    stage: CertStage,
}

impl CertFlow {
    /// The stage the flow is in.
    pub closed spec fn stage(&self) -> CertStage {
        self.stage
    }

    /// The certificate's name and domain.
    pub closed spec fn names(&self) -> (Seq<char>, Seq<char>) {
        (self.name@, self.domain@)
    }

    /// Where the certificate and the key are.
    pub closed spec fn paths(&self) -> (Seq<char>, Seq<char>) {
        (self.cert_path@, self.key_path@)
    }

    /// Whether the certificate comes from Let's Encrypt.
    pub closed spec fn letsencrypt(&self) -> bool {
        self.letsencrypt
    }

    /// The uploaded bytes, until they are written.
    pub closed spec fn files(&self) -> Option<(Seq<u8>, Seq<u8>)> {
        match self.files {
            Some((c, k)) => Some((c@, k@)),
            None => None,
        }
    }

    /// What each stage needs to have been recorded.
    pub closed spec fn wf(&self) -> bool {
        &&& (self.stage == CertStage::AwaitDir ==> self.files is Some && !self.letsencrypt)
        &&& (self.stage == CertStage::AwaitCertbot ==> self.letsencrypt)
    }

    /// The stage the flow is in.
    pub fn current_stage(&self) -> (r: CertStage)
        ensures
            r == self.stage(),
    {
        self.stage
    }

    /// Starts requesting a certificate: certbot runs first.
    pub fn start_request(form: RequestCertForm) -> (r: (CertFlow, CertAction))
        ensures
            r.0.wf(),
            r.0.stage() == CertStage::AwaitCertbot,
            r.0.letsencrypt(),
            r.0.names() == (form.name@, form.domain@),
            r.1 matches CertAction::RunCertbot { domain, email } && domain@ == form.domain@
                && email@ == form.email@,
    {
        let RequestCertForm { name, domain, email } = form;
        let d = domain.clone();
        (
            CertFlow {
                name,
                domain,
                cert_path: String::new(),
                key_path: String::new(),
                files: None,
                letsencrypt: true,
                stage: CertStage::AwaitCertbot,
            },
            CertAction::RunCertbot { domain: d, email },
        )
    }

    /// Starts storing an uploaded certificate from the form as read, to go
    /// under `cert_dir`: an incomplete form is refused, else the directory
    /// is created first.
    pub fn start_upload(upload: CertUpload, cert_dir: &str) -> (r: (CertFlow, CertAction))
        ensures
            r.0.wf(),
            upload_complete(upload) ==> {
                &&& r.1 matches CertAction::CreateDir(d) && d@ == cert_dir@
                &&& r.0.stage() == CertStage::AwaitDir
                &&& !r.0.letsencrypt()
                &&& r.0.names() == (upload.name@, upload.domain@)
                &&& r.0.paths() == (
                    cert_dir@ + "/"@ + upload.name@ + ".crt"@,
                    cert_dir@ + "/"@ + upload.name@ + ".key"@,
                )
                &&& r.0.files() == Some((upload.cert.unwrap()@, upload.key.unwrap()@))
            },
            !upload_complete(upload) ==> (r.1 matches CertAction::Respond(reply) && reply@
                == ReplyView::Status(400, "缺少必填字段"@)) && r.0.stage() == CertStage::Finished,
    {
        match upload.finish(cert_dir) {
            Err(reply) => (
                CertFlow {
                    name: String::new(),
                    domain: String::new(),
                    cert_path: String::new(),
                    key_path: String::new(),
                    files: None,
                    letsencrypt: false,
                    stage: CertStage::Finished,
                },
                CertAction::Respond(reply),
            ),
            Ok(plan) => {
                let UploadPlan { name, domain, cert_path, key_path, cert_bytes, key_bytes } = plan;
                (
                    CertFlow {
                        name,
                        domain,
                        cert_path,
                        key_path,
                        files: Some((cert_bytes, key_bytes)),
                        letsencrypt: false,
                        stage: CertStage::AwaitDir,
                    },
                    CertAction::CreateDir(String::from_str(cert_dir)),
                )
            },
        }
    }

    /// certbot obtained the certificate (or failed); the record points at
    /// the files certbot keeps for the domain.
    pub fn on_certbot(&mut self, r: Result<(), String>) -> (a: CertAction)
        requires
            old(self).wf(),
            old(self).stage() == CertStage::AwaitCertbot,
        ensures
            final(self).wf(),
            final(self).names() == old(self).names(),
            final(self).letsencrypt() == old(self).letsencrypt(),
            match r {
                Err(e) => a matches CertAction::Respond(reply) && reply@ == failure_reply(
                    400,
                    "证书申请失败："@,
                    e@,
                ) && final(self).stage() == CertStage::Finished,
                Ok(()) => a matches CertAction::Insert { name, domain, cert_path, key_path, letsencrypt }
                    && name@ == old(self).names().0 && domain@ == old(self).names().1 && cert_path@
                    == "/etc/letsencrypt/live/"@ + old(self).names().1 + "/fullchain.pem"@ && key_path@
                    == "/etc/letsencrypt/live/"@ + old(self).names().1 + "/privkey.pem"@ && letsencrypt
                    && final(self).stage() == CertStage::AwaitInsert,
            },
    {
        match r {
            Err(e) => {
                self.stage = CertStage::Finished;
                CertAction::Respond(fail_with(400, "证书申请失败：", e.as_str()))
            },
            Ok(()) => {
                let (c, k) = letsencrypt_paths(self.domain.as_str());
                self.cert_path = c.clone();
                self.key_path = k.clone();
                self.stage = CertStage::AwaitInsert;
                CertAction::Insert {
                    name: self.name.clone(),
                    domain: self.domain.clone(),
                    cert_path: c,
                    key_path: k,
                    letsencrypt: true,
                }
            },
        }
    }

    /// The directory was created (or not).
    pub fn on_dir(&mut self, r: Result<(), String>) -> (a: CertAction)
        requires
            old(self).wf(),
            old(self).stage() == CertStage::AwaitDir,
        ensures
            final(self).wf(),
            final(self).names() == old(self).names(),
            final(self).letsencrypt() == old(self).letsencrypt(),
            final(self).paths() == old(self).paths(),
            match r {
                Err(e) => a matches CertAction::Respond(reply) && reply@ == failure_reply(
                    500,
                    "创建证书目录失败："@,
                    e@,
                ) && final(self).stage() == CertStage::Finished,
                Ok(()) => a matches CertAction::WriteFiles { cert_path, cert_bytes, key_path, key_bytes }
                    && cert_path@ == old(self).paths().0 && key_path@ == old(self).paths().1
                    && old(self).files() == Some((cert_bytes@, key_bytes@)) && final(self).stage()
                    == CertStage::AwaitFiles,
            },
    {
        match r {
            Err(e) => {
                self.stage = CertStage::Finished;
                CertAction::Respond(fail_with(500, "创建证书目录失败：", e.as_str()))
            },
            Ok(()) => {
                let (cert_bytes, key_bytes) = self.files.take().unwrap();
                self.stage = CertStage::AwaitFiles;
                CertAction::WriteFiles {
                    cert_path: self.cert_path.clone(),
                    cert_bytes,
                    key_path: self.key_path.clone(),
                    key_bytes,
                }
            },
        }
    }

    /// The files were written (or not).
    pub fn on_files(&mut self, r: Result<(), String>) -> (a: CertAction)
        requires
            old(self).wf(),
            old(self).stage() == CertStage::AwaitFiles,
        ensures
            final(self).wf(),
            final(self).names() == old(self).names(),
            final(self).letsencrypt() == old(self).letsencrypt(),
            match r {
                Err(e) => a matches CertAction::Respond(reply) && reply@ == failure_reply(
                    500,
                    "写入证书文件失败："@,
                    e@,
                ) && final(self).stage() == CertStage::Finished,
                Ok(()) => a matches CertAction::Insert { name, domain, cert_path, key_path, letsencrypt }
                    && name@ == old(self).names().0 && domain@ == old(self).names().1 && cert_path@
                    == old(self).paths().0 && key_path@ == old(self).paths().1 && !letsencrypt
                    && final(self).stage() == CertStage::AwaitInsert,
            },
    {
        match r {
            Err(e) => {
                self.stage = CertStage::Finished;
                CertAction::Respond(fail_with(500, "写入证书文件失败：", e.as_str()))
            },
            Ok(()) => {
                self.stage = CertStage::AwaitInsert;
                CertAction::Insert {
                    name: self.name.clone(),
                    domain: self.domain.clone(),
                    cert_path: self.cert_path.clone(),
                    key_path: self.key_path.clone(),
                    letsencrypt: false,
                }
            },
        }
    }

    /// The record was stored (or not).
    pub fn on_inserted(&mut self, r: Result<(), String>) -> (a: CertAction)
        requires
            old(self).wf(),
            old(self).stage() == CertStage::AwaitInsert,
        ensures
            final(self).wf(),
            final(self).letsencrypt() == old(self).letsencrypt(),
            match r {
                Err(e) => a matches CertAction::Respond(reply) && reply@ == failure_reply(
                    400,
                    "保存证书记录失败："@,
                    e@,
                ) && final(self).stage() == CertStage::Finished,
                Ok(()) => a matches CertAction::Audit(entry) && entry.actor@ == "admin"@
                    && entry.action@ == (if old(self).letsencrypt() {
                    "申请证书"@
                } else {
                    "上传证书"@
                }) && entry.detail@ == "name="@ + old(self).names().0 + " domain="@ + old(self).names().1 && final(self).stage() == CertStage::AwaitAudit,
            },
    {
        match r {
            Err(e) => {
                self.stage = CertStage::Finished;
                CertAction::Respond(fail_with(400, "保存证书记录失败：", e.as_str()))
            },
            Ok(()) => {
                self.stage = CertStage::AwaitAudit;
                if self.letsencrypt {
                    CertAction::Audit(requested_audit(self.name.as_str(), self.domain.as_str()))
                } else {
                    CertAction::Audit(uploaded_audit(self.name.as_str(), self.domain.as_str()))
                }
            },
        }
    }

    /// The audit entry was recorded; the answer is the certificate list.
    pub fn on_audited(&mut self) -> (a: CertAction)
        requires
            old(self).wf(),
            old(self).stage() == CertStage::AwaitAudit,
        ensures
            final(self).wf(),
            final(self).stage() == CertStage::Finished,
            a matches CertAction::Respond(reply) && reply@ == ReplyView::Redirect("/certs"@),
    {
        self.stage = CertStage::Finished;
        CertAction::Respond(redirect("/certs"))
    }
}

/// The next step of refreshing the recorded expiry dates.
pub enum RefreshAction {
    /// Read the expiry of the certificate file at this path.
    ReadExpiry(String),
    /// Record this expiry instant for the certificate with this id.
    StoreExpiry(i64, String),
    /// Done: the reminders due within the window, soonest first, or the
    /// error that stopped the refresh.
    Done(Result<Vec<CertReminder>, String>),
}

/// Refreshing the expiry of every certificate, in order; the first
/// certificate whose expiry cannot be read stops the refresh.
pub struct ExpiryRefresh {
    certs: Vec<Certificate>,
    next: usize,
    entries: Vec<CertExpiry>,
    within: i64,
    waiting_store: bool,
    finished: bool,
}

impl ExpiryRefresh {
    /// The certificates, in order.
    pub closed spec fn certs(&self) -> Seq<Certificate> {
        self.certs@
    }

    /// What was learned so far, a line per certificate read.
    pub closed spec fn entries(&self) -> Seq<CertExpiry> {
        self.entries@
    }

    /// How many certificates have been read.
    pub closed spec fn read(&self) -> nat {
        self.next as nat
    }

    /// The window of the reminders.
    pub closed spec fn within(&self) -> i64 {
        self.within
    }

    /// Whether a read expiry waits to be stored.
    pub closed spec fn storing(&self) -> bool {
        self.waiting_store
    }

    /// Whether the refresh is over.
    pub closed spec fn finished(&self) -> bool {
        self.finished
    }

    /// The refresh's bookkeeping.
    pub closed spec fn wf(&self) -> bool {
        &&& self.next <= self.certs@.len()
        &&& self.entries@.len() == self.next
        &&& forall|i: int|
            0 <= i < self.next ==> (#[trigger] self.entries@[i]).domain@ == self.certs@[i].domain@
    }

    fn next_read(&mut self) -> (a: RefreshAction)
        requires
            old(self).wf(),
        ensures
            final(self).wf(),
            final(self).certs() == old(self).certs(),
            final(self).entries() == old(self).entries(),
            final(self).within() == old(self).within(),
            final(self).read() == old(self).read(),
            !final(self).storing(),
            if old(self).read() < old(self).certs().len() {
                a matches RefreshAction::ReadExpiry(p) && p@ == old(self).certs()[old(self).read() as int].cert_path@ && !final(self).finished()
            } else {
                a matches RefreshAction::Done(Ok(rs)) && rs@ == sort_by_days(
                    due_reminders(old(self).entries(), old(self).within()),
                ) && final(self).finished()
            },
    {
        self.waiting_store = false;
        if self.next < self.certs.len() {
            self.finished = false;
            RefreshAction::ReadExpiry(self.certs[self.next].cert_path.clone())
        } else {
            self.finished = true;
            RefreshAction::Done(Ok(collect_reminders(&self.entries, self.within)))
        }
    }

    /// Starts refreshing `certs`; the reminders that come out are those at
    /// most `within` days from expiry.
    pub fn start(certs: Vec<Certificate>, within: i64) -> (r: (ExpiryRefresh, RefreshAction))
        ensures
            r.0.wf(),
            r.0.certs() == certs@,
            r.0.within() == within,
            r.0.read() == 0,
            !r.0.storing(),
            if certs@.len() > 0 {
                r.1 matches RefreshAction::ReadExpiry(p) && p@ == certs@[0].cert_path@
                    && !r.0.finished()
            } else {
                r.1 matches RefreshAction::Done(Ok(rs)) && rs@.len() == 0 && r.0.finished()
            },
    {
        let mut s = ExpiryRefresh {
            certs,
            next: 0,
            entries: Vec::new(),
            within,
            waiting_store: false,
            finished: false,
        };
        let a = s.next_read();
        proof {
            assert(due_reminders(Seq::<CertExpiry>::empty(), within) =~= Seq::<CertReminder>::empty());
        }
        (s, a)
    }

    /// The expiry of the certificate just named was read: a known expiry
    /// is stored before the next certificate; an error ends the refresh.
    pub fn on_expiry(&mut self, r: Result<Option<(String, i64)>, String>) -> (a: RefreshAction)
        requires
            old(self).wf(),
            !old(self).finished(),
            !old(self).storing(),
            old(self).read() < old(self).certs().len(),
        ensures
            final(self).wf(),
            final(self).certs() == old(self).certs(),
            final(self).within() == old(self).within(),
            match r {
                Err(e) => a matches RefreshAction::Done(Err(m)) && m@ == e@ && final(self).finished(),
                Ok(found) => {
                    &&& final(self).read() == old(self).read() + 1
                    &&& final(self).entries() == old(self).entries().push(
                        CertExpiry {
                            domain: old(self).certs()[old(self).read() as int].domain,
                            expiry: found,
                        },
                    )
                    &&& match found {
                        Some((at, _)) => a matches RefreshAction::StoreExpiry(id, t) && id == old(self).certs()[old(self).read() as int].id && t@ == at@ && final(self).storing()
                            && !final(self).finished(),
                        None => {
                            &&& !final(self).storing()
                            &&& if final(self).read() < final(self).certs().len() {
                                a matches RefreshAction::ReadExpiry(p) && p@ == final(self).certs()[final(self).read() as int].cert_path@
                                    && !final(self).finished()
                            } else {
                                a matches RefreshAction::Done(Ok(rs)) && rs@ == sort_by_days(
                                    due_reminders(final(self).entries(), final(self).within()),
                                ) && final(self).finished()
                            }
                        },
                    }
                },
            },
    {
        match r {
            Err(e) => {
                self.finished = true;
                RefreshAction::Done(Err(e))
            },
            Ok(found) => {
                let i = self.next;
                let n = self.certs.len();
                assert(i < n);
                let id = self.certs[i].id;
                let domain = self.certs[i].domain.clone();
                let store = match &found {
                    Some((at, _)) => Some(at.clone()),
                    None => None,
                };
                self.entries.push(CertExpiry { domain, expiry: found });
                self.next = i + 1;
                match store {
                    Some(at) => {
                        self.waiting_store = true;
                        RefreshAction::StoreExpiry(id, at)
                    },
                    None => self.next_read(),
                }
            },
        }
    }

    /// The expiry was stored (whether or not that succeeded); the next
    /// certificate follows.
    pub fn on_stored(&mut self) -> (a: RefreshAction)
        requires
            old(self).wf(),
            old(self).storing(),
            !old(self).finished(),
        ensures
            final(self).wf(),
            final(self).certs() == old(self).certs(),
            final(self).entries() == old(self).entries(),
            final(self).read() == old(self).read(),
            !final(self).storing(),
            if old(self).read() < old(self).certs().len() {
                a matches RefreshAction::ReadExpiry(p) && p@ == old(self).certs()[old(self).read() as int].cert_path@ && !final(self).finished()
            } else {
                a matches RefreshAction::Done(Ok(rs)) && rs@ == sort_by_days(
                    due_reminders(old(self).entries(), old(self).within()),
                ) && final(self).finished()
            },
    {
        self.next_read()
    }
}

} // verus!
