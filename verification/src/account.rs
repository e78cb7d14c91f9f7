//! Changing the administrator's password, as a machine that is told what a
//! step gave and answers with the next step.

use vstd::prelude::*;

use crate::models::ChangePasswordForm;
use crate::pages::{layout_text, nav_html};
use crate::passwords::{max_password_bytes, spec_password_matches};
use vstd::utf8::encode_utf8;
use crate::reply::{fail_with, failure_reply, Reply, ReplyView};
use crate::steps::{check_new_password, password_audit, password_changed, prepare_password_change, AuditEntry};

verus! {

/// The next step of a password change.
pub enum PasswordAction {
    /// Read the name and the stored hash of the user with this id.
    LoadUser(i64),
    /// Store this hash as the password of the user with this id.
    StoreHash(i64, String),
    /// Record an audit entry.
    Audit(AuditEntry),
    /// Answer the request; the flow is over.
    Respond(Reply),
}

/// Where a password change stands.
#[derive(Debug, Clone, Copy, PartialEq, Eq)]
pub enum PasswordStage {
    AwaitUser,
    AwaitStore,
    AwaitAudit,
    Finished,
}

/// A password change by the logged-in user.
pub struct PasswordFlow {
    user_id: i64,
    form: ChangePasswordForm,
    username: String,
    stage: PasswordStage,
}

impl PasswordFlow {
    /// The stage the change is in.
    pub closed spec fn stage(&self) -> PasswordStage {
        self.stage
    }

    /// The user whose password changes.
    pub closed spec fn user_id(&self) -> i64 {
        self.user_id
    }

    /// The submitted form.
    pub closed spec fn form(&self) -> ChangePasswordForm {
        self.form
    }

    /// The user's name, once read.
    pub closed spec fn username(&self) -> Seq<char> {
        self.username@
    }

    /// A change waiting for the user's record has a long enough password.
    pub closed spec fn wf(&self) -> bool {
        self.stage == PasswordStage::AwaitUser ==> (encode_utf8(self.form.new_password@).len() as usize) >= 8
    }

    /// The stage the change is in.
    pub fn current_stage(&self) -> (r: PasswordStage)
        ensures
            r == self.stage(),
    {
        self.stage
    }

    /// Starts a password change for `user_id`: a new password under 8
    /// bytes is refused at once, else the user's record is read.
    pub fn start(user_id: i64, form: ChangePasswordForm) -> (r: (PasswordFlow, PasswordAction))
        ensures
            r.0.wf(),
            r.0.user_id() == user_id,
            r.0.form() == form,
            if (encode_utf8(form.new_password@).len() as usize) < 8 {
                r.1 matches PasswordAction::Respond(reply) && reply@ == ReplyView::Status(
                    400,
                    "新密码长度至少 8 位"@,
                ) && r.0.stage() == PasswordStage::Finished
            } else {
                r.1 == PasswordAction::LoadUser(user_id) && r.0.stage() == PasswordStage::AwaitUser
            },
    {
        match check_new_password(form.new_password.as_str()) {
            Err(reply) => (
                PasswordFlow { user_id, form, username: String::new(), stage: PasswordStage::Finished },
                PasswordAction::Respond(reply),
            ),
            Ok(()) => (
                PasswordFlow { user_id, form, username: String::new(), stage: PasswordStage::AwaitUser },
                PasswordAction::LoadUser(user_id),
            ),
        }
    }

    /// The user's name and stored hash were read (or not). Only where the
    /// current password matches the stored hash is a new hash stored, and
    /// that hash verifies against the new password; it is stored whenever
    /// the current password matches, unless the new one is longer than
    /// Argon2 accepts.
    pub fn on_user(&mut self, user: Result<(String, String), String>) -> (a: PasswordAction)
        requires
            old(self).wf(),
            old(self).stage() == PasswordStage::AwaitUser,
        ensures
            final(self).user_id() == old(self).user_id(),
            match a {
                PasswordAction::StoreHash(id, hash) => {
                    &&& id == old(self).user_id()
                    &&& user matches Ok((n, h)) && spec_password_matches(
                        old(self).form().current_password@,
                        h@,
                    ) && final(self).username() == n@
                    &&& spec_password_matches(old(self).form().new_password@, hash@)
                    &&& final(self).stage() == PasswordStage::AwaitStore
                },
                PasswordAction::Respond(reply) => {
                    &&& final(self).stage() == PasswordStage::Finished
                    &&& match user {
                        Err(_) => reply@ == ReplyView::Status(500, "查询当前用户失败"@),
                        Ok((n, h)) => if !spec_password_matches(old(self).form().current_password@, h@) {
                            reply@ == ReplyView::Status(400, "当前密码不正确"@)
                        } else {
                            reply@ == ReplyView::Status(500, "密码加密失败"@) && encode_utf8(
                                old(self).form().new_password@,
                            ).len() > max_password_bytes()
                        },
                    }
                },
                _ => false,
            },
    {
        match prepare_password_change(
            self.form.current_password.as_str(),
            self.form.new_password.as_str(),
            user,
        ) {
            Err(reply) => {
                self.stage = PasswordStage::Finished;
                PasswordAction::Respond(reply)
            },
            Ok((name, hash)) => {
                self.username = name;
                self.stage = PasswordStage::AwaitStore;
                PasswordAction::StoreHash(self.user_id, hash)
            },
        }
    }

    /// The new hash was stored (or not).
    pub fn on_stored(&mut self, r: Result<(), String>) -> (a: PasswordAction)
        requires
            old(self).stage() == PasswordStage::AwaitStore,
        ensures
            match r {
                Err(e) => a matches PasswordAction::Respond(reply) && reply@ == failure_reply(
                    400,
                    "更新密码失败："@,
                    e@,
                ) && final(self).stage() == PasswordStage::Finished,
                Ok(()) => a matches PasswordAction::Audit(entry) && entry.actor@ == old(self).username()
                    && entry.action@ == "修改密码"@ && entry.detail@ == "管理员修改密码"@ && final(self).stage() == PasswordStage::AwaitAudit,
            },
    {
        match r {
            Err(e) => {
                self.stage = PasswordStage::Finished;
                PasswordAction::Respond(fail_with(400, "更新密码失败：", e.as_str()))
            },
            Ok(()) => {
                self.stage = PasswordStage::AwaitAudit;
                PasswordAction::Audit(password_audit(self.username.as_str()))
            },
        }
    }

    /// The audit entry was recorded; the answer confirms the change.
    pub fn on_audited(&mut self) -> (a: PasswordAction)
        requires
            old(self).stage() == PasswordStage::AwaitAudit,
        ensures
            final(self).stage() == PasswordStage::Finished,
            a matches PasswordAction::Respond(reply) && reply@ == ReplyView::Page(
                layout_text("系统设置"@, nav_html() + "<p>密码修改成功，请妥善保管。</p>"@),
            ),
    {
        self.stage = PasswordStage::Finished;
        PasswordAction::Respond(password_changed())
    }
}

} // verus!
