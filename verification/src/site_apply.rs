//! Putting a site's configuration in place and taking it away again, with
//! the earlier files restored where Nginx refuses the result.

use vstd::prelude::*;

use crate::models::{Certificate, Site};
use crate::site_config::{
    check_site_domain, deref_cert, render_site_config, site_config_text, SiteConfigError,
};
use crate::text::trim;

verus! {

/// What to do with the `sites-enabled` link of a site.
#[derive(Debug, Clone, Copy, PartialEq, Eq)]
pub enum LinkStep {
    /// Leave it as it is.
    Keep,
    /// Create the link.
    Create,
    /// Remove the link.
    Remove,
}

/// How the link is brought to the wanted state: created where it should be
/// on and is missing, removed where it should be off and exists.
pub fn link_step(on: bool, exists: bool) -> (r: LinkStep)
    ensures
        r == (if on && !exists {
            LinkStep::Create
        } else if !on && exists {
            LinkStep::Remove
        } else {
            LinkStep::Keep
        }),
{
    if on {
        if exists {
            LinkStep::Keep
        } else {
            LinkStep::Create
        }
    } else if exists {
        LinkStep::Remove
    } else {
        LinkStep::Keep
    }
}

/// The next file-system or Nginx step of an apply or a removal.
pub enum FileAction {
    /// Create both site directories (failures ignored), keep the current
    /// configuration file's bytes and whether the link exists.
    Snapshot,
    /// Write this configuration to a temporary file and move it in place.
    WriteConfig(String),
    /// Bring the link to this state.
    SetLink(bool),
    /// Remove the link, where it exists.
    RemoveLink,
    /// Remove the configuration file, where it exists.
    RemoveConfig,
    /// Test the configuration with `nginx -t`.
    TestConfig,
    /// Reload Nginx.
    Reload,
    /// Put these bytes back as the configuration file (failure ignored).
    RestoreConfig(Vec<u8>),
    /// Delete the configuration file (failure ignored).
    DropConfig,
    /// Bring the link back to this state (failure ignored).
    RestoreLink(bool),
    /// The operation is over, with this outcome.
    Done(Result<(), String>),
}

/// Where an apply or a removal stands.
#[derive(Debug, Clone, Copy, PartialEq, Eq)]
pub enum FileStage {
    AwaitSnapshot,
    AwaitWrite,
    AwaitLink,
    AwaitRemoveLink,
    AwaitRemoveConfig,
    AwaitTest,
    AwaitReload,
    AwaitRestoreConfig,
    AwaitRestoreLink,
    Finished,
}

/// An apply (`removing` false) or a removal of a site's configuration.
pub struct SiteFiles {
    removing: bool,
    rendered: Result<String, SiteConfigError>,
    enable: bool,
    old_conf: Option<Vec<u8>>,
    old_enabled: bool,
    error: String,
    stage: FileStage,
}

impl SiteFiles {
    /// The stage the operation is in.
    pub closed spec fn stage(&self) -> FileStage {
        self.stage
    }

    /// Whether this is a removal.
    pub closed spec fn removing(&self) -> bool {
        self.removing
    }

    /// The configuration that an apply writes, or why there is none.
    pub closed spec fn rendered(&self) -> Result<Seq<char>, SiteConfigError> {
        match self.rendered {
            Ok(s) => Ok(s@),
            Err(e) => Err(e),
        }
    }

    /// Whether an apply leaves the site enabled.
    pub closed spec fn enable(&self) -> bool {
        self.enable
    }

    /// The configuration file's bytes before the operation, if it existed.
    pub closed spec fn old_conf(&self) -> Option<Seq<u8>> {
        match self.old_conf {
            Some(b) => Some(b@),
            None => None,
        }
    }

    /// Whether the link existed before the operation.
    pub closed spec fn old_enabled(&self) -> bool {
        self.old_enabled
    }

    /// The error that the operation ends with, once there is one.
    pub closed spec fn error(&self) -> Seq<char> {
        self.error@
    }

    /// Whether this is a removal.
    pub fn is_removal(&self) -> (r: bool)
        ensures
            r == self.removing(),
    {
        self.removing
    }

    /// The stage the operation is in.
    pub fn current_stage(&self) -> (r: FileStage)
        ensures
            r == self.stage(),
    {
        self.stage
    }

    /// Starts applying `site` with `cert`: a blank domain is refused at
    /// once; else the current files are looked at first.
    pub fn start_apply(site: &Site, cert: Option<&Certificate>) -> (r: (SiteFiles, FileAction))
        ensures
            !r.0.removing(),
            if trim(site.domain@).len() == 0 {
                r.1 matches FileAction::Done(Err(m)) && m@ == SiteConfigError::EmptyDomain.spec_message()
                    && r.0.stage() == FileStage::Finished
            } else {
                &&& r.1 matches FileAction::Snapshot
                &&& r.0.stage() == FileStage::AwaitSnapshot
                &&& r.0.rendered() == site_config_text(*site, deref_cert(cert))
                &&& r.0.enable() == (site.enabled == 1)
            },
    {
        let blank = SiteFiles {
            removing: false,
            rendered: Err(SiteConfigError::EmptyDomain),
            enable: site.enabled == 1,
            old_conf: None,
            old_enabled: false,
            error: String::new(),
            stage: FileStage::Finished,
        };
        match check_site_domain(site) {
            Err(e) => (blank, FileAction::Done(Err(e.message()))),
            Ok(()) => {
                let rendered = render_site_config(site, cert);
                let s = SiteFiles { rendered, stage: FileStage::AwaitSnapshot, ..blank };
                (s, FileAction::Snapshot)
            },
        }
    }

    /// Starts removing a site's configuration: the current files are
    /// looked at first.
    pub fn start_remove() -> (r: (SiteFiles, FileAction))
        ensures
            r.0.removing(),
            r.0.stage() == FileStage::AwaitSnapshot,
            r.1 matches FileAction::Snapshot,
    {
        (
            SiteFiles {
                removing: true,
                rendered: Err(SiteConfigError::EmptyDomain),
                enable: false,
                old_conf: None,
                old_enabled: false,
                error: String::new(),
                stage: FileStage::AwaitSnapshot,
            },
            FileAction::Snapshot,
        )
    }

    /// The current configuration (if any) and link state were recorded.
    pub fn on_snapshot(&mut self, old_conf: Option<Vec<u8>>, old_enabled: bool) -> (a: FileAction)
        requires
            old(self).stage() == FileStage::AwaitSnapshot,
        ensures
            final(self).removing() == old(self).removing(),
            final(self).enable() == old(self).enable(),
            final(self).old_conf() == (match old_conf {
                Some(b) => Some(b@),
                None => None::<Seq<u8>>,
            }),
            final(self).old_enabled() == old_enabled,
            if old(self).removing() {
                a matches FileAction::RemoveLink && final(self).stage() == FileStage::AwaitRemoveLink
            } else {
                match old(self).rendered() {
                    Err(e) => a matches FileAction::Done(Err(m)) && m@ == e.spec_message() && final(self).stage() == FileStage::Finished,
                    Ok(text) => a matches FileAction::WriteConfig(c) && c@ == text && final(self).stage() == FileStage::AwaitWrite,
                }
            },
    {
        self.old_conf = old_conf;
        self.old_enabled = old_enabled;
        if self.removing {
            self.stage = FileStage::AwaitRemoveLink;
            return FileAction::RemoveLink;
        }
        let mut rendered: Result<String, SiteConfigError> = Err(SiteConfigError::EmptyDomain);
        std::mem::swap(&mut rendered, &mut self.rendered);
        match rendered {
            Err(e) => {
                self.rendered = Err(e);
                self.stage = FileStage::Finished;
                FileAction::Done(Err(e.message()))
            },
            Ok(text) => {
                let c = text.clone();
                self.rendered = Ok(text);
                self.stage = FileStage::AwaitWrite;
                FileAction::WriteConfig(c)
            },
        }
    }

    fn step_or_fail(&mut self, r: Result<(), String>, next: FileStage, action: FileAction) -> (a:
        FileAction)
        ensures
            final(self).removing() == old(self).removing(),
            final(self).enable() == old(self).enable(),
            final(self).old_conf() == old(self).old_conf(),
            final(self).old_enabled() == old(self).old_enabled(),
            match r {
                Err(e) => a matches FileAction::Done(Err(m)) && m@ == e@ && final(self).stage()
                    == FileStage::Finished,
                Ok(()) => a == action && final(self).stage() == next,
            },
    {
        match r {
            Err(e) => {
                self.stage = FileStage::Finished;
                FileAction::Done(Err(e))
            },
            Ok(()) => {
                self.stage = next;
                action
            },
        }
    }

    /// The configuration was written (or the write failed).
    pub fn on_written(&mut self, r: Result<(), String>) -> (a: FileAction)
        requires
            old(self).stage() == FileStage::AwaitWrite,
        ensures
            final(self).removing() == old(self).removing(),
            final(self).old_conf() == old(self).old_conf(),
            final(self).old_enabled() == old(self).old_enabled(),
            match r {
                Err(e) => a matches FileAction::Done(Err(m)) && m@ == e@ && final(self).stage()
                    == FileStage::Finished,
                Ok(()) => a matches FileAction::SetLink(on) && on == old(self).enable() && final(self).stage() == FileStage::AwaitLink,
            },
    {
        let on = self.enable;
        self.step_or_fail(r, FileStage::AwaitLink, FileAction::SetLink(on))
    }

    /// The link was brought to the wanted state (or that failed).
    pub fn on_link_set(&mut self, r: Result<(), String>) -> (a: FileAction)
        requires
            old(self).stage() == FileStage::AwaitLink,
        ensures
            final(self).removing() == old(self).removing(),
            final(self).old_conf() == old(self).old_conf(),
            final(self).old_enabled() == old(self).old_enabled(),
            match r {
                Err(e) => a matches FileAction::Done(Err(m)) && m@ == e@ && final(self).stage()
                    == FileStage::Finished,
                Ok(()) => a matches FileAction::TestConfig && final(self).stage() == FileStage::AwaitTest,
            },
    {
        self.step_or_fail(r, FileStage::AwaitTest, FileAction::TestConfig)
    }

    /// The link was removed (or that failed).
    pub fn on_link_removed(&mut self, r: Result<(), String>) -> (a: FileAction)
        requires
            old(self).stage() == FileStage::AwaitRemoveLink,
        ensures
            final(self).removing() == old(self).removing(),
            final(self).old_conf() == old(self).old_conf(),
            final(self).old_enabled() == old(self).old_enabled(),
            match r {
                Err(e) => a matches FileAction::Done(Err(m)) && m@ == e@ && final(self).stage()
                    == FileStage::Finished,
                Ok(()) => a matches FileAction::RemoveConfig && final(self).stage()
                    == FileStage::AwaitRemoveConfig,
            },
    {
        self.step_or_fail(r, FileStage::AwaitRemoveConfig, FileAction::RemoveConfig)
    }

    /// The configuration file was removed (or that failed).
    pub fn on_config_removed(&mut self, r: Result<(), String>) -> (a: FileAction)
        requires
            old(self).stage() == FileStage::AwaitRemoveConfig,
        ensures
            final(self).removing() == old(self).removing(),
            final(self).old_conf() == old(self).old_conf(),
            final(self).old_enabled() == old(self).old_enabled(),
            match r {
                Err(e) => a matches FileAction::Done(Err(m)) && m@ == e@ && final(self).stage()
                    == FileStage::Finished,
                Ok(()) => a matches FileAction::TestConfig && final(self).stage() == FileStage::AwaitTest,
            },
    {
        self.step_or_fail(r, FileStage::AwaitTest, FileAction::TestConfig)
    }

    fn roll_back(&mut self, e: String) -> (a: FileAction)
        ensures
            final(self).removing() == old(self).removing(),
            final(self).old_conf() == old(self).old_conf(),
            final(self).old_enabled() == old(self).old_enabled(),
            final(self).error() == e@,
            match old(self).old_conf() {
                Some(b) => a matches FileAction::RestoreConfig(bytes) && bytes@ == b && final(self).stage() == FileStage::AwaitRestoreConfig,
                None => if old(self).removing() {
                    a == FileAction::RestoreLink(old(self).old_enabled()) && final(self).stage()
                        == FileStage::AwaitRestoreLink
                } else {
                    a matches FileAction::DropConfig && final(self).stage()
                        == FileStage::AwaitRestoreConfig
                },
            },
    {
        self.error = e;
        match &self.old_conf {
            Some(b) => {
                self.stage = FileStage::AwaitRestoreConfig;
                FileAction::RestoreConfig(b.clone())
            },
            None => {
                if self.removing {
                    self.stage = FileStage::AwaitRestoreLink;
                    FileAction::RestoreLink(self.old_enabled)
                } else {
                    self.stage = FileStage::AwaitRestoreConfig;
                    FileAction::DropConfig
                }
            },
        }
    }

    /// `nginx -t` accepted the configuration, and Nginx is reloaded next;
    /// or it refused it, and the earlier state is put back: the
    /// configuration file first (an apply that created the file deletes it
    /// again; a removal puts back only a file that existed), then the link.
    pub fn on_tested(&mut self, r: Result<(), String>) -> (a: FileAction)
        requires
            old(self).stage() == FileStage::AwaitTest,
        ensures
            final(self).removing() == old(self).removing(),
            final(self).old_conf() == old(self).old_conf(),
            final(self).old_enabled() == old(self).old_enabled(),
            match r {
                Ok(()) => a matches FileAction::Reload && final(self).stage()
                    == FileStage::AwaitReload,
                Err(e) => final(self).error() == e@ && match old(self).old_conf() {
                    Some(b) => a matches FileAction::RestoreConfig(bytes) && bytes@ == b && final(self).stage() == FileStage::AwaitRestoreConfig,
                    None => if old(self).removing() {
                        a == FileAction::RestoreLink(old(self).old_enabled()) && final(self).stage()
                            == FileStage::AwaitRestoreLink
                    } else {
                        a matches FileAction::DropConfig && final(self).stage()
                            == FileStage::AwaitRestoreConfig
                    },
                },
            },
    {
        match r {
            Ok(()) => {
                self.stage = FileStage::AwaitReload;
                FileAction::Reload
            },
            Err(e) => self.roll_back(e),
        }
    }

    /// Nginx reloaded the configuration, or the reload failed, and the
    /// earlier state is put back as after a refused test.
    pub fn on_reloaded(&mut self, r: Result<(), String>) -> (a: FileAction)
        requires
            old(self).stage() == FileStage::AwaitReload,
        ensures
            final(self).removing() == old(self).removing(),
            final(self).old_conf() == old(self).old_conf(),
            final(self).old_enabled() == old(self).old_enabled(),
            match r {
                Ok(()) => a matches FileAction::Done(Ok(())) && final(self).stage()
                    == FileStage::Finished,
                Err(e) => final(self).error() == e@ && match old(self).old_conf() {
                    Some(b) => a matches FileAction::RestoreConfig(bytes) && bytes@ == b && final(self).stage() == FileStage::AwaitRestoreConfig,
                    None => if old(self).removing() {
                        a == FileAction::RestoreLink(old(self).old_enabled()) && final(self).stage()
                            == FileStage::AwaitRestoreLink
                    } else {
                        a matches FileAction::DropConfig && final(self).stage()
                            == FileStage::AwaitRestoreConfig
                    },
                },
            },
    {
        match r {
            Ok(()) => {
                self.stage = FileStage::Finished;
                FileAction::Done(Ok(()))
            },
            Err(e) => self.roll_back(e),
        }
    }

    /// The configuration file was put back (or deleted).
    pub fn on_config_restored(&mut self) -> (a: FileAction)
        requires
            old(self).stage() == FileStage::AwaitRestoreConfig,
        ensures
            final(self).error() == old(self).error(),
            final(self).old_enabled() == old(self).old_enabled(),
            final(self).stage() == FileStage::AwaitRestoreLink,
            a == FileAction::RestoreLink(old(self).old_enabled()),
    {
        self.stage = FileStage::AwaitRestoreLink;
        FileAction::RestoreLink(self.old_enabled)
    }

    /// The link was put back; the operation fails with Nginx's complaint.
    pub fn on_link_restored(&mut self) -> (a: FileAction)
        requires
            old(self).stage() == FileStage::AwaitRestoreLink,
        ensures
            final(self).stage() == FileStage::Finished,
            a matches FileAction::Done(Err(m)) && m@ == old(self).error(),
    {
        self.stage = FileStage::Finished;
        FileAction::Done(Err(self.error.clone()))
    }
}

} // verus!
