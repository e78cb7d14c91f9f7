//! Uploading an existing certificate and key through a multipart form.

use vstd::prelude::*;

use crate::ops::uploaded_cert_paths;
use crate::reply::{status, Reply, ReplyView};
use crate::text::str_eq;

verus! {

/// Which form field a multipart part is, by its name.
#[derive(Debug, Clone, Copy, PartialEq, Eq)]
pub enum UploadFieldKind {
    Name,
    Domain,
    CertFile,
    KeyFile,
    Other,
}

/// Which form field a part named `name` is.
pub fn upload_field_kind(name: &str) -> (k: UploadFieldKind)
    ensures
        k == (if name@ == "name"@ {
            UploadFieldKind::Name
        } else if name@ == "domain"@ {
            UploadFieldKind::Domain
        } else if name@ == "cert_file"@ {
            UploadFieldKind::CertFile
        } else if name@ == "key_file"@ {
            UploadFieldKind::KeyFile
        } else {
            UploadFieldKind::Other
        }),
{
    if str_eq(name, "name") {
        UploadFieldKind::Name
    } else if str_eq(name, "domain") {
        UploadFieldKind::Domain
    } else if str_eq(name, "cert_file") {
        UploadFieldKind::CertFile
    } else if str_eq(name, "key_file") {
        UploadFieldKind::KeyFile
    } else {
        UploadFieldKind::Other
    }
}

/// A part of the upload form as read: the text of a text field (empty
/// where it could not be read), the bytes of a file (`None` where they
/// could not be read), or a part that is not used.
pub enum UploadPart {
    Name(String),
    Domain(String),
    CertFile(Option<Vec<u8>>),
    KeyFile(Option<Vec<u8>>),
    Other,
}

/// The upload form as far as it has been read; a later part replaces an
/// earlier one of the same field.
pub struct CertUpload {
    pub name: String,
    pub domain: String,
    pub cert: Option<Vec<u8>>,
    pub key: Option<Vec<u8>>,
}

/// What is stored for an accepted upload.
pub struct UploadPlan {
    pub name: String,
    pub domain: String,
    pub cert_path: String,
    pub key_path: String,
    pub cert_bytes: Vec<u8>,
    pub key_bytes: Vec<u8>,
}

/// Whether an upload holds every field it needs: a name and a domain that
/// are not empty, and both files.
pub open spec fn upload_complete(u: CertUpload) -> bool {
    u.name@.len() > 0 && u.domain@.len() > 0 && u.cert is Some && u.key is Some
}

impl CertUpload {
    /// Nothing read yet.
    pub fn new() -> (u: CertUpload)
        ensures
            u.name@ == Seq::<char>::empty(),
            u.domain@ == Seq::<char>::empty(),
            u.cert is None,
            u.key is None,
    {
        CertUpload { name: String::new(), domain: String::new(), cert: None, key: None }
    }

    /// Takes in one part of the form.
    pub fn accept(&mut self, part: UploadPart)
        ensures
            match part {
                UploadPart::Name(v) => final(self).name == v && final(self).domain == old(self).domain
                    && final(self).cert == old(self).cert && final(self).key == old(self).key,
                UploadPart::Domain(v) => final(self).domain == v && final(self).name == old(self).name
                    && final(self).cert == old(self).cert && final(self).key == old(self).key,
                UploadPart::CertFile(b) => final(self).cert == b && final(self).name == old(self).name
                    && final(self).domain == old(self).domain && final(self).key == old(self).key,
                UploadPart::KeyFile(b) => final(self).key == b && final(self).name == old(self).name
                    && final(self).domain == old(self).domain && final(self).cert == old(self).cert,
                UploadPart::Other => *final(self) == *old(self),
            },
    {
        match part {
            UploadPart::Name(v) => {
                self.name = v;
            },
            UploadPart::Domain(v) => {
                self.domain = v;
            },
            UploadPart::CertFile(b) => {
                self.cert = b;
            },
            UploadPart::KeyFile(b) => {
                self.key = b;
            },
            UploadPart::Other => {},
        }
    }

    /// Checks that every field is there and decides where the files go
    /// under `cert_dir`; else the answer is `400` with `缺少必填字段`.
    pub fn finish(self, cert_dir: &str) -> (r: Result<UploadPlan, Reply>)
        ensures
            upload_complete(self) <==> r is Ok,
            match r {
                Ok(p) => {
                    &&& p.name == self.name
                    &&& p.domain == self.domain
                    &&& p.cert_path@ == cert_dir@ + "/"@ + self.name@ + ".crt"@
                    &&& p.key_path@ == cert_dir@ + "/"@ + self.name@ + ".key"@
                    &&& self.cert == Some(p.cert_bytes)
                    &&& self.key == Some(p.key_bytes)
                },
                Err(reply) => reply@ == ReplyView::Status(400, "缺少必填字段"@),
            },
    {
        if self.name.as_str().is_empty() || self.domain.as_str().is_empty() || self.cert.is_none()
            || self.key.is_none() {
            return Err(status(400, "缺少必填字段"));
        }
        let (cert_path, key_path) = uploaded_cert_paths(cert_dir, self.name.as_str());
        let CertUpload { name, domain, cert, key } = self;
        Ok(UploadPlan {
            name,
            domain,
            cert_path,
            key_path,
            cert_bytes: cert.unwrap(),
            key_bytes: key.unwrap(),
        })
    }
}

/// The audit detail of an uploaded certificate.
pub fn upload_audit_detail(name: &str, domain: &str) -> (r: String)
    ensures
        r@ == "name="@ + name@ + " domain="@ + domain@,
{
    let mut s = String::from_str("name=");
    s.append(name);
    s.append(" domain=");
    s.append(domain);
    s
}

} // verus!
