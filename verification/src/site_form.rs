//! Checking the site form before anything is stored.

use vstd::prelude::*;

use crate::models::CreateSiteForm;
use crate::text::{dec_int, push_dec_i64, str_eq, trim, trim_str};

verus! {

/// An optional text field, trimmed, with a blank one counted as absent.
pub open spec fn normalized(value: Option<Seq<char>>) -> Option<Seq<char>> {
    match value {
        Some(v) => if trim(v).len() == 0 {
            None
        } else {
            Some(trim(v))
        },
        None => None,
    }
}

/// The view of an optional string.
pub open spec fn opt_view(value: Option<String>) -> Option<Seq<char>> {
    match value {
        Some(v) => Some(v@),
        None => None,
    }
}

/// Trims an optional text field and drops it where nothing is left.
pub fn normalize_opt(value: Option<String>) -> (r: Option<String>)
    ensures
        opt_view(r) == normalized(opt_view(value)),
{
    match value {
        Some(v) => {
            let t = trim_str(v.as_str());
            if t.as_str().is_empty() {
                None
            } else {
                Some(t)
            }
        },
        None => None,
    }
}

/// Why a site form is refused before any lookup.
#[derive(Debug, Clone, Copy, PartialEq, Eq)]
pub enum SiteFormError {
    /// The type is neither `proxy` nor `static`.
    InvalidType,
    /// A reverse-proxy site without an upstream address.
    MissingUpstream,
    /// A static site without a root directory.
    MissingRootDir,
}

impl SiteFormError {
    /// The text that the console answers with.
    pub open spec fn spec_message(self) -> Seq<char> {
        match self {
            SiteFormError::InvalidType => "站点类型必须是“反向代理”或“静态站点”"@,
            SiteFormError::MissingUpstream => "反向代理站点必须填写代理目标地址"@,
            SiteFormError::MissingRootDir => "静态站点必须填写站点目录"@,
        }
    }

    /// The text that the console answers with.
    pub fn message(&self) -> (r: String)
        ensures
            r@ == self.spec_message(),
    {
        match self {
            SiteFormError::InvalidType => String::from_str("站点类型必须是“反向代理”或“静态站点”"),
            SiteFormError::MissingUpstream => String::from_str("反向代理站点必须填写代理目标地址"),
            SiteFormError::MissingRootDir => String::from_str("静态站点必须填写站点目录"),
        }
    }
}

/// A site form that passed the checks, with its fields as they are stored.
#[derive(Debug, Clone)]
pub struct SiteInput {
    pub name: String,
    pub domain: String,
    pub site_type: String,
    pub upstream: Option<String>,
    pub root_dir: Option<String>,
    pub port: i64,
}

/// The outcome of checking a site form: the stored fields, or the refusal.
pub open spec fn site_form_outcome(form: CreateSiteForm) -> Result<
    (Seq<char>, Option<Seq<char>>, Option<Seq<char>>),
    SiteFormError,
> {
    let t = trim(form.site_type@);
    let up = normalized(opt_view(form.upstream));
    let root = normalized(opt_view(form.root_dir));
    if t != "proxy"@ && t != "static"@ {
        Err(SiteFormError::InvalidType)
    } else if t == "proxy"@ && up is None {
        Err(SiteFormError::MissingUpstream)
    } else if t == "static"@ && root is None {
        Err(SiteFormError::MissingRootDir)
    } else {
        Ok((t, up, root))
    }
}

/// Checks a site form: the type, trimmed, must be `proxy` or `static`, and
/// the field that the type needs must hold more than whitespace.
pub fn check_site_form(form: CreateSiteForm) -> (r: Result<SiteInput, SiteFormError>)
    ensures
        match r {
            Ok(input) => {
                &&& site_form_outcome(form) == Ok::<_, SiteFormError>(
                    (input.site_type@, opt_view(input.upstream), opt_view(input.root_dir)),
                )
                &&& input.name@ == form.name@
                &&& input.domain@ == form.domain@
                &&& input.port == form.port as i64
            },
            Err(e) => site_form_outcome(form) == Err::<
                (Seq<char>, Option<Seq<char>>, Option<Seq<char>>),
                SiteFormError,
            >(e),
        },
{
    let ghost f = form;
    let port = form.port as i64;
    let site_type = trim_str(form.site_type.as_str());
    let is_proxy = str_eq(site_type.as_str(), "proxy");
    let is_static = str_eq(site_type.as_str(), "static");
    if !is_proxy && !is_static {
        return Err(SiteFormError::InvalidType);
    }
    let upstream = normalize_opt(form.upstream);
    let root_dir = normalize_opt(form.root_dir);
    if is_proxy && upstream.is_none() {
        return Err(SiteFormError::MissingUpstream);
    }
    if is_static && root_dir.is_none() {
        return Err(SiteFormError::MissingRootDir);
    }
    Ok(SiteInput { name: form.name, domain: form.domain, site_type, upstream, root_dir, port })
}

/// The answer where another site already uses the domain.
pub open spec fn domain_conflict_text(id: i64, name: Seq<char>) -> Seq<char> {
    "域名已被站点 #"@ + dec_int(id as int) + "（"@ + name + "）使用"@
}

/// The answer where another site already uses the domain.
pub fn domain_conflict_message(id: i64, name: &str) -> (r: String)
    ensures
        r@ == domain_conflict_text(id, name@),
{
    let mut out = String::from_str("域名已被站点 #");
    push_dec_i64(&mut out, id);
    out.append("（");
    out.append(name);
    out.append("）使用");
    assert(out@ =~= domain_conflict_text(id, name@));
    out
}

/// The answer where another site already listens on the port.
pub open spec fn port_conflict_text(port: i64, id: i64, name: Seq<char>, domain: Seq<char>) -> Seq<
    char,
> {
    "端口 "@ + dec_int(port as int) + " 已被站点 #"@ + dec_int(id as int) + "（"@ + name + ", "@
        + domain + "）使用"@
}

/// The answer where another site already listens on the port.
pub fn port_conflict_message(port: i64, id: i64, name: &str, domain: &str) -> (r: String)
    ensures
        r@ == port_conflict_text(port, id, name@, domain@),
{
    let mut out = String::from_str("端口 ");
    push_dec_i64(&mut out, port);
    out.append(" 已被站点 #");
    push_dec_i64(&mut out, id);
    out.append("（");
    out.append(name);
    out.append(", ");
    out.append(domain);
    out.append("）使用");
    assert(out@ =~= port_conflict_text(port, id, name@, domain@));
    out
}

} // verus!
