//! The Nginx `server` block that the console writes for a site.

use vstd::prelude::*;

use crate::models::{Certificate, Site};
use crate::text::{dec_int, lemma_occurs_between, occurs_in, push_dec_i64, str_eq, trim, trim_str};

verus! {

/// Why a site cannot be turned into an Nginx configuration.
#[derive(Debug, Clone, Copy, PartialEq, Eq)]
pub enum SiteConfigError {
    /// The domain is empty once whitespace is trimmed.
    EmptyDomain,
    /// A reverse-proxy site without an upstream address.
    MissingUpstream,
    /// A static site without a root directory.
    MissingRootDir,
    /// A site type other than `proxy` and `static`.
    InvalidSiteType,
}

impl SiteConfigError {
    /// The text that the console shows for this error.
    pub open spec fn spec_message(self) -> Seq<char> {
        match self {
            SiteConfigError::EmptyDomain => "域名不能为空"@,
            SiteConfigError::MissingUpstream => "反向代理站点缺少 upstream"@,
            SiteConfigError::MissingRootDir => "静态站点缺少 root_dir"@,
            SiteConfigError::InvalidSiteType => "无效的站点类型"@,
        }
    }

    /// The text that the console shows for this error.
    pub fn message(&self) -> (r: String)
        ensures
            r@ == self.spec_message(),
    {
        match self {
            SiteConfigError::EmptyDomain => String::from_str("域名不能为空"),
            SiteConfigError::MissingUpstream => String::from_str("反向代理站点缺少 upstream"),
            SiteConfigError::MissingRootDir => String::from_str("静态站点缺少 root_dir"),
            SiteConfigError::InvalidSiteType => String::from_str("无效的站点类型"),
        }
    }
}

/// The part of a site's configuration that depends on its type.
pub open spec fn location_part(site: Site) -> Result<Seq<char>, SiteConfigError> {
    if site.site_type@ == "proxy"@ {
        match site.upstream {
            Some(u) => Ok(
                "    location / {\n        proxy_set_header Host $host;\n        proxy_set_header X-Real-IP $remote_addr;\n        proxy_set_header X-Forwarded-For $proxy_add_x_forwarded_for;\n        proxy_set_header X-Forwarded-Proto $scheme;\n        proxy_pass "@
                    + u@ + ";\n    }\n"@,
            ),
            None => Err(SiteConfigError::MissingUpstream),
        }
    } else if site.site_type@ == "static"@ {
        match site.root_dir {
            Some(r) => Ok("    root "@ + r@ + ";\n    index index.html index.htm;\n"@),
            None => Err(SiteConfigError::MissingRootDir),
        }
    } else {
        Err(SiteConfigError::InvalidSiteType)
    }
}

/// The certificate behind an optional reference.
pub open spec fn deref_cert(cert: Option<&Certificate>) -> Option<Certificate> {
    match cert {
        Some(c) => Some(*c),
        None => None,
    }
}

/// The TLS lines for a bound certificate, empty without one.
pub open spec fn tls_part(cert: Option<Certificate>) -> Seq<char> {
    match cert {
        Some(c) => "    listen 443 ssl;\n    ssl_certificate "@ + c.cert_path@
            + ";\n    ssl_certificate_key "@ + c.key_path@ + ";\n"@,
        None => Seq::empty(),
    }
}

/// The full `server` block for a site, or why there is none.
pub open spec fn site_config_text(site: Site, cert: Option<Certificate>) -> Result<
    Seq<char>,
    SiteConfigError,
> {
    match location_part(site) {
        Ok(loc) => Ok(
            "server {\n    listen "@ + dec_int(site.port as int) + ";\n    server_name "@
                + site.domain@ + ";\n"@ + loc + tls_part(cert) + "}\n"@,
        ),
        Err(e) => Err(e),
    }
}

/// Renders the Nginx `server` block of `site`, with TLS lines for `cert`.
pub fn render_site_config(site: &Site, cert: Option<&Certificate>) -> (r: Result<
    String,
    SiteConfigError,
>)
    ensures
        match r {
            Ok(s) => site_config_text(*site, deref_cert(cert)) == Ok::<Seq<char>, SiteConfigError>(s@),
            Err(e) => site_config_text(*site, deref_cert(cert)) == Err::<Seq<char>, SiteConfigError>(e),
        },
{
    let mut out = String::from_str("server {\n    listen ");
    push_dec_i64(&mut out, site.port);
    out.append(";\n    server_name ");
    out.append(site.domain.as_str());
    out.append(";\n");
    let ghost head = out@;
    if str_eq(site.site_type.as_str(), "proxy") {
        match &site.upstream {
            Some(u) => {
                out.append(
                    "    location / {\n        proxy_set_header Host $host;\n        proxy_set_header X-Real-IP $remote_addr;\n        proxy_set_header X-Forwarded-For $proxy_add_x_forwarded_for;\n        proxy_set_header X-Forwarded-Proto $scheme;\n        proxy_pass ",
                );
                out.append(u.as_str());
                out.append(";\n    }\n");
            },
            None => {
                return Err(SiteConfigError::MissingUpstream);
            },
        }
    } else if str_eq(site.site_type.as_str(), "static") {
        match &site.root_dir {
            Some(root) => {
                out.append("    root ");
                out.append(root.as_str());
                out.append(";\n    index index.html index.htm;\n");
            },
            None => {
                return Err(SiteConfigError::MissingRootDir);
            },
        }
    } else {
        return Err(SiteConfigError::InvalidSiteType);
    }
    let ghost mid = out@;
    match cert {
        Some(c) => {
            out.append("    listen 443 ssl;\n    ssl_certificate ");
            out.append(c.cert_path.as_str());
            out.append(";\n    ssl_certificate_key ");
            out.append(c.key_path.as_str());
            out.append(";\n");
        },
        None => {},
    }
    out.append("}\n");
    proof {
        let loc = location_part(*site).unwrap();
        assert(mid =~= head + loc);
        assert(out@ =~= head + loc + tls_part(deref_cert(cert)) + "}\n"@);
    }
    Ok(out)
}

/// Law: binding a certificate changes a site's configuration only by the
/// TLS lines before the closing brace; whether a configuration exists at
/// all does not depend on the certificate.
pub proof fn lemma_certificate_adds_tls_lines(site: Site, cert: Certificate)
    ensures
        site_config_text(site, None) is Ok <==> site_config_text(site, Some(cert)) is Ok,
        site_config_text(site, None) matches Ok(plain) ==> {
            let body = plain.subrange(0, plain.len() - 2);
            &&& plain == body + "}\n"@
            &&& site_config_text(site, Some(cert)) == Ok::<Seq<char>, SiteConfigError>(
                body + tls_part(Some(cert)) + "}\n"@,
            )
        },
{
    match location_part(site) {
        Ok(loc) => {
            let head = "server {\n    listen "@ + dec_int(site.port as int) + ";\n    server_name "@
                + site.domain@ + ";\n"@ + loc;
            let plain = head + tls_part(None) + "}\n"@;
            assert(tls_part(None) =~= Seq::<char>::empty());
            assert(plain =~= head + "}\n"@);
            reveal_strlit("}\n");
            assert(plain.subrange(0, plain.len() - 2) =~= head);
            assert(site_config_text(site, None) == Ok::<Seq<char>, SiteConfigError>(plain));
        },
        Err(_) => {},
    }
}

/// Law: a reverse-proxy site with an upstream is configured to pass
/// requests to that upstream, whatever root directory it also has on
/// record (a site switched from static keeps it), with or without a
/// certificate.
pub proof fn lemma_proxy_site_passes_to_upstream(
    site: Site,
    other_root: Option<String>,
    cert: Option<Certificate>,
)
    requires
        site.site_type@ == "proxy"@,
        site.upstream is Some,
    ensures
        site_config_text(site, cert) matches Ok(t) && occurs_in(
            "proxy_pass "@ + site.upstream.unwrap()@ + ";"@,
            t,
        ),
        site_config_text((Site { root_dir: other_root, ..site }), cert) == site_config_text(
            site,
            cert,
        ),
{
    let u = site.upstream.unwrap()@;
    let lead = "    location / {\n        proxy_set_header Host $host;\n        proxy_set_header X-Real-IP $remote_addr;\n        proxy_set_header X-Forwarded-For $proxy_add_x_forwarded_for;\n        proxy_set_header X-Forwarded-Proto $scheme;\n        proxy_pass "@;
    let close = ";\n    }\n"@;
    reveal_strlit("    location / {\n        proxy_set_header Host $host;\n        proxy_set_header X-Real-IP $remote_addr;\n        proxy_set_header X-Forwarded-For $proxy_add_x_forwarded_for;\n        proxy_set_header X-Forwarded-Proto $scheme;\n        proxy_pass ");
    reveal_strlit("proxy_pass ");
    reveal_strlit(";\n    }\n");
    reveal_strlit(";");
    reveal_strlit("\n    }\n");
    let lead0 = lead.subrange(0, lead.len() - 11);
    assert(lead =~= lead0 + "proxy_pass "@);
    assert(close =~= ";"@ + "\n    }\n"@);
    let head = "server {\n    listen "@ + dec_int(site.port as int) + ";\n    server_name "@
        + site.domain@ + ";\n"@;
    let t = head + (lead + u + close) + tls_part(cert) + "}\n"@;
    assert(site_config_text(site, cert) == Ok::<Seq<char>, SiteConfigError>(t));
    assert(t =~= (head + lead0) + ("proxy_pass "@ + u + ";"@) + ("\n    }\n"@ + tls_part(cert)
        + "}\n"@));
    lemma_occurs_between(head + lead0, "proxy_pass "@ + u + ";"@, "\n    }\n"@ + tls_part(cert)
        + "}\n"@);
}

/// Law: a static site with a root directory is configured to serve files
/// from that directory, whatever upstream it also has on record, with or
/// without a certificate.
pub proof fn lemma_static_site_serves_root(
    site: Site,
    other_upstream: Option<String>,
    cert: Option<Certificate>,
)
    requires
        site.site_type@ == "static"@,
        site.root_dir is Some,
    ensures
        site_config_text(site, cert) matches Ok(t) && occurs_in(
            "root "@ + site.root_dir.unwrap()@ + ";"@,
            t,
        ),
        site_config_text((Site { upstream: other_upstream, ..site }), cert) == site_config_text(
            site,
            cert,
        ),
{
    let r = site.root_dir.unwrap()@;
    reveal_strlit("proxy");
    reveal_strlit("static");
    assert("static"@[0] != "proxy"@[0]);
    let close = ";\n    index index.html index.htm;\n"@;
    reveal_strlit("    root ");
    reveal_strlit("root ");
    reveal_strlit(";\n    index index.html index.htm;\n");
    reveal_strlit(";");
    reveal_strlit("\n    index index.html index.htm;\n");
    assert("    root "@ =~= "    "@ + "root "@) by {
        reveal_strlit("    ");
    }
    assert(close =~= ";"@ + "\n    index index.html index.htm;\n"@);
    let head = "server {\n    listen "@ + dec_int(site.port as int) + ";\n    server_name "@
        + site.domain@ + ";\n"@;
    let t = head + ("    root "@ + r + close) + tls_part(cert) + "}\n"@;
    assert(site_config_text(site, cert) == Ok::<Seq<char>, SiteConfigError>(t));
    assert(t =~= (head + "    "@) + ("root "@ + r + ";"@) + ("\n    index index.html index.htm;\n"@
        + tls_part(cert) + "}\n"@));
    lemma_occurs_between(head + "    "@, "root "@ + r + ";"@, "\n    index index.html index.htm;\n"@
        + tls_part(cert) + "}\n"@);
}

/// Checks that a site has a domain that is not blank, as applying it requires.
pub fn check_site_domain(site: &Site) -> (r: Result<(), SiteConfigError>)
    ensures
        r is Err <==> trim(site.domain@).len() == 0,
        r matches Err(e) ==> e == SiteConfigError::EmptyDomain,
{
    let t = trim_str(site.domain.as_str());
    if t.as_str().is_empty() {
        Err(SiteConfigError::EmptyDomain)
    } else {
        Ok(())
    }
}

} // verus!
