//! The commands that the console runs (systemctl, nginx, certbot,
//! openssl): their arguments and what their outcome means.

use vstd::prelude::*;

use crate::text::{spec_utf8_lossy, str_eq, utf8_lossy};

verus! {

/// The service actions that may be passed to systemctl.
pub open spec fn is_service_action(action: Seq<char>) -> bool {
    ||| action == "start"@
    ||| action == "stop"@
    ||| action == "restart"@
    ||| action == "reload"@
    ||| action == "status"@
}

/// Checks that `action` is one of start, stop, restart, reload and status.
pub fn check_service_action(action: &str) -> (r: Result<(), String>)
    ensures
        r is Ok <==> is_service_action(action@),
        r matches Err(m) ==> m@ == "不支持的服务操作"@,
{
    if str_eq(action, "start") || str_eq(action, "stop") || str_eq(action, "restart") || str_eq(
        action,
        "reload",
    ) || str_eq(action, "status") {
        Ok(())
    } else {
        Err(String::from_str("不支持的服务操作"))
    }
}

/// The arguments of `systemctl` for a service action on nginx.
pub fn service_command_args(action: &str) -> (r: Vec<String>)
    ensures
        r@.len() == 2,
        r@[0]@ == action@,
        r@[1]@ == "nginx"@,
{
    let mut v: Vec<String> = Vec::new();
    v.push(String::from_str(action));
    v.push(String::from_str("nginx"));
    v
}

/// What a finished service command means: its standard output where it
/// succeeded, else that output, a line break and its standard error.
pub open spec fn service_outcome(success: bool, stdout: Seq<u8>, stderr: Seq<u8>) -> Result<
    Seq<char>,
    Seq<char>,
> {
    if success {
        Ok(spec_utf8_lossy(stdout))
    } else {
        Err(spec_utf8_lossy(stdout) + "\n"@ + spec_utf8_lossy(stderr))
    }
}

/// Interprets a finished service command.
pub fn service_output(success: bool, stdout: &[u8], stderr: &[u8]) -> (r: Result<String, String>)
    ensures
        match r {
            Ok(s) => service_outcome(success, stdout@, stderr@) == Ok::<Seq<char>, Seq<char>>(s@),
            Err(s) => service_outcome(success, stdout@, stderr@) == Err::<Seq<char>, Seq<char>>(s@),
        },
{
    let mut text = utf8_lossy(stdout);
    if !success {
        let err = utf8_lossy(stderr);
        text.append("\n");
        text.append(err.as_str());
        return Err(text);
    }
    Ok(text)
}

/// `prefix` followed by the command's standard error, where the command
/// failed; nothing where it succeeded.
pub open spec fn failure_text(success: bool, prefix: Seq<char>, stderr: Seq<u8>) -> Option<Seq<char>> {
    if success {
        None
    } else {
        Some(prefix + spec_utf8_lossy(stderr))
    }
}

fn failure_message(success: bool, prefix: &str, stderr: &[u8]) -> (r: Result<(), String>)
    ensures
        match r {
            Ok(()) => failure_text(success, prefix@, stderr@) is None,
            Err(m) => failure_text(success, prefix@, stderr@) == Some(m@),
        },
{
    if success {
        Ok(())
    } else {
        let mut m = String::from_str(prefix);
        let err = utf8_lossy(stderr);
        m.append(err.as_str());
        Err(m)
    }
}

/// The outcome of `nginx -t`: an error naming the check's complaint where
/// it failed.
pub fn nginx_test_result(success: bool, stderr: &[u8]) -> (r: Result<(), String>)
    ensures
        match r {
            Ok(()) => success,
            Err(m) => failure_text(success, "nginx -t 校验失败："@, stderr@) == Some(m@),
        },
{
    failure_message(success, "nginx -t 校验失败：", stderr)
}

/// The outcome of `systemctl reload nginx`.
pub fn reload_result(success: bool, stderr: &[u8]) -> (r: Result<(), String>)
    ensures
        match r {
            Ok(()) => success,
            Err(m) => failure_text(success, "重载失败："@, stderr@) == Some(m@),
        },
{
    failure_message(success, "重载失败：", stderr)
}

/// The outcome of certbot.
pub fn certbot_result(success: bool, stderr: &[u8]) -> (r: Result<(), String>)
    ensures
        match r {
            Ok(()) => success,
            Err(m) => failure_text(success, "certbot 执行失败："@, stderr@) == Some(m@),
        },
{
    failure_message(success, "certbot 执行失败：", stderr)
}

/// The arguments of `systemctl` that reload nginx.
pub fn reload_command_args() -> (r: Vec<String>)
    ensures
        r@.len() == 2,
        r@[0]@ == "reload"@,
        r@[1]@ == "nginx"@,
{
    service_command_args("reload")
}

/// The arguments of certbot that request a certificate for `domain` with
/// the nginx plugin, registering `email`.
pub fn certbot_args(domain: &str, email: &str) -> (r: Vec<String>)
    ensures
        r@.len() == 8,
        r@[0]@ == "certonly"@,
        r@[1]@ == "--nginx"@,
        r@[2]@ == "--non-interactive"@,
        r@[3]@ == "--agree-tos"@,
        r@[4]@ == "-m"@,
        r@[5]@ == email@,
        r@[6]@ == "-d"@,
        r@[7]@ == domain@,
{
    let mut v: Vec<String> = Vec::new();
    v.push(String::from_str("certonly"));
    v.push(String::from_str("--nginx"));
    v.push(String::from_str("--non-interactive"));
    v.push(String::from_str("--agree-tos"));
    v.push(String::from_str("-m"));
    v.push(String::from_str(email));
    v.push(String::from_str("-d"));
    v.push(String::from_str(domain));
    v
}

/// The arguments of openssl that print a certificate's expiry.
pub fn openssl_enddate_args(cert_path: &str) -> (r: Vec<String>)
    ensures
        r@.len() == 5,
        r@[0]@ == "x509"@,
        r@[1]@ == "-enddate"@,
        r@[2]@ == "-noout"@,
        r@[3]@ == "-in"@,
        r@[4]@ == cert_path@,
{
    let mut v: Vec<String> = Vec::new();
    v.push(String::from_str("x509"));
    v.push(String::from_str("-enddate"));
    v.push(String::from_str("-noout"));
    v.push(String::from_str("-in"));
    v.push(String::from_str(cert_path));
    v
}

/// Where certbot puts the certificate chain and the key for `domain`.
pub fn letsencrypt_paths(domain: &str) -> (r: (String, String))
    ensures
        r.0@ == "/etc/letsencrypt/live/"@ + domain@ + "/fullchain.pem"@,
        r.1@ == "/etc/letsencrypt/live/"@ + domain@ + "/privkey.pem"@,
{
    let mut a = String::from_str("/etc/letsencrypt/live/");
    a.append(domain);
    a.append("/fullchain.pem");
    let mut b = String::from_str("/etc/letsencrypt/live/");
    b.append(domain);
    b.append("/privkey.pem");
    (a, b)
}

/// The file name of a site's configuration: its name and `.conf`.
pub fn conf_file_name(site_name: &str) -> (r: String)
    ensures
        r@ == site_name@ + ".conf"@,
{
    let mut s = String::from_str(site_name);
    s.append(".conf");
    s
}

/// Where an uploaded certificate and key are stored: `<dir>/<name>.crt`
/// and `<dir>/<name>.key`.
pub fn uploaded_cert_paths(dir: &str, name: &str) -> (r: (String, String))
    ensures
        r.0@ == dir@ + "/"@ + name@ + ".crt"@,
        r.1@ == dir@ + "/"@ + name@ + ".key"@,
{
    let mut a = String::from_str(dir);
    a.append("/");
    a.append(name);
    a.append(".crt");
    let mut b = String::from_str(dir);
    b.append("/");
    b.append(name);
    b.append(".key");
    (a, b)
}

} // verus!
