use nginx_manager::expiry::{cert_expiry_from_output, cert_expiry_now, expiry_from_instant, ExpiryError};
use nginx_manager::ops::{
    certbot_args, certbot_result, check_service_action, conf_file_name, letsencrypt_paths,
    nginx_test_result, openssl_enddate_args, reload_command_args, reload_result,
    service_command_args, service_output, uploaded_cert_paths,
};
use nginx_manager::reminders::{collect_reminders, reminder_counts, sort_reminders, CertExpiry, CertReminder};

fn rem(domain: &str, days: i64) -> CertReminder {
    CertReminder { domain: domain.to_string(), days_left: days, expires_at: format!("at-{domain}") }
}

fn entry(domain: &str, expiry: Option<i64>) -> CertExpiry {
    CertExpiry { domain: domain.to_string(), expiry: expiry.map(|d| (format!("at-{domain}"), d)) }
}

fn order(v: &[CertReminder]) -> Vec<(String, i64)> {
    v.iter().map(|r| (r.domain.clone(), r.days_left)).collect()
}

#[test]
fn expiry_without_output_or_line() {
    assert_eq!(cert_expiry_from_output(false, b"notAfter=Jan  1 00:00:00 2030 GMT", (0, 0)), Ok(None));
    assert_eq!(cert_expiry_from_output(true, b"subject=CN = x\n", (0, 0)), Ok(None));
    assert_eq!(cert_expiry_from_output(true, b"", (0, 0)), Ok(None));
    assert_eq!(cert_expiry_now(false, b""), Ok(None));
}

#[test]
fn expiry_line_with_the_openssl_layout() {
    // chrono's parse_from_str needs an offset in the input, and the layout
    // names the zone only as the literal text "GMT"
    let r = cert_expiry_from_output(true, b"  notAfter=Jan  1 00:00:00 2030 GMT\n", (1_700_000_000, 0));
    assert_eq!(r, Err(ExpiryError::Unparsable));
    assert_eq!(cert_expiry_from_output(true, b"notAfter=garbage", (0, 0)), Err(ExpiryError::Unparsable));
    assert_eq!(ExpiryError::Unparsable.message(), "解析证书到期时间失败");
}

#[test]
fn reminders_are_filtered_and_stably_sorted() {
    let entries = vec![
        entry("a", Some(20)),
        entry("b", Some(5)),
        entry("c", None),
        entry("d", Some(40)),
        entry("e", Some(5)),
        entry("f", Some(-3)),
        entry("g", Some(30)),
    ];
    let r = collect_reminders(&entries, 30);
    assert_eq!(
        order(&r),
        vec![("f".to_string(), -3), ("b".to_string(), 5), ("e".to_string(), 5), ("a".to_string(), 20), ("g".to_string(), 30)]
    );
    assert_eq!(r[1].expires_at, "at-b");
    assert_eq!(reminder_counts(&r), (3, 3, 5));
    assert!(collect_reminders(&vec![], 30).is_empty());
}

#[test]
fn sorting_matches_a_stable_sort() {
    let v = vec![rem("x", 3), rem("y", 1), rem("z", 3), rem("w", 2), rem("v", 1)];
    let mut expected = v.clone();
    expected.sort_by_key(|r| r.days_left);
    assert_eq!(order(&sort_reminders(v)), order(&expected));
}

#[test]
fn counts_by_window() {
    let v = vec![rem("a", 7), rem("b", 8), rem("c", 15), rem("d", 16), rem("e", 0)];
    assert_eq!(reminder_counts(&v), (2, 4, 5));
}

#[test]
fn service_actions() {
    for a in ["start", "stop", "restart", "reload", "status"] {
        assert_eq!(check_service_action(a), Ok(()));
    }
    assert_eq!(check_service_action("enable"), Err("不支持的服务操作".to_string()));
    assert_eq!(check_service_action("Start"), Err("不支持的服务操作".to_string()));
    assert_eq!(service_command_args("reload"), vec!["reload".to_string(), "nginx".to_string()]);
    assert_eq!(reload_command_args(), vec!["reload".to_string(), "nginx".to_string()]);
}

#[test]
fn command_outcomes() {
    assert_eq!(service_output(true, b"active", b"ignored"), Ok("active".to_string()));
    assert_eq!(service_output(false, b"out", b"err"), Err("out\nerr".to_string()));
    assert_eq!(nginx_test_result(true, b"x"), Ok(()));
    assert_eq!(nginx_test_result(false, b"syntax error"), Err("nginx -t 校验失败：syntax error".to_string()));
    assert_eq!(reload_result(false, b"no"), Err("重载失败：no".to_string()));
    assert_eq!(certbot_result(false, b"rate limited"), Err("certbot 执行失败：rate limited".to_string()));
    assert_eq!(certbot_result(true, b""), Ok(()));
}

#[test]
fn command_arguments_and_paths() {
    assert_eq!(
        certbot_args("example.com", "ops@example.com"),
        vec!["certonly", "--nginx", "--non-interactive", "--agree-tos", "-m", "ops@example.com", "-d", "example.com"]
            .into_iter()
            .map(String::from)
            .collect::<Vec<_>>()
    );
    assert_eq!(
        openssl_enddate_args("/c.pem"),
        vec!["x509", "-enddate", "-noout", "-in", "/c.pem"].into_iter().map(String::from).collect::<Vec<_>>()
    );
    assert_eq!(
        letsencrypt_paths("example.com"),
        (
            "/etc/letsencrypt/live/example.com/fullchain.pem".to_string(),
            "/etc/letsencrypt/live/example.com/privkey.pem".to_string()
        )
    );
    assert_eq!(conf_file_name("blog"), "blog.conf");
    assert_eq!(
        uploaded_cert_paths("/etc/nginx-manager/certs", "blog"),
        ("/etc/nginx-manager/certs/blog.crt".to_string(), "/etc/nginx-manager/certs/blog.key".to_string())
    );
}

#[test]
fn expiry_from_a_known_instant() {
    // 2030-01-01T00:00:00Z
    let at = (1_893_456_000, 0);
    let (text, days) = expiry_from_instant(at, (1_893_456_000 - 5 * 86_400, 0)).unwrap();
    assert_eq!(text, "2030-01-01T00:00:00+00:00");
    assert_eq!(days, 5);
    // half a day short of six days is five whole days
    assert_eq!(expiry_from_instant(at, (1_893_456_000 - 5 * 86_400 - 43_200, 0)).unwrap().1, 5);
    // past expiry counts toward zero: 1.5 days ago is -1
    assert_eq!(expiry_from_instant(at, (1_893_456_000 + 86_400 + 43_200, 0)).unwrap().1, -1);
    // a sub-second remainder does not make a whole day
    assert_eq!(expiry_from_instant(at, (1_893_456_000 - 86_400, 1)).unwrap().1, 0);
    assert_eq!(expiry_from_instant((i64::MAX, 0), (0, 0)), Err(ExpiryError::OutOfRange));
}
