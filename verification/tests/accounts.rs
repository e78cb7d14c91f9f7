use nginx_manager::auth::{current_user_id, login, logout, require_user};
use nginx_manager::passwords::{hash_password, verify_password};
use nginx_manager::reply::{server_error, Reply};
use nginx_manager::sessions::SessionStore;
use nginx_manager::steps::prepare_password_change;

#[test]
fn sessions_insert_get_remove() {
    let mut s = SessionStore::new();
    assert_eq!(s.get("a"), None);
    s.insert("a".to_string(), 1);
    s.insert("b".to_string(), 2);
    assert_eq!(s.get("a"), Some(1));
    assert_eq!(s.get("b"), Some(2));
    s.insert("a".to_string(), 3);
    assert_eq!(s.get("a"), Some(3));
    s.remove("a");
    assert_eq!(s.get("a"), None);
    assert_eq!(s.get("b"), Some(2));
    s.remove("zzz");
    assert_eq!(s.get("b"), Some(2));
}

#[test]
fn hash_then_verify() {
    let h = hash_password("s3cret-pass").unwrap();
    assert!(h.starts_with("$argon2id$"));
    assert!(verify_password("s3cret-pass", &h));
    assert!(!verify_password("other", &h));
    assert!(!verify_password("s3cret-pass", "not a phc string"));
    assert!(!verify_password("s3cret-pass", ""));
    let h2 = hash_password("s3cret-pass").unwrap();
    assert_ne!(h, h2);
}

#[test]
fn login_and_logout() {
    let hash = hash_password("admin123!").unwrap();
    let mut s = SessionStore::new();
    assert_eq!(login(&mut s, Err("db".to_string()), "x"), Err(server_error("数据库错误")));
    assert_eq!(login(&mut s, Ok(None), "x"), Err(Reply::Status(401, "用户名或密码错误".to_string())));
    assert_eq!(
        login(&mut s, Ok(Some((1, hash.clone()))), "wrong"),
        Err(Reply::Status(401, "用户名或密码错误".to_string()))
    );
    let token = login(&mut s, Ok(Some((1, hash.clone()))), "admin123!").unwrap();
    assert_eq!(token.len(), 36);
    for (i, c) in token.chars().enumerate() {
        if i == 8 || i == 13 || i == 18 || i == 23 {
            assert_eq!(c, '-');
        } else {
            assert!(c.is_ascii_digit() || ('a'..='f').contains(&c));
        }
    }
    assert_eq!(token.chars().nth(14), Some('4'));
    assert!(matches!(token.chars().nth(19), Some('8' | '9' | 'a' | 'b')));
    assert_eq!(current_user_id(&s, Some(&token)), Some(1));
    assert_eq!(require_user(&s, Some(&token)), Ok(1));
    assert_eq!(current_user_id(&s, None), None);
    assert_eq!(require_user(&s, Some("nope")), Err(Reply::Redirect("/login".to_string())));
    assert_eq!(logout(&mut s, Some(&token)), Reply::Redirect("/login".to_string()));
    assert_eq!(current_user_id(&s, Some(&token)), None);
    assert_eq!(logout(&mut s, None), Reply::Redirect("/login".to_string()));
}

#[test]
fn password_change_rules() {
    let hash = hash_password("old-password").unwrap();
    assert_eq!(
        prepare_password_change("old-password", "short", Ok(("admin".to_string(), hash.clone()))),
        Err(Reply::Status(400, "新密码长度至少 8 位".to_string()))
    );
    // the length is counted in bytes: three CJK characters are nine bytes
    assert!(prepare_password_change("old-password", "长密码", Ok(("admin".to_string(), hash.clone()))).is_ok());
    assert_eq!(
        prepare_password_change("old-password", "1234567", Ok(("admin".to_string(), hash.clone()))),
        Err(Reply::Status(400, "新密码长度至少 8 位".to_string()))
    );
    assert_eq!(
        prepare_password_change("old-password", "new-password", Err("db".to_string())),
        Err(Reply::Status(500, "查询当前用户失败".to_string()))
    );
    assert_eq!(
        prepare_password_change("bad", "new-password", Ok(("admin".to_string(), hash.clone()))),
        Err(Reply::Status(400, "当前密码不正确".to_string()))
    );
    let (name, new_hash) = prepare_password_change("old-password", "new-password", Ok(("admin".to_string(), hash))).unwrap();
    assert_eq!(name, "admin");
    assert!(verify_password("new-password", &new_hash));
    assert!(!verify_password("old-password", &new_hash));
}
