//! Who is logged in: session cookies, login and logout.

use vstd::prelude::*;

use crate::passwords::{spec_password_matches, verify_password};
use crate::reply::{redirect, status, server_error, Reply, ReplyView};
use crate::sessions::SessionStore;

verus! {

/// Whether `c` is a lower-case hexadecimal digit.
pub open spec fn is_lower_hex(c: char) -> bool {
    ('0' as u32 <= c as u32 && c as u32 <= '9' as u32) || ('a' as u32 <= c as u32 && c as u32
        <= 'f' as u32)
}

/// Whether `t` is a random (version 4, RFC variant) UUID in lower-case
/// hyphenated form: 36 characters, hyphens at 8, 13, 18 and 23, hex digits
/// elsewhere, the version digit `4` and a variant digit of `8`, `9`, `a`
/// or `b`.
pub open spec fn uuid_v4_text(t: Seq<char>) -> bool {
    &&& t.len() == 36
    &&& forall|i: int|
        0 <= i < 36 ==> if i == 8 || i == 13 || i == 18 || i == 23 {
            t[i] == '-'
        } else {
            is_lower_hex(#[trigger] t[i])
        }
    &&& t[14] == '4'
    &&& (t[19] == '8' || t[19] == '9' || t[19] == 'a' || t[19] == 'b')
}

/// Calls `uuid::Uuid::new_v4()` and writes it with `to_string()`. Claimed:
/// `new_v4` sets the version and variant bits, and `Display` writes the
/// lower-case hyphenated form. Which token comes out is chance.
#[verifier::external_body]
fn new_session_token() -> (t: String)
    ensures
        uuid_v4_text(t@),
{
    uuid::Uuid::new_v4().to_string()
}

/// The user whose session the cookie `token` carries, if any.
pub fn current_user_id(sessions: &SessionStore, token: Option<&str>) -> (r: Option<i64>)
    ensures
        r == current_user_id_spec(sessions@, token_view(token)),
{
    match token {
        Some(t) => sessions.get(t),
        None => None,
    }
}

/// The logged-in user, or a redirect to the login page.
pub fn require_user(sessions: &SessionStore, token: Option<&str>) -> (r: Result<i64, Reply>)
    ensures
        match r {
            Ok(id) => current_user_id_spec(sessions@, token_view(token)) == Some(id),
            Err(reply) => current_user_id_spec(sessions@, token_view(token)) is None && reply@
                == ReplyView::Redirect("/login"@),
        },
{
    match current_user_id(sessions, token) {
        Some(id) => Ok(id),
        None => Err(redirect("/login")),
    }
}

/// The text of an optional cookie value.
pub open spec fn token_view(token: Option<&str>) -> Option<Seq<char>> {
    match token {
        Some(t) => Some(t@),
        None => None,
    }
}

/// The user that a session cookie identifies.
pub open spec fn current_user_id_spec(sessions: Map<Seq<char>, i64>, token: Option<Seq<char>>) -> Option<
    i64,
> {
    match token {
        Some(t) => if sessions.dom().contains(t) {
            Some(sessions[t])
        } else {
            None
        },
        None => None,
    }
}

/// Logs in: `lookup` is what the user table held for the submitted name
/// (`Err` where the query failed, `None` where no such user exists). On
/// success a fresh token is bound to the user and returned.
pub fn login(
    sessions: &mut SessionStore,
    lookup: Result<Option<(i64, String)>, String>,
    password: &str,
) -> (r: Result<String, Reply>)
    ensures
        match lookup {
            Err(_) => r matches Err(reply) && reply@ == ReplyView::Status(500, "数据库错误"@)
                && final(sessions)@ == old(sessions)@,
            Ok(None) => r matches Err(reply) && reply@ == ReplyView::Status(401, "用户名或密码错误"@)
                && final(sessions)@ == old(sessions)@,
            Ok(Some((id, hash))) => if spec_password_matches(password@, hash@) {
                r matches Ok(token) && final(sessions)@ == old(sessions)@.insert(token@, id)
                    && uuid_v4_text(token@)
            } else {
                r matches Err(reply) && reply@ == ReplyView::Status(401, "用户名或密码错误"@)
                    && final(sessions)@ == old(sessions)@
            },
        },
{
    match lookup {
        Err(_) => Err(server_error("数据库错误")),
        Ok(None) => Err(status(401, "用户名或密码错误")),
        Ok(Some((id, hash))) => {
            if !verify_password(password, hash.as_str()) {
                return Err(status(401, "用户名或密码错误"));
            }
            let token = new_session_token();
            let t = token.clone();
            sessions.insert(t, id);
            Ok(token)
        },
    }
}

/// Logs out: the session of the cookie's token, if any, ends; the answer
/// is a redirect to the login page.
pub fn logout(sessions: &mut SessionStore, token: Option<&str>) -> (r: Reply)
    ensures
        r@ == ReplyView::Redirect("/login"@),
        final(sessions)@ == (match token {
            Some(t) => old(sessions)@.remove(t@),
            None => old(sessions)@,
        }),
{
    match token {
        Some(t) => sessions.remove(t),
        None => {},
    }
    redirect("/login")
}

/// Law: after a successful login the returned token identifies the user,
/// and after logging out with it the token identifies nobody.
pub proof fn lemma_login_logout(before: Map<Seq<char>, i64>, token: Seq<char>, id: i64)
    ensures
        current_user_id_spec(before.insert(token, id), Some(token)) == Some(id),
        current_user_id_spec(before.insert(token, id).remove(token), Some(token)) is None,
{
}

/// Law: logging out with one token leaves every other session as it was.
pub proof fn lemma_logout_keeps_others(before: Map<Seq<char>, i64>, token: Seq<char>, other: Seq<char>)
    requires
        other != token,
    ensures
        current_user_id_spec(before.remove(token), Some(other)) == current_user_id_spec(
            before,
            Some(other),
        ),
{
}

} // verus!
