//! The session that requests are sent in.
use vstd::prelude::*;
use vstd::string::*;

verus! {

/// The browser that requests present themselves as.
pub const USER_AGENT: &'static str = "Mozilla/5.0 (Windows NT 10.0; Win64; x64; rv:143.0) Gecko/20100101 Firefox/143.0";

/// The page that requests come from.
pub const REFERER: &'static str = "https://music.163.com";

/// The address that the session cookies are set for.
pub const COOKIE_URL: &'static str = "https://music.163.com";

/// The cookies of a session with the given `MUSIC_U` token.
pub open spec fn session_cookies_text(cookie: Seq<char>) -> Seq<Seq<char>> {
    seq!["MUSIC_U="@ + cookie, "__remember_me=true"@, "os=pc"@]
}

/// The cookies of a session with the given `MUSIC_U` token.
pub fn session_cookies(cookie: &str) -> (r: Vec<String>)
    ensures
        r@.map_values(|c: String| c@) == session_cookies_text(cookie@),
{
    let mut token = String::from_str("MUSIC_U=");
    token.append(cookie);
    let mut r: Vec<String> = Vec::new();
    r.push(token);
    r.push(String::from_str("__remember_me=true"));
    r.push(String::from_str("os=pc"));
    assert(r@.map_values(|c: String| c@) =~= session_cookies_text(cookie@));
    r
}

} // verus!
