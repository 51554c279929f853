use vortex_launcher::auth::{
    account, account_request, complaint_text, detail, extract_uri, games, handoff_token,
    is_launch_uri, is_studio_uri, judge_account, judge_games, judge_login, login, login_2fa,
    pending_token, play_request, play_uri, post_login, session_token_from_cookie, Login,
};
use vortex_launcher::error::Error;
use vortex_launcher::json::{parse, Json};
use vortex_launcher::net::{Headers, Manner, Reply};
use vortex_launcher::worker::describe;

fn reply(status: u16, cookies: &[&str], body: &str) -> Result<Reply, Error> {
    Ok(Reply {
        status,
        headers: Headers {
            content_range: None,
            content_length: None,
            etag: None,
            last_modified: None,
        },
        cookies: cookies.iter().map(|c| c.to_string()).collect(),
        body: Ok(body.to_owned()),
    })
}

fn unread(status: u16) -> Result<Reply, Error> {
    let mut reply = reply(status, &[], "").unwrap();
    reply.body = Err(Error::says("gone"));
    Ok(reply)
}

fn offline() -> Result<Reply, Error> {
    Err(Error::says("no route"))
}

#[test]
fn reads_the_session_cookie() {
    assert_eq!(
        session_token_from_cookie("session_token=abc123; Path=/; HttpOnly; Secure").as_deref(),
        Some("abc123")
    );
    assert_eq!(session_token_from_cookie("other=x; Path=/"), None);
    assert_eq!(session_token_from_cookie("session_token=; Path=/"), None);
}

#[test]
fn unquotes_the_session_cookie() {
    assert_eq!(
        session_token_from_cookie(" session_token = \"abc=1\" ; Path=/").as_deref(),
        Some("abc=1")
    );
    assert_eq!(session_token_from_cookie("session_token"), None);
    assert_eq!(session_token_from_cookie(""), None);
}

#[test]
fn spots_the_2fa_handoff() {
    let body = r#"{"requires_2fa":true,"pending_token":"pt-9"}"#;
    assert_eq!(pending_token(body).as_deref(), Some("pt-9"));
    assert_eq!(pending_token(r#"{"ok":true}"#), None);
}

#[test]
fn a_handoff_without_a_token_is_one() {
    assert_eq!(pending_token(r#"{"requires_2fa":true}"#).as_deref(), Some(""));
    assert_eq!(pending_token(r#"{"requires_2fa":false,"pending_token":"x"}"#), None);
    assert_eq!(pending_token(r#"{"requires_2fa":"true"}"#), None);
    assert_eq!(pending_token("not json"), None);
    let json = parse(r#"{"requires_2fa":true,"pending_token":7}"#).unwrap();
    assert_eq!(handoff_token(&json).as_deref(), Some(""));
}

#[test]
fn reads_the_server_error() {
    assert_eq!(
        detail(r#"{"detail":"Invalid credentials"}"#).as_deref(),
        Some("Invalid credentials")
    );
}

#[test]
fn only_a_text_is_a_server_error() {
    assert_eq!(detail(r#"{"detail":[1]}"#), None);
    assert_eq!(detail("<html>"), None);
    assert_eq!(complaint_text(&Json::Null), None);
}

#[test]
fn pulls_the_uri_out_of_the_page() {
    let html = r#"<a id="go" href="vortex://launch?token=abc&game=3">Play</a>"#;
    assert_eq!(
        extract_uri(html).as_deref(),
        Some("vortex://launch?token=abc&game=3")
    );
    assert_eq!(extract_uri("<p>nothing here</p>"), None);
}

#[test]
fn a_link_runs_to_a_quote_a_tag_or_a_blank() {
    assert_eq!(extract_uri("x vortex://a?b<br>").as_deref(), Some("vortex://a?b"));
    assert_eq!(extract_uri("'vortex://a'").as_deref(), Some("vortex://a"));
    assert_eq!(extract_uri("vortex://a\u{3000}b").as_deref(), Some("vortex://a"));
    assert_eq!(extract_uri("vortex://end").as_deref(), Some("vortex://end"));
}

#[test]
fn rejects_anything_but_a_launch_uri() {
    assert!(is_launch_uri("vortex://launch?token=abc"));
    assert!(!is_launch_uri("https://evil.example/x"));
    assert!(!is_launch_uri("vortex://a b"));
}

#[test]
fn a_link_is_for_the_game_or_for_the_studio() {
    assert!(is_studio_uri("vortex-studio://open?x=1"));
    assert!(!is_studio_uri("vortex://open"));
    assert!(!is_launch_uri("vortex-studio://open"));
    assert!(!is_launch_uri("vortex://a\0"));
    let longest = format!("vortex://{}", "a".repeat(4096 - 9));
    assert!(is_launch_uri(&longest));
    assert!(!is_launch_uri(&format!("{longest}a")));
}

#[test]
fn a_login_posts_the_form() {
    let request = login("me", "secret");
    assert_eq!(request.url, "https://playvortex.io/login");
    assert_eq!(request.manner, Manner::Account);
    let form = request.form.unwrap();
    let names: Vec<&str> = form.iter().map(|(name, _)| name.as_str()).collect();
    assert_eq!(names, ["username", "password", "fingerprint", "fp_token"]);
    assert_eq!(form[0].1, "me");
    assert_eq!(form[1].1, "secret");
    let request = login_2fa("pt", "123456");
    assert_eq!(request.url, "https://playvortex.io/login/2fa");
    let form = request.form.unwrap();
    assert_eq!(form[0], ("code".to_owned(), "123456".to_owned()));
    assert_eq!(form[1], ("pending_token".to_owned(), "pt".to_owned()));
}

#[test]
fn a_login_is_done_or_needs_a_code() {
    let url = "https://playvortex.io/login";
    match post_login(url, reply(302, &["a=b", "session_token=t1; Path=/"], "")) {
        Ok(Login::Done(token)) => assert_eq!(token, "t1"),
        other => panic!("{other:?}"),
    }
    let body = r#"{"requires_2fa":true,"pending_token":"p"}"#;
    match post_login(url, reply(200, &["session_token=t1"], body)) {
        Ok(Login::Needs2fa(pending)) => assert_eq!(pending, "p"),
        other => panic!("{other:?}"),
    }
}

#[test]
fn each_login_error_says_why() {
    let url = "https://playvortex.io/login";
    let why = |result: Result<Login, Error>| describe(&result.unwrap_err());
    assert_eq!(
        why(post_login(url, reply(200, &[], "{}"))),
        "the server accepted the login but sent no session cookie"
    );
    assert_eq!(why(post_login(url, reply(401, &[], ""))), "wrong username or password");
    assert_eq!(why(post_login(url, reply(403, &[], ""))), "wrong username or password");
    assert_eq!(
        why(post_login(url, reply(429, &[], ""))),
        "too many attempts, wait a moment"
    );
    assert_eq!(why(post_login(url, reply(500, &[], ""))), "the server answered HTTP 500");
    assert_eq!(why(post_login(url, unread(503))), "the server answered HTTP 503");
    assert_eq!(
        why(post_login(url, reply(401, &["session_token=t"], r#"{"detail":"no"}"#))),
        "no"
    );
    assert_eq!(
        why(post_login(url, offline())),
        "cannot reach https://playvortex.io/login: no route"
    );
    assert_eq!(why(judge_login(418, &vec![], None, Some("teapot".into()))), "teapot");
}

#[test]
fn the_account_comes_from_the_answer() {
    let found = account(reply(200, &[], r#"{"id":7,"username":"kit"}"#)).unwrap();
    assert_eq!((found.id, found.username.as_str()), (7, "kit"));
    let found = account(reply(200, &[], r#"{"id":-1}"#)).unwrap();
    assert_eq!((found.id, found.username.as_str()), (0, "unknown"));
    let request = account_request("tok");
    assert_eq!(request.url, "https://playvortex.io/api/users/me");
    assert_eq!(
        request.headers,
        vec![("Cookie".to_owned(), "session_token=tok".to_owned())]
    );
}

#[test]
fn each_account_error_says_why() {
    let why = |reply| describe(&account(reply).unwrap_err());
    assert_eq!(why(reply(401, &[], "")), "session expired (HTTP 401)");
    assert_eq!(
        why(reply(403, &[], r#"{"detail":"banned"}"#)),
        "session expired (banned)"
    );
    assert_eq!(why(reply(500, &[], "{}")), "the account check answered HTTP 500");
    assert!(why(reply(200, &[], "x")).starts_with("the account response was not JSON: "));
    assert_eq!(why(unread(200)), "cannot read the account response: gone");
    assert_eq!(why(offline()), "cannot reach playvortex.io: no route");
    let judged = judge_account(200, Err("bad".into())).unwrap_err();
    assert_eq!(describe(&judged), "the account response was not JSON: bad");
}

#[test]
fn games_without_an_id_or_a_name_are_left_out() {
    let body = r#"[{"id":1,"name":"a","player_count":5},{"id":2},{"name":"c"},{"id":4,"name":"d"}]"#;
    let found = games(reply(200, &[], body)).unwrap();
    let seen: Vec<(u64, &str, u64)> =
        found.iter().map(|g| (g.id, g.name.as_str(), g.players)).collect();
    assert_eq!(seen, [(1, "a", 5), (4, "d", 0)]);
}

#[test]
fn each_game_list_error_says_why() {
    let why = |reply| describe(&games(reply).unwrap_err());
    assert_eq!(why(reply(200, &[], "{}")), "the game list was not a list");
    assert!(why(reply(200, &[], "[")).starts_with("the game list was not JSON: "));
    assert_eq!(why(unread(200)), "cannot read the game list: gone");
    assert_eq!(why(offline()), "cannot fetch the game list: no route");
    assert_eq!(
        describe(&judge_games(Err("bad".into())).unwrap_err()),
        "the game list was not JSON: bad"
    );
}

#[test]
fn the_play_page_carries_the_link() {
    let page = reply(200, &[], "<a href=\"vortex://launch?t=1\">");
    assert_eq!(play_uri(page).unwrap(), "vortex://launch?t=1");
    let why = |reply| describe(&play_uri(reply).unwrap_err());
    for status in [301, 302, 399, 401, 403] {
        assert_eq!(
            why(reply(status, &[], "")),
            format!("session expired (the play page answered HTTP {status})")
        );
    }
    assert_eq!(why(reply(404, &[], "")), "the play page answered HTTP 404");
    assert_eq!(
        why(reply(200, &[], "")),
        "the play page had no vortex:// link, the site may have changed"
    );
    assert_eq!(why(unread(200)), "cannot read the play page: gone");
    assert_eq!(why(offline()), "cannot reach the play page: no route");
    assert_eq!(
        play_request("t", 12, None).url,
        "https://playvortex.io/games/12/play"
    );
    assert_eq!(
        play_request("t", 12, Some("i9")).url,
        "https://playvortex.io/games/12/play?instance=i9"
    );
}
