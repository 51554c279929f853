//! Signing in to playvortex.io, and getting a vortex:// launch link.
use vstd::prelude::*;

pub mod laws;

use crate::error::{failure, said, CauseView, Error};
use crate::json::{json_in, parse, read_as, Json, JsonView};
use crate::net::{fetch, served, Manner, Reply, Request, RequestView};
use crate::text::{
    begins, borrowed, byte_len, chars_of, decimal, decimal_text, find_char, find_in, find_text,
    fits, lemma_next_char, lemma_next_in, lemma_position, next_char, next_in, pieces, position,
    same_text, split, starts_with, text_in, text_of, texts, trim, trimmed, white_space, Class,
};

verus! {

broadcast use vstd::string::group_string_axioms;

/// How a login attempt came out.
#[derive(Debug)]
pub enum Login {
    Done(String),
    /// the server wants the two-factor code; carries the token that ties the two requests
    Needs2fa(String),
}

/// What a [`Login`] says.
pub enum LoginView {
    Done(Seq<char>),
    Needs2fa(Seq<char>),
}

impl View for Login {
    type V = LoginView;

    open spec fn view(&self) -> LoginView {
        match self {
            Login::Done(token) => LoginView::Done(token@),
            Login::Needs2fa(pending) => LoginView::Needs2fa(pending@),
        }
    }
}

/// The account that a session belongs to.
#[derive(Debug)]
pub struct Account {
    pub id: u64,
    pub username: String,
}

/// What an [`Account`] says.
pub struct AccountView {
    pub id: u64,
    pub username: Seq<char>,
}

impl View for Account {
    type V = AccountView;

    open spec fn view(&self) -> AccountView {
        AccountView { id: self.id, username: self.username@ }
    }
}

/// A game on the server.
#[derive(Debug)]
pub struct Game {
    pub id: u64,
    pub name: String,
    pub players: u64,
}

/// What a [`Game`] says.
pub struct GameView {
    pub id: u64,
    pub name: Seq<char>,
    pub players: u64,
}

impl View for Game {
    type V = GameView;

    open spec fn view(&self) -> GameView {
        GameView { id: self.id, name: self.name@, players: self.players }
    }
}

/// The games in a list.
pub open spec fn games_view(games: Seq<Game>) -> Seq<GameView> {
    Seq::new(games.len(), |i: int| games[i]@)
}

/// Posting `form` to `url`.
pub open spec fn posting(url: Seq<char>, form: Seq<(Seq<char>, Seq<char>)>) -> RequestView {
    RequestView { manner: Manner::Account, url, headers: seq![], form: Some(form) }
}

fn post(url: &str, first: (&str, &str), second: (&str, &str)) -> (request: Request)
    ensures
        request@ == posting(
            url@,
            seq![
                (first.0@, first.1@),
                (second.0@, second.1@),
                ("fingerprint"@, ""@),
                ("fp_token"@, ""@),
            ],
        ),
{
    let mut form: Vec<(String, String)> = Vec::new();
    form.push((first.0.to_owned(), first.1.to_owned()));
    form.push((second.0.to_owned(), second.1.to_owned()));
    form.push(("fingerprint".to_owned(), "".to_owned()));
    form.push(("fp_token".to_owned(), "".to_owned()));
    let headers: Vec<(String, String)> = Vec::new();
    let request = Request {
        manner: Manner::Account,
        url: url.to_owned(),
        headers,
        form: Some(form),
    };
    assert(request@.headers =~= seq![]);
    assert(request@.form->0 =~= seq![
        (first.0@, first.1@),
        (second.0@, second.1@),
        ("fingerprint"@, ""@),
        ("fp_token"@, ""@),
    ]);
    request
}

/// Signing in with a name and a password.
pub open spec fn signing_in(username: Seq<char>, password: Seq<char>) -> RequestView {
    posting(
        "https://playvortex.io/login"@,
        seq![
            ("username"@, username),
            ("password"@, password),
            ("fingerprint"@, ""@),
            ("fp_token"@, ""@),
        ],
    )
}

/// The request that signs in. Its answer goes to [`post_login`].
pub fn login(username: &str, password: &str) -> (request: Request)
    ensures
        request@ == signing_in(username@, password@),
{
    post("https://playvortex.io/login", ("username", username), ("password", password))
}

/// Giving the two-factor code for the login that `pending` stands for.
pub open spec fn giving_code(pending: Seq<char>, code: Seq<char>) -> RequestView {
    posting(
        "https://playvortex.io/login/2fa"@,
        seq![
            ("code"@, code),
            ("pending_token"@, pending),
            ("fingerprint"@, ""@),
            ("fp_token"@, ""@),
        ],
    )
}

/// The request that gives the two-factor code. Its answer goes to [`post_login`].
pub fn login_2fa(pending_token: &str, code: &str) -> (request: Request)
    ensures
        request@ == giving_code(pending_token@, code@),
{
    post("https://playvortex.io/login/2fa", ("code", code), ("pending_token", pending_token))
}

/// The session token in a cookie header such as `session_token=abc; Path=/; HttpOnly`.
pub open spec fn cookie_token(header: Seq<char>) -> Option<Seq<char>> {
    let pair = trimmed(pieces(header, ';', 0)[0], Class::Space);
    let at = next_char(pair, '=', 0);
    let name = trimmed(pair.take(at), Class::Space);
    let value = trimmed(trimmed(pair.skip(at + 1), Class::Space), Class::Quote);
    if at < pair.len() && name == "session_token"@ && value.len() > 0 {
        Some(value)
    } else {
        None
    }
}

/// The session token in a cookie header such as `session_token=abc; Path=/; HttpOnly`.
pub fn session_token_from_cookie(header: &str) -> (token: Option<String>)
    ensures
        text_in(token) == cookie_token(header@),
{
    let parts = split(header, ';');
    proof {
        lemma_next_char(header@, ';', 0);
        assert(texts(parts@).len() == parts@.len());
        assert(texts(parts@)[0] == parts@[0]@);
    }
    let pair = trim(parts[0].as_str(), Class::Space);
    let v = chars_of(pair.as_str());
    let at: usize = find_char(&v, '=', 0);
    if at == v.len() {
        return None;
    }
    let name = trim(text_of(&v, 0, at).as_str(), Class::Space);
    let value = trim(
        trim(text_of(&v, at + 1, v.len()).as_str(), Class::Space).as_str(),
        Class::Quote,
    );
    assert(v@.subrange(0, at as int) == pair@.take(at as int));
    assert(v@.subrange(at + 1, v@.len() as int) == pair@.skip(at + 1));
    if same_text(name.as_str(), "session_token") && !value.as_str().is_empty() {
        Some(value)
    } else {
        None
    }
}

/// The first session token in the cookie headers from the `i`th on.
pub open spec fn first_token(cookies: Seq<Seq<char>>, i: int) -> Option<Seq<char>>
    decreases cookies.len() - i,
{
    if i >= cookies.len() {
        None
    } else if cookie_token(cookies[i]) is Some {
        cookie_token(cookies[i])
    } else {
        first_token(cookies, i + 1)
    }
}

fn find_token(cookies: &Vec<String>) -> (token: Option<String>)
    ensures
        text_in(token) == first_token(texts(cookies@), 0),
{
    let mut i: usize = 0;
    while i < cookies.len()
        invariant
            i <= cookies.len(),
            first_token(texts(cookies@), 0) == first_token(texts(cookies@), i as int),
        decreases cookies.len() - i,
    {
        assert(texts(cookies@)[i as int] == cookies@[i as int]@);
        let token = session_token_from_cookie(cookies[i].as_str());
        if token.is_some() {
            return token;
        }
        i += 1;
    }
    None
}

/// The token in an answer that asks for the two-factor code; empty where the answer names none.
pub open spec fn handoff(json: JsonView) -> Option<Seq<char>> {
    match json.member("requires_2fa"@) {
        Some(JsonView::Bool(true)) => Some(
            match json.text_at("pending_token"@) {
                Some(token) => token,
                None => seq![],
            },
        ),
        _ => None,
    }
}

/// What an answer says about an error.
pub open spec fn complaint(json: JsonView) -> Option<Seq<char>> {
    json.text_at("detail"@)
}

/// `f` of the value that was read, if one was.
pub open spec fn of_json(
    json: Result<JsonView, Seq<char>>,
    f: spec_fn(JsonView) -> Option<Seq<char>>,
) -> Option<Seq<char>> {
    match json {
        Ok(json) => f(json),
        Err(_) => None,
    }
}

/// The token in an answer that asks for the two-factor code.
pub fn handoff_token(json: &Json) -> (token: Option<String>)
    ensures
        text_in(token) == handoff(json@),
{
    match json.member("requires_2fa") {
        Some(flag) => match flag.truth() {
            Some(true) => match json.text_at("pending_token") {
                Some(token) => Some(token.to_owned()),
                None => {
                    let none = String::new();
                    assert(none@ =~= seq![]);
                    Some(none)
                },
            },
            _ => None,
        },
        None => None,
    }
}

/// The token in an answer that asks for the two-factor code.
pub fn pending_token(body: &str) -> (token: Option<String>)
    ensures
        text_in(token) == of_json(json_in(body@), |json: JsonView| handoff(json)),
{
    match parse(body) {
        Ok(json) => handoff_token(&json),
        Err(_) => None,
    }
}

/// What an answer says about an error.
pub fn complaint_text(json: &Json) -> (text: Option<String>)
    ensures
        text_in(text) == complaint(json@),
{
    match json.text_at("detail") {
        Some(text) => Some(text.to_owned()),
        None => None,
    }
}

/// What an answer says about an error.
pub fn detail(body: &str) -> (text: Option<String>)
    ensures
        text_in(text) == of_json(json_in(body@), |json: JsonView| complaint(json)),
{
    match parse(body) {
        Ok(json) => complaint_text(&json),
        Err(_) => None,
    }
}

/// What an answer to a login comes to. A request for the two-factor code goes before a session
/// token; what the server says about an error goes before what its status says.
pub open spec fn login_answer(
    status: u16,
    cookies: Seq<Seq<char>>,
    pending: Option<Seq<char>>,
    detail: Option<Seq<char>>,
) -> Result<LoginView, Seq<CauseView>> {
    if 200 <= status < 400 {
        match (pending, first_token(cookies, 0)) {
            (Some(pending), _) => Ok(LoginView::Needs2fa(pending)),
            (None, Some(token)) => Ok(LoginView::Done(token)),
            (None, None) => Err(
                failure("the server accepted the login but sent no session cookie"@),
            ),
        }
    } else {
        Err(
            failure(
                match detail {
                    Some(text) => text,
                    None => if status == 401 || status == 403 {
                        "wrong username or password"@
                    } else if status == 429 {
                        "too many attempts, wait a moment"@
                    } else {
                        "the server answered HTTP "@ + decimal(status as nat)
                    },
                },
            ),
        )
    }
}

/// What an answer to a login comes to, its body read already.
pub fn judge_login(
    status: u16,
    cookies: &Vec<String>,
    pending: Option<String>,
    detail: Option<String>,
) -> (login: Result<Login, Error>)
    ensures
        said(login) == login_answer(status, texts(cookies@), text_in(pending), text_in(detail)),
{
    if 200 <= status && status < 400 {
        if let Some(pending) = pending {
            return Ok(Login::Needs2fa(pending));
        }
        if let Some(token) = find_token(cookies) {
            return Ok(Login::Done(token));
        }
        return Err(Error::says("the server accepted the login but sent no session cookie"));
    }
    let text = match detail {
        Some(text) => text,
        None => if status == 401 || status == 403 {
            "wrong username or password".to_owned()
        } else if status == 429 {
            "too many attempts, wait a moment".to_owned()
        } else {
            "the server answered HTTP ".to_owned().concat(decimal_text(status as u64).as_str())
        },
    };
    Err(Error::new(text))
}

/// What signing in at `url` comes to. A body that cannot be read counts as an empty one.
pub open spec fn login_reply(url: Seq<char>, reply: Result<Reply, Error>) -> Result<
    LoginView,
    Seq<CauseView>,
> {
    match reply {
        Err(reason) => Err(failure("cannot reach "@ + url) + reason@),
        Ok(reply) => {
            let body = match reply.body {
                Ok(body) => body@,
                Err(_) => ""@,
            };
            login_answer(
                reply.status,
                texts(reply.cookies@),
                of_json(json_in(body), |json: JsonView| handoff(json)),
                of_json(json_in(body), |json: JsonView| complaint(json)),
            )
        },
    }
}

/// Reads what came back for a login at `url`, or why nothing did.
pub fn post_login(url: &str, reply: Result<Reply, Error>) -> (login: Result<Login, Error>)
    ensures
        said(login) == login_reply(url@, reply),
{
    let reply = match reply {
        Ok(reply) => reply,
        Err(reason) => {
            return Err(reason.context("cannot reach ".to_owned().concat(url)));
        },
    };
    let body = match reply.body {
        Ok(body) => body,
        Err(_) => "".to_owned(),
    };
    judge_login(reply.status, &reply.cookies, pending_token(body.as_str()), detail(body.as_str()))
}

/// Fetching `url` as the session with `token`.
pub open spec fn as_session(url: Seq<char>, token: Seq<char>) -> RequestView {
    fetch(Manner::Account, url, seq![("Cookie"@, "session_token="@ + token)])
}

fn session_request(url: String, token: &str) -> (request: Request)
    ensures
        request@ == as_session(url@, token@),
{
    let request = Request::get(Manner::Account, url).with(
        "Cookie",
        "session_token=".to_owned().concat(token),
    );
    assert(request@.headers =~= seq![("Cookie"@, "session_token="@ + token@)]);
    request
}

/// The request for the account behind a session.
pub fn account_request(token: &str) -> (request: Request)
    ensures
        request@ == as_session("https://playvortex.io/api/users/me"@, token@),
{
    session_request("https://playvortex.io/api/users/me".to_owned(), token)
}

/// The account in an answer, what it does not say made up for.
pub open spec fn account_in(json: JsonView) -> AccountView {
    AccountView {
        id: match json.number_at("id"@) {
            Some(id) => id,
            None => 0,
        },
        username: match json.text_at("username"@) {
            Some(name) => name,
            None => "unknown"@,
        },
    }
}

/// What the answer to a request for the account comes to.
pub open spec fn account_answer(
    status: u16,
    json: Result<JsonView, Seq<char>>,
) -> Result<AccountView, Seq<CauseView>> {
    if status == 401 || status == 403 {
        let why = match of_json(json, |json: JsonView| complaint(json)) {
            Some(text) => text,
            None => "HTTP "@ + decimal(status as nat),
        };
        Err(failure("session expired ("@ + why + ")"@))
    } else if !served(status) {
        Err(failure("the account check answered HTTP "@ + decimal(status as nat)))
    } else {
        match json {
            Ok(json) => Ok(account_in(json)),
            Err(reason) => Err(
                failure("the account response was not JSON"@) + failure(reason),
            ),
        }
    }
}

/// What the answer to a request for the account comes to, its body read already.
pub fn judge_account(status: u16, json: Result<Json, String>) -> (account: Result<Account, Error>)
    ensures
        said(account) == account_answer(status, read_as(json)),
{
    if status == 401 || status == 403 {
        let told = match &json {
            Ok(json) => complaint_text(json),
            Err(_) => None,
        };
        let why = match told {
            Some(text) => text,
            None => "HTTP ".to_owned().concat(decimal_text(status as u64).as_str()),
        };
        return Err(
            Error::new("session expired (".to_owned().concat(why.as_str()).concat(")")),
        );
    }
    if !(200 <= status && status < 300) {
        return Err(
            Error::new(
                "the account check answered HTTP ".to_owned().concat(
                    decimal_text(status as u64).as_str(),
                ),
            ),
        );
    }
    match json {
        Ok(json) => Ok(
            Account {
                id: match json.number_at("id") {
                    Some(id) => id,
                    None => 0,
                },
                username: match json.text_at("username") {
                    Some(name) => name.to_owned(),
                    None => "unknown".to_owned(),
                },
            },
        ),
        Err(reason) => Err(
            Error::new(reason).context("the account response was not JSON".to_owned()),
        ),
    }
}

/// What asking for the account comes to.
pub open spec fn account_reply(reply: Result<Reply, Error>) -> Result<AccountView, Seq<CauseView>> {
    match reply {
        Err(reason) => Err(failure("cannot reach playvortex.io"@) + reason@),
        Ok(reply) => match reply.body {
            Ok(body) => account_answer(reply.status, json_in(body@)),
            Err(reason) => Err(failure("cannot read the account response"@) + reason@),
        },
    }
}

/// Reads what came back for the account, or why nothing did.
pub fn account(reply: Result<Reply, Error>) -> (account: Result<Account, Error>)
    ensures
        said(account) == account_reply(reply),
{
    match reply {
        Err(reason) => Err(reason.context("cannot reach playvortex.io".to_owned())),
        Ok(reply) => match reply.body {
            Ok(body) => judge_account(reply.status, parse(body.as_str())),
            Err(reason) => Err(reason.context("cannot read the account response".to_owned())),
        },
    }
}

/// The request for the list of games.
pub fn games_request() -> (request: Request)
    ensures
        request@ == fetch(Manner::Account, "https://playvortex.io/api/games"@, seq![]),
{
    Request::get(Manner::Account, "https://playvortex.io/api/games".to_owned())
}

/// The game that an item of the list describes, if it has an id and a name.
pub open spec fn game_in(item: JsonView) -> Option<GameView> {
    match (item.number_at("id"@), item.text_at("name"@)) {
        (Some(id), Some(name)) => Some(
            GameView {
                id,
                name,
                players: match item.number_at("player_count"@) {
                    Some(players) => players,
                    None => 0,
                },
            },
        ),
        _ => None,
    }
}

/// The games that the items from the `i`th on describe.
pub open spec fn games_from(items: Seq<JsonView>, i: int) -> Seq<GameView>
    decreases items.len() - i,
{
    if i >= items.len() {
        seq![]
    } else {
        match game_in(items[i]) {
            Some(game) => seq![game] + games_from(items, i + 1),
            None => games_from(items, i + 1),
        }
    }
}

/// What the answer to a request for the games comes to.
pub open spec fn games_answer(json: Result<JsonView, Seq<char>>) -> Result<
    Seq<GameView>,
    Seq<CauseView>,
> {
    match json {
        Err(reason) => Err(failure("the game list was not JSON"@) + failure(reason)),
        Ok(json) => match json.items() {
            None => Err(failure("the game list was not a list"@)),
            Some(items) => Ok(games_from(items, 0)),
        },
    }
}

/// What a list of games, or the lack of one, says.
pub open spec fn games_said(games: Result<Vec<Game>, Error>) -> Result<
    Seq<GameView>,
    Seq<CauseView>,
> {
    match games {
        Ok(games) => Ok(games_view(games@)),
        Err(e) => Err(e@),
    }
}

/// What the answer to a request for the games comes to, its body read already.
pub fn judge_games(json: Result<Json, String>) -> (games: Result<Vec<Game>, Error>)
    ensures
        games_said(games) == games_answer(read_as(json)),
{
    let json = match json {
        Ok(json) => json,
        Err(reason) => {
            return Err(Error::new(reason).context("the game list was not JSON".to_owned()));
        },
    };
    match json.items() {
        None => Err(Error::says("the game list was not a list")),
        Some(items) => {
            let ghost all = json@.items()->0;
            let mut games: Vec<Game> = Vec::new();
            let mut i: usize = 0;
            assert(games_view(games@) + games_from(all, 0) =~= games_from(all, 0));
            while i < items.len()
                invariant
                    i <= items.len(),
                    all.len() == items.len(),
                    forall|j: int| 0 <= j < all.len() ==> #[trigger] all[j] == items@[j]@,
                    games_view(games@) + games_from(all, i as int) == games_from(all, 0),
                decreases items.len() - i,
            {
                assert(all[i as int] == items@[i as int]@);
                let item = &items[i];
                let ghost before = games@;
                if let (Some(id), Some(name)) = (item.number_at("id"), item.text_at("name")) {
                    let players: u64 = match item.number_at("player_count") {
                        Some(players) => players,
                        None => 0,
                    };
                    let game = Game { id, name: name.to_owned(), players };
                    assert(game_in(all[i as int]) == Some(game@));
                    games.push(game);
                    assert(games_view(games@) =~= games_view(before).push(game@));
                    assert(games_view(games@) + games_from(all, i + 1) =~= games_view(before)
                        + games_from(all, i as int));
                }
                i += 1;
            }
            assert(games_view(games@) + games_from(all, i as int) =~= games_view(games@));
            Ok(games)
        },
    }
}

/// What asking for the games comes to.
pub open spec fn games_reply(reply: Result<Reply, Error>) -> Result<
    Seq<GameView>,
    Seq<CauseView>,
> {
    match reply {
        Err(reason) => Err(failure("cannot fetch the game list"@) + reason@),
        Ok(reply) => match reply.body {
            Ok(body) => games_answer(json_in(body@)),
            Err(reason) => Err(failure("cannot read the game list"@) + reason@),
        },
    }
}

/// Reads what came back for the games, or why nothing did.
pub fn games(reply: Result<Reply, Error>) -> (games: Result<Vec<Game>, Error>)
    ensures
        games_said(games) == games_reply(reply),
{
    match reply {
        Err(reason) => Err(reason.context("cannot fetch the game list".to_owned())),
        Ok(reply) => match reply.body {
            Ok(body) => judge_games(parse(body.as_str())),
            Err(reason) => Err(reason.context("cannot read the game list".to_owned())),
        },
    }
}

/// The address of the page that starts a game, on a certain server where one is named.
pub open spec fn play_page(game_id: u64, instance: Option<Seq<char>>) -> Seq<char> {
    let page = "https://playvortex.io/games/"@ + decimal(game_id as nat) + "/play"@;
    match instance {
        Some(id) => page + "?instance="@ + id,
        None => page,
    }
}

/// The request for the page that starts a game. Its answer goes to [`play_uri`].
pub fn play_request(token: &str, game_id: u64, instance: Option<&str>) -> (request: Request)
    ensures
        request@ == as_session(play_page(game_id, borrowed(instance)), token@),
{
    let page = "https://playvortex.io/games/".to_owned().concat(
        decimal_text(game_id).as_str(),
    ).concat("/play");
    let url = match instance {
        Some(id) => page.concat("?instance=").concat(id),
        None => page,
    };
    session_request(url, token)
}

/// The first vortex:// link in a page, up to a quote, a tag or white space.
pub open spec fn link_in(html: Seq<char>) -> Option<Seq<char>> {
    match position(html, "vortex://"@, 0) {
        Some(at) => Some(html.subrange(at, next_in(html, Class::LinkEnd, at))),
        None => None,
    }
}

/// The first vortex:// link in a page.
pub fn extract_uri(html: &str) -> (uri: Option<String>)
    ensures
        text_in(uri) == link_in(html@),
{
    let v = chars_of(html);
    match find_text(&v, &chars_of("vortex://"), 0) {
        Some(at) => {
            let end: usize = find_in(&v, Class::LinkEnd, at);
            Some(text_of(&v, at, end))
        },
        None => None,
    }
}

/// What the page that starts a game comes to.
pub open spec fn play_answer(
    status: u16,
    body: Result<Seq<char>, Seq<CauseView>>,
) -> Result<Seq<char>, Seq<CauseView>> {
    if status == 401 || status == 403 || 300 <= status < 400 {
        Err(
            failure(
                "session expired (the play page answered HTTP "@ + decimal(status as nat) + ")"@,
            ),
        )
    } else if !served(status) {
        Err(failure("the play page answered HTTP "@ + decimal(status as nat)))
    } else {
        match body {
            Err(reason) => Err(failure("cannot read the play page"@) + reason),
            Ok(html) => match link_in(html) {
                Some(uri) => Ok(uri),
                None => Err(
                    failure("the play page had no vortex:// link, the site may have changed"@),
                ),
            },
        }
    }
}

/// What fetching the page that starts a game comes to.
pub open spec fn play_reply(reply: Result<Reply, Error>) -> Result<Seq<char>, Seq<CauseView>> {
    match reply {
        Err(reason) => Err(failure("cannot reach the play page"@) + reason@),
        Ok(reply) => play_answer(reply.status, said(reply.body)),
    }
}

/// Reads the page that starts a game, which carries the launch link, or why it did not come.
pub fn play_uri(reply: Result<Reply, Error>) -> (uri: Result<String, Error>)
    ensures
        said(uri) == play_reply(reply),
{
    let reply = match reply {
        Ok(reply) => reply,
        Err(reason) => {
            return Err(reason.context("cannot reach the play page".to_owned()));
        },
    };
    let status: u16 = reply.status;
    if status == 401 || status == 403 || (300 <= status && status < 400) {
        return Err(
            Error::new(
                "session expired (the play page answered HTTP ".to_owned().concat(
                    decimal_text(status as u64).as_str(),
                ).concat(")"),
            ),
        );
    }
    if !(200 <= status && status < 300) {
        return Err(
            Error::new(
                "the play page answered HTTP ".to_owned().concat(
                    decimal_text(status as u64).as_str(),
                ),
            ),
        );
    }
    match reply.body {
        Err(reason) => Err(reason.context("cannot read the play page".to_owned())),
        Ok(html) => match extract_uri(html.as_str()) {
            Some(uri) => Ok(uri),
            None => Err(
                Error::says("the play page had no vortex:// link, the site may have changed"),
            ),
        },
    }
}

/// A link of `scheme` that may be handed to a program: not too long, and without white space or
/// zero characters.
pub open spec fn launchable(uri: Seq<char>, scheme: Seq<char>) -> bool {
    &&& begins(uri, scheme)
    &&& byte_len(uri) <= 4096
    &&& forall|i: int| 0 <= i < uri.len() ==> !white_space(#[trigger] uri[i]) && uri[i] != '\0'
}

fn is_link(uri: &str, scheme: &str) -> (b: bool)
    ensures
        b == launchable(uri@, scheme@),
{
    if !starts_with(uri, scheme) || !fits(uri, 4096) {
        return false;
    }
    let v = chars_of(uri);
    let mut i: usize = 0;
    while i < v.len()
        invariant
            v@ == uri@,
            i <= v.len(),
            forall|j: int| 0 <= j < i ==> !white_space(#[trigger] uri@[j]) && uri@[j] != '\0',
        decreases v.len() - i,
    {
        if Class::Space.contains(v[i]) || v[i] == '\0' {
            assert(white_space(uri@[i as int]) || uri@[i as int] == '\0');
            return false;
        }
        i += 1;
    }
    true
}

/// Whether `uri` is a link that starts the game. Nothing else ever reaches the game's arguments.
pub fn is_launch_uri(uri: &str) -> (b: bool)
    ensures
        b == launchable(uri@, "vortex://"@),
{
    is_link(uri, "vortex://")
}

/// Whether `uri` is a link that starts the studio.
pub fn is_studio_uri(uri: &str) -> (b: bool)
    ensures
        b == launchable(uri@, "vortex-studio://"@),
{
    is_link(uri, "vortex-studio://")
}

/// The link that a page carries can be launched, unless it is too long or holds a zero character.
pub proof fn a_link_from_a_page_is_launchable(html: Seq<char>)
    requires
        link_in(html) matches Some(uri) && byte_len(uri) <= 4096 && !uri.contains('\0'),
    ensures
        launchable(link_in(html)->0, "vortex://"@),
{
    let at = position(html, "vortex://"@, 0)->0;
    let end = next_in(html, Class::LinkEnd, at);
    let uri = link_in(html)->0;
    lemma_position(html, "vortex://"@, 0);
    lemma_next_in(html, Class::LinkEnd, at);
    reveal_strlit("vortex://");
    if end < at + 9 {
        assert(html.subrange(at, at + 9)[end - at] == html[end]);
        assert(Class::LinkEnd.has("vortex://"@[end - at]));
        assert(false);
    }
    assert(uri.subrange(0, 9) =~= html.subrange(at, at + 9));
    assert forall|i: int| 0 <= i < uri.len() implies !white_space(#[trigger] uri[i]) && uri[i]
        != '\0' by {
        assert(uri[i] == html[at + i]);
        assert(!Class::LinkEnd.has(html[at + i]));
        assert(uri.contains(uri[i]));
    }
}

/// A link starts the game or the studio, never both.
pub proof fn a_link_has_one_target(uri: Seq<char>)
    ensures
        !(launchable(uri, "vortex://"@) && launchable(uri, "vortex-studio://"@)),
{
    reveal_strlit("vortex://");
    reveal_strlit("vortex-studio://");
    if begins(uri, "vortex://"@) && begins(uri, "vortex-studio://"@) {
        assert(uri.subrange(0, 9)[6] == ':');
        assert(uri.subrange(0, 16)[6] == '-');
    }
}

/// A refused login tells no session: whatever cookies an error answer carries, nobody is signed in.
pub proof fn a_refused_login_signs_nobody_in(
    status: u16,
    cookies: Seq<Seq<char>>,
    pending: Option<Seq<char>>,
    detail: Option<Seq<char>>,
)
    requires
        status >= 400 || status < 200,
    ensures
        login_answer(status, cookies, pending, detail) is Err,
{
}

}
