//! What holds of every request to the site, and of every answer.
use vstd::prelude::*;

use crate::auth::{
    account_answer, account_in, account_reply, as_session, complaint, cookie_token, first_token,
    game_in, games_answer, games_from, games_reply, games_said, games_view, giving_code, handoff, link_in, login_answer,
    login_reply, of_json, play_answer, play_page, play_reply, signing_in, Account, AccountView, Game,
    GameView, Login, LoginView,
};
use crate::error::{failure, CauseView, Error};
use crate::json::laws::{a_member_is_the_first_of_its_name, has_member, lacks_member};
use crate::json::{json_in, JsonView};
use crate::net::laws::{says_once, speaks_for, speaks_for_nobody};
use crate::net::{Reply, RequestView};
use crate::text::laws::{
    a_text_without_separator_is_one_piece, all_in, bare, decimals_are_digits, none_in,
    pieces_around_a_separator, trimming_drops_what_stands_around, trimming_may_leave_nothing,
};
use crate::text::{
    decimal, end_without, lemma_end_without, lemma_next_char, lemma_next_in, lemma_next_not_in,
    lemma_position, next_char, next_in, next_not_in, occurs, pieces, position, texts, trimmed, Class,
};

verus! {

broadcast use vstd::string::group_string_axioms;

/// An answer to a login, an account and a game are what their fields say.
pub proof fn what_the_site_says_is_what_the_fields_say(login: Login, account: Account, game: Game)
    ensures
        login matches Login::Done(token) ==> login@ == LoginView::Done(token@),
        login matches Login::Needs2fa(pending) ==> login@ == LoginView::Needs2fa(pending@),
        account@.id == account.id,
        account@.username == account.username@,
        game@.id == game.id,
        game@.name == game.name@,
        game@.players == game.players,
{
}

/// The games that came are those of the list, each as it is.
pub proof fn the_games_that_came_are_those_of_the_list(
    games: Result<Vec<Game>, Error>,
    list: Seq<Game>,
)
    ensures
        games_view(list).len() == list.len(),
        forall|i: int| 0 <= i < list.len() ==> #[trigger] games_view(list)[i] == list[i]@,
        match games {
            Ok(games) => games_said(Ok(games)) == Ok::<_, Seq<CauseView>>(games_view(games@)),
            Err(error) => games_said(Err(error)) == Err::<Seq<GameView>, _>(error@),
        },
{
}

/// Whether a request posts a form in which `name` stands once, and with this value.
pub open spec fn gives(request: RequestView, name: Seq<char>, value: Seq<char>) -> bool {
    request.form matches Some(form) && says_once(form, name, value)
}

proof fn lemma_field_names()
    ensures
        "username"@ != "password"@,
        "username"@ != "fingerprint"@,
        "username"@ != "fp_token"@,
        "password"@ != "fingerprint"@,
        "password"@ != "fp_token"@,
        "fingerprint"@ != "fp_token"@,
        "code"@ != "pending_token"@,
        "code"@ != "fingerprint"@,
        "code"@ != "fp_token"@,
        "pending_token"@ != "fingerprint"@,
        "pending_token"@ != "fp_token"@,
{
    reveal_strlit("username");
    reveal_strlit("password");
    reveal_strlit("fingerprint");
    reveal_strlit("fp_token");
    reveal_strlit("code");
    reveal_strlit("pending_token");
    assert("username"@[0] == 'u' && "password"@[0] == 'p' && "fp_token"@[0] == 'f');
    assert("fingerprint"@.len() == 11 && "fp_token"@.len() == 8 && "username"@.len() == 8);
    assert("password"@.len() == 8 && "code"@.len() == 4 && "pending_token"@.len() == 13);
}

/// Signing in posts a form whose user name is the one given and whose password is the one given, and
/// speaks for nobody yet.
pub proof fn signing_in_gives_the_name_and_the_password(username: Seq<char>, password: Seq<char>)
    ensures
        signing_in(username, password).url == "https://playvortex.io/login"@,
        gives(signing_in(username, password), "username"@, username),
        gives(signing_in(username, password), "password"@, password),
        gives(signing_in(username, password), "fingerprint"@, ""@),
        gives(signing_in(username, password), "fp_token"@, ""@),
        speaks_for_nobody(signing_in(username, password)),
{
    lemma_field_names();
    let form = signing_in(username, password).form->0;
    assert(form[0] == ("username"@, username));
    assert(form[1] == ("password"@, password));
    assert(form[2] == ("fingerprint"@, ""@));
    assert(form[3] == ("fp_token"@, ""@));
}

/// The second step of a login posts the code that the user gave and the token that the first step was
/// answered with.
pub proof fn the_code_goes_with_its_login(pending: Seq<char>, code: Seq<char>)
    ensures
        giving_code(pending, code).url == "https://playvortex.io/login/2fa"@,
        gives(giving_code(pending, code), "code"@, code),
        gives(giving_code(pending, code), "pending_token"@, pending),
        gives(giving_code(pending, code), "fingerprint"@, ""@),
        gives(giving_code(pending, code), "fp_token"@, ""@),
        speaks_for_nobody(giving_code(pending, code)),
{
    lemma_field_names();
    let form = giving_code(pending, code).form->0;
    assert(form[0] == ("code"@, code));
    assert(form[1] == ("pending_token"@, pending));
    assert(form[2] == ("fingerprint"@, ""@));
    assert(form[3] == ("fp_token"@, ""@));
}

/// A request of a session is fetched at its address, and speaks for just that session.
pub proof fn a_session_speaks_for_itself(url: Seq<char>, token: Seq<char>)
    ensures
        as_session(url, token).url == url,
        as_session(url, token).form is None,
        speaks_for(as_session(url, token), token),
{
    assert(as_session(url, token).headers[0] == ("Cookie"@, "session_token="@ + token));
}

/// The page that starts a game has the number of that game in its address, and the name of the server
/// where one is named; the pages of different games, or of different servers, differ.
pub proof fn each_game_has_its_own_page(
    game: u64,
    other: u64,
    instance: Seq<char>,
    another: Seq<char>,
)
    ensures
        play_page(game, None) == "https://playvortex.io/games/"@ + decimal(game as nat) + "/play"@,
        play_page(game, Some(instance)) == "https://playvortex.io/games/"@ + decimal(game as nat)
            + "/play?instance="@ + instance,
        game != other ==> play_page(game, None) != play_page(other, None),
        instance != another ==> play_page(game, Some(instance)) != play_page(game, Some(another)),
{
    reveal_strlit("/play");
    reveal_strlit("?instance=");
    reveal_strlit("/play?instance=");
    let page = "https://playvortex.io/games/"@ + decimal(game as nat);
    assert("/play"@ + "?instance="@ =~= "/play?instance="@);
    assert(page + "/play"@ + "?instance="@ + instance =~= page + "/play?instance="@ + instance);
    decimals_are_digits(game as nat);
    let site = "https://playvortex.io/games/"@;
    if play_page(game, None) == play_page(other, None) {
        let here = play_page(game, None);
        let there = play_page(other, None);
        let a = decimal(game as nat);
        let b = decimal(other as nat);
        assert(here.len() == site.len() + a.len() + 5);
        assert(there.len() == site.len() + b.len() + 5);
        assert(a =~= here.subrange(site.len() as int, (site.len() + a.len()) as int));
        assert(b =~= there.subrange(site.len() as int, (site.len() + b.len()) as int));
    }
    if play_page(game, Some(instance)) == play_page(game, Some(another)) {
        let whole = play_page(game, None) + "?instance="@;
        assert((whole + instance).skip(whole.len() as int) =~= instance);
        assert((whole + another).skip(whole.len() as int) =~= another);
    }
}

proof fn lemma_pair(name: Seq<char>, behind: Seq<char>)
    requires
        !name.contains('='),
    ensures
        ({
            let pair = name + seq!['='] + behind;
            let at = next_char(pair, '=', 0);
            &&& at == name.len() && at < pair.len()
            &&& pair.take(at) == name
            &&& pair.skip(at + 1) == behind
        }),
{
    let pair = name + seq!['='] + behind;
    lemma_next_char(pair, '=', 0);
    let at = next_char(pair, '=', 0);
    assert(pair[name.len() as int] == '=');
    if at < name.len() {
        assert(name[at] == '=');
    }
    assert(pair.take(at) =~= name);
    assert(pair.skip(at + 1) =~= behind);
}

/// The first piece of a header, up to a semicolon where there is one.
proof fn lemma_first_piece(piece: Seq<char>, rest: Seq<char>)
    requires
        !piece.contains(';'),
        rest.len() == 0 || rest[0] == ';',
    ensures
        pieces(piece + rest, ';', 0)[0] == piece,
{
    if rest.len() == 0 {
        assert(piece + rest =~= piece);
        a_text_without_separator_is_one_piece(piece, ';');
    } else {
        assert(piece + rest =~= piece + seq![';'] + rest.skip(1));
        pieces_around_a_separator(piece, ';', rest.skip(1));
    }
}

/// The token in a cookie is all that stands between the equals sign and the end or the first
/// semicolon, without the white space and the quotes around it.
pub proof fn a_cookie_gives_its_token(
    front: Seq<char>,
    before: Seq<char>,
    behind: Seq<char>,
    opening: Seq<char>,
    token: Seq<char>,
    closing: Seq<char>,
    back: Seq<char>,
    rest: Seq<char>,
)
    requires
        all_in(front, Class::Space) && all_in(before, Class::Space),
        all_in(behind, Class::Space) && all_in(back, Class::Space),
        all_in(opening, Class::Quote) && all_in(closing, Class::Quote),
        bare(token, Class::Quote),
        opening.len() > 0 || !Class::Space.has(token[0]),
        closing.len() > 0 || !Class::Space.has(token.last()),
        !token.contains(';'),
        rest.len() == 0 || rest[0] == ';',
    ensures
        cookie_token(
            front + "session_token"@ + before + seq!['='] + behind + opening + token + closing + back
                + rest,
        ) == Some(token),
{
    reveal_strlit("session_token");
    let name = "session_token"@ + before;
    let quoted = opening + token + closing;
    let value = behind + quoted;
    let pair = name + seq!['='] + value;
    let piece = front + pair + back;
    let header = front + "session_token"@ + before + seq!['='] + behind + opening + token + closing
        + back + rest;
    assert(header =~= piece + rest);
    assert(!piece.contains(';')) by {
        if piece.contains(';') {
            let i = choose|i: int| 0 <= i < piece.len() && piece[i] == ';';
            let a = front.len() as int;
            let b = a + 13;
            let c = b + before.len();
            let d = c + 1;
            let e = d + behind.len();
            let f = e + opening.len();
            let g = f + token.len();
            let h = g + closing.len();
            if i < a {
                assert(piece[i] == front[i]);
            } else if i < b {
                assert(piece[i] == "session_token"@[i - a]);
            } else if i < c {
                assert(piece[i] == before[i - b]);
            } else if i < d {
                assert(piece[i] == '=');
            } else if i < e {
                assert(piece[i] == behind[i - d]);
            } else if i < f {
                assert(piece[i] == opening[i - e]);
            } else if i < g {
                assert(piece[i] == token[i - f]);
                assert(token.contains(';'));
            } else if i < h {
                assert(piece[i] == closing[i - g]);
            } else {
                assert(piece[i] == back[i - h]);
            }
        }
    }
    lemma_first_piece(piece, rest);
    assert(!Class::Space.has(quoted[0])) by {
        if opening.len() > 0 {
            assert(quoted[0] == opening[0]);
            assert(Class::Quote.has(opening[0]));
        } else {
            assert(quoted[0] == token[0]);
        }
    }
    assert(!Class::Space.has(quoted.last())) by {
        if closing.len() > 0 {
            assert(quoted.last() == closing[closing.len() - 1]);
            assert(Class::Quote.has(closing[closing.len() - 1]));
        } else {
            assert(quoted.last() == token.last());
        }
    }
    assert(pair.last() == quoted.last());
    assert(pair[0] == 's');
    trimming_drops_what_stands_around(front, pair, back, Class::Space);
    assert(!name.contains('=')) by {
        if name.contains('=') {
            let i = choose|i: int| 0 <= i < name.len() && name[i] == '=';
            if i >= 13 {
                assert(name[i] == before[i - 13]);
            }
        }
    }
    lemma_pair(name, value);
    let none = Seq::<char>::empty();
    trimming_drops_what_stands_around(none, "session_token"@, before, Class::Space);
    assert(none + "session_token"@ + before =~= name);
    trimming_drops_what_stands_around(behind, quoted, none, Class::Space);
    assert(behind + quoted + none =~= value);
    trimming_drops_what_stands_around(opening, token, closing, Class::Quote);
}

/// No other cookie gives a token, and neither does one without an equals sign or without a value.
pub proof fn no_other_cookie_gives_a_token(name: Seq<char>, value: Seq<char>, rest: Seq<char>)
    requires
        bare(name, Class::Space),
        !name.contains('=') && !name.contains(';') && !value.contains(';'),
        rest.len() == 0 || rest[0] == ';',
    ensures
        cookie_token(name + rest) is None,
        name != "session_token"@ ==> cookie_token(name + seq!['='] + value + rest) is None,
        all_in(value, Class::Space) ==> cookie_token(name + seq!['='] + value + rest) is None,
{
    let none = Seq::<char>::empty();
    lemma_first_piece(name, rest);
    trimming_drops_what_stands_around(none, name, none, Class::Space);
    assert(none + name + none =~= name);
    lemma_next_char(name, '=', 0);
    if next_char(name, '=', 0) < name.len() {
        assert(name.contains(name[next_char(name, '=', 0)]));
    }
    let whole = name + seq!['='] + value;
    assert(!whole.contains(';')) by {
        if whole.contains(';') {
            let i = choose|i: int| 0 <= i < whole.len() && whole[i] == ';';
            if i < name.len() {
                assert(name[i] == ';');
            } else if i > name.len() {
                assert(value[i - name.len() - 1] == ';');
            }
        }
    }
    lemma_first_piece(whole, rest);
    let lo = next_not_in(whole, Class::Space, 0);
    lemma_next_not_in(whole, Class::Space, 0);
    assert(whole[0] == name[0]);
    assert(lo == 0);
    lemma_end_without(whole, Class::Space, 0, whole.len() as int);
    let hi = end_without(whole, Class::Space, 0, whole.len() as int);
    assert(whole[name.len() as int] == '=');
    assert(hi > name.len()) by {
        if hi <= name.len() {
            assert(Class::Space.has(whole[name.len() as int]));
        }
    }
    let pair = trimmed(whole, Class::Space);
    let kept = value.take(hi - name.len() - 1);
    assert(pair =~= name + seq!['='] + kept);
    lemma_pair(name, kept);
    if all_in(value, Class::Space) {
        assert(all_in(kept, Class::Space)) by {
            assert forall|i: int| 0 <= i < kept.len() implies Class::Space.has(
                #[trigger] kept[i],
            ) by {
                assert(kept[i] == value[i]);
            }
        }
        trimming_may_leave_nothing(kept, Class::Space);
        let bare_value = trimmed(kept, Class::Space);
        assert(all_in(bare_value, Class::Quote));
        trimming_may_leave_nothing(bare_value, Class::Quote);
    }
}

proof fn lemma_first_token(cookies: Seq<Seq<char>>, i: int)
    requires
        0 <= i,
    ensures
        match first_token(cookies, i) {
            Some(token) => exists|j: int|
                i <= j < cookies.len() && #[trigger] cookie_token(cookies[j]) == Some(token)
                    && forall|k: int| i <= k < j ==> #[trigger] cookie_token(cookies[k]) is None,
            None => forall|j: int|
                i <= j < cookies.len() ==> #[trigger] cookie_token(cookies[j]) is None,
        },
    decreases cookies.len() - i,
{
    if i < cookies.len() && cookie_token(cookies[i]) is None {
        lemma_first_token(cookies, i + 1);
    }
}

/// A login succeeds exactly if the status is one of success or of a redirect and either a code is
/// asked for, which goes first, or a cookie gives a token, of which the first counts.
pub proof fn a_login_succeeds_with_a_code_or_a_token(
    status: u16,
    cookies: Seq<Seq<char>>,
    pending: Option<Seq<char>>,
    detail: Option<Seq<char>>,
    i: int,
)
    requires
        0 <= i < cookies.len(),
        cookie_token(cookies[i]) is Some,
        forall|j: int| 0 <= j < i ==> #[trigger] cookie_token(cookies[j]) is None,
    ensures
        200 <= status <= 399 ==> login_answer(status, cookies, pending, detail) == Ok::<
            _,
            Seq<CauseView>,
        >(
            match pending {
                Some(pending) => LoginView::Needs2fa(pending),
                None => LoginView::Done(cookie_token(cookies[i])->0),
            },
        ),
        !(200 <= status <= 399) ==> login_answer(status, cookies, pending, detail) is Err,
{
    lemma_first_token(cookies, 0);
}

/// Without a cookie that gives a token a login succeeds only as far as a code is asked for.
pub proof fn a_login_without_a_token_asks_for_a_code(
    status: u16,
    cookies: Seq<Seq<char>>,
    pending: Option<Seq<char>>,
    detail: Option<Seq<char>>,
)
    requires
        forall|j: int|
            0 <= j < cookies.len() ==> #[trigger] cookie_token(cookies[j]) is None,
        200 <= status <= 399,
    ensures
        pending matches Some(pending) ==> login_answer(status, cookies, Some(pending), detail)
            == Ok::<_, Seq<CauseView>>(LoginView::Needs2fa(pending)),
        pending is None ==> login_answer(status, cookies, pending, detail) == Err::<LoginView, _>(
            failure("the server accepted the login but sent no session cookie"@),
        ),
{
    lemma_first_token(cookies, 0);
}

/// A refused login is told in the server's words where it has any, and else by its status.
pub proof fn a_refused_login_is_told(
    status: u16,
    cookies: Seq<Seq<char>>,
    pending: Option<Seq<char>>,
    detail: Option<Seq<char>>,
)
    requires
        status < 200 || 399 < status,
    ensures
        login_answer(status, cookies, pending, detail) == Err::<LoginView, _>(
            failure(
                if detail is Some {
                    detail->0
                } else if status == 401 || status == 403 {
                    "wrong username or password"@
                } else if status == 429 {
                    "too many attempts, wait a moment"@
                } else {
                    "the server answered HTTP "@ + decimal(status as nat)
                },
            ),
        ),
{
}

/// A code is asked for exactly if the answer says so, and the token for it is the one the answer
/// names, or an empty one. What the server says of an error stands under its own name.
pub proof fn a_code_is_asked_for_if_the_answer_says_so(
    json: JsonView,
    flag: JsonView,
    token: Seq<char>,
    other: JsonView,
)
    ensures
        has_member(json, "requires_2fa"@, flag) ==> (handoff(json) is Some <==> flag
            == JsonView::Bool(true)),
        lacks_member(json, "requires_2fa"@) ==> handoff(json) is None,
        has_member(json, "requires_2fa"@, JsonView::Bool(true)) && has_member(
            json,
            "pending_token"@,
            JsonView::Text(token),
        ) ==> handoff(json) == Some(token),
        has_member(json, "requires_2fa"@, JsonView::Bool(true)) && lacks_member(
            json,
            "pending_token"@,
        ) ==> handoff(json) == Some(Seq::<char>::empty()),
        has_member(json, "requires_2fa"@, JsonView::Bool(true)) && has_member(
            json,
            "pending_token"@,
            other,
        ) && !(other is Text) ==> handoff(json) == Some(Seq::<char>::empty()),
        has_member(json, "detail"@, other) && !(other is Text) ==> complaint(json) is None,
        has_member(json, "detail"@, JsonView::Text(token)) ==> complaint(json) == Some(token),
        lacks_member(json, "detail"@) ==> complaint(json) is None,
{
    a_member_is_the_first_of_its_name(json, "requires_2fa"@);
    a_member_is_the_first_of_its_name(json, "pending_token"@);
    a_member_is_the_first_of_its_name(json, "detail"@);
}

/// The account in an answer has the number and the name that the answer gives, zero and `unknown`
/// where it gives none.
pub proof fn an_account_is_what_the_answer_names(
    json: JsonView,
    id: u64,
    name: Seq<char>,
    other: JsonView,
)
    ensures
        has_member(json, "id"@, other) && !(other is Number) ==> account_in(json).id == 0,
        has_member(json, "username"@, other) && !(other is Text) ==> account_in(json).username
            == "unknown"@,
        has_member(json, "id"@, JsonView::Number(Some(id))) ==> account_in(json).id == id,
        lacks_member(json, "id"@) ==> account_in(json).id == 0,
        has_member(json, "username"@, JsonView::Text(name)) ==> account_in(json).username == name,
        lacks_member(json, "username"@) ==> account_in(json).username == "unknown"@,
{
    a_member_is_the_first_of_its_name(json, "id"@);
    a_member_is_the_first_of_its_name(json, "username"@);
}

/// Asking for the account succeeds exactly if it is served as JSON. A session that is not let in is
/// told as expired, in the server's words where it has any.
pub proof fn an_account_is_served_or_the_session_expired(
    status: u16,
    json: Result<JsonView, Seq<char>>,
)
    ensures
        account_answer(status, json) is Ok <==> 200 <= status <= 299 && json is Ok,
        account_answer(status, json) is Ok ==> account_answer(status, json)->Ok_0 == account_in(
            json->Ok_0,
        ),
        status == 401 || status == 403 ==> account_answer(status, json)->Err_0 == failure(
            "session expired ("@ + (if json is Ok && complaint(json->Ok_0) is Some {
                complaint(json->Ok_0)->0
            } else {
                "HTTP "@ + decimal(status as nat)
            }) + ")"@,
        ),
        !(200 <= status <= 299) && status != 401 && status != 403 ==> account_answer(
            status,
            json,
        )->Err_0 == failure("the account check answered HTTP "@ + decimal(status as nat)),
{
}

/// A game of the list has the number, the name and the players that its item gives; an item without a
/// number or a name is no game, and one without players has none.
pub proof fn a_game_is_what_its_item_names(
    item: JsonView,
    id: u64,
    name: Seq<char>,
    players: u64,
    other: JsonView,
)
    ensures
        has_member(item, "id"@, other) && !(other is Number) ==> game_in(item) is None,
        has_member(item, "name"@, other) && !(other is Text) ==> game_in(item) is None,
        lacks_member(item, "id"@) || lacks_member(item, "name"@) ==> game_in(item) is None,
        has_member(item, "id"@, JsonView::Number(Some(id))) && has_member(
            item,
            "name"@,
            JsonView::Text(name),
        ) ==> game_in(item) is Some && game_in(item)->0.id == id && game_in(item)->0.name == name && (
        has_member(item, "player_count"@, JsonView::Number(Some(players))) ==> game_in(item)->0.players
            == players) && (lacks_member(item, "player_count"@) ==> game_in(item)->0.players == 0),
{
    a_member_is_the_first_of_its_name(item, "id"@);
    a_member_is_the_first_of_its_name(item, "name"@);
    a_member_is_the_first_of_its_name(item, "player_count"@);
}

/// The games of a list come in its order, and an item that is no game is passed over.
pub proof fn games_come_in_the_order_of_the_list(first: JsonView, rest: Seq<JsonView>)
    ensures
        games_from(seq![first] + rest, 0) == (match game_in(first) {
            Some(game) => seq![game],
            None => seq![],
        }) + games_from(rest, 0),
        games_from(Seq::empty(), 0).len() == 0,
        games_answer(Ok(JsonView::List(rest))) == Ok::<_, Seq<CauseView>>(games_from(rest, 0)),
        !(first is List) ==> games_answer(Ok(first)) == Err::<Seq<GameView>, _>(
            failure("the game list was not a list"@),
        ),
{
    lemma_games_shifted(first, rest, 0);
}

proof fn lemma_games_shifted(first: JsonView, rest: Seq<JsonView>, i: int)
    requires
        0 <= i <= rest.len(),
    ensures
        games_from(seq![first] + rest, i + 1) == games_from(rest, i),
    decreases rest.len() - i,
{
    if i < rest.len() {
        lemma_games_shifted(first, rest, i + 1);
        assert((seq![first] + rest)[i + 1] == rest[i]);
    }
}

/// The link of a page is the first that stands in it, up to the quote, the tag or the white space that
/// ends it.
pub proof fn the_first_link_of_a_page_is_taken(front: Seq<char>, rest: Seq<char>, back: Seq<char>)
    requires
        forall|at: int|
            0 <= at < front.len() ==> !occurs(front + "vortex://"@ + rest + back, "vortex://"@, at),
        none_in(rest, Class::LinkEnd),
        back.len() == 0 || back[0] == '"' || back[0] == '\'' || back[0] == '<' || back[0] == ' '
            || back[0] == '\n',
    ensures
        link_in(front + "vortex://"@ + rest + back) == Some("vortex://"@ + rest),
{
    reveal_strlit("vortex://");
    let html = front + "vortex://"@ + rest + back;
    let k = front.len() as int;
    lemma_position(html, "vortex://"@, 0);
    assert(html.subrange(k, k + 9) =~= "vortex://"@);
    assert(occurs(html, "vortex://"@, k));
    assert(position(html, "vortex://"@, 0) == Some(k));
    lemma_next_in(html, Class::LinkEnd, k);
    let end = next_in(html, Class::LinkEnd, k);
    let stop = k + 9 + rest.len();
    if end < stop {
        if end < k + 9 {
            assert(html[end] == "vortex://"@[end - k]);
        } else {
            assert(html[end] == rest[end - k - 9]);
        }
    }
    if end > stop {
        assert(html[stop] == back[0]);
    }
    assert(html.subrange(k, end) =~= "vortex://"@ + rest);
}

/// A page without a link gives none.
pub proof fn a_page_without_a_link_gives_none(html: Seq<char>)
    requires
        forall|at: int| 0 <= at < html.len() ==> !occurs(html, "vortex://"@, at),
    ensures
        link_in(html) is None,
{
    reveal_strlit("vortex://");
    lemma_position(html, "vortex://"@, 0);
}

/// The page that starts a game gives its link exactly if it is served, can be read and has one. A
/// session that is not let in, or that is sent elsewhere, is told as expired.
pub proof fn the_play_page_gives_a_link_or_says_why(
    status: u16,
    body: Result<Seq<char>, Seq<CauseView>>,
)
    ensures
        play_answer(status, body) is Ok <==> 200 <= status <= 299 && body is Ok && link_in(
            body->Ok_0,
        ) is Some,
        play_answer(status, body) is Ok ==> play_answer(status, body)->Ok_0 == link_in(
            body->Ok_0,
        )->0,
        status == 401 || status == 403 || 300 <= status <= 399 ==> play_answer(status, body)->Err_0
            == failure(
            "session expired (the play page answered HTTP "@ + decimal(status as nat) + ")"@,
        ),
        status < 200 || 400 <= status && status != 401 && status != 403 ==> play_answer(
            status,
            body,
        )->Err_0 == failure("the play page answered HTTP "@ + decimal(status as nat)),
        200 <= status <= 299 && body is Ok && link_in(body->Ok_0) is None ==> play_answer(
            status,
            body,
        )->Err_0 == failure(
            "the play page had no vortex:// link, the site may have changed"@,
        ),
{
}

/// What the server answers to a login is judged by its status, its cookies and what its body says; a
/// body that cannot be read says nothing, and a server that cannot be reached is named.
pub proof fn a_login_is_judged_by_all_of_the_answer(
    url: Seq<char>,
    reply: Reply,
    body: Seq<char>,
    json: JsonView,
    why: Seq<char>,
    reason: Error,
)
    requires
        reply.body is Ok ==> body == reply.body->Ok_0@,
        reply.body is Err ==> body == ""@,
    ensures
        json_in(body) == Ok::<_, Seq<char>>(json) ==> login_reply(url, Ok(reply)) == login_answer(
            reply.status,
            texts(reply.cookies@),
            handoff(json),
            complaint(json),
        ),
        json_in(body) == Err::<JsonView, _>(why) ==> login_reply(url, Ok(reply)) == login_answer(
            reply.status,
            texts(reply.cookies@),
            None,
            None,
        ),
        login_reply(url, Err(reason)) == Err::<LoginView, _>(
            failure("cannot reach "@ + url) + reason@,
        ),
{
}

/// What comes back for the account, the games and the play page is judged by what it says, and what
/// did not come back or cannot be read is told.
pub proof fn an_answer_is_judged_by_what_it_says(reply: Reply, body: String, reason: Error)
    ensures
        reply.body == Ok::<String, Error>(body) ==> {
            &&& account_reply(Ok(reply)) == account_answer(reply.status, json_in(body@))
            &&& games_reply(Ok(reply)) == games_answer(json_in(body@))
            &&& play_reply(Ok(reply)) == play_answer(reply.status, Ok(body@))
        },
        account_reply(Err(reason)) == Err::<AccountView, _>(
            failure("cannot reach playvortex.io"@) + reason@,
        ),
        games_reply(Err(reason)) == Err::<Seq<GameView>, _>(
            failure("cannot fetch the game list"@) + reason@,
        ),
        play_reply(Err(reason)) == Err::<Seq<char>, _>(
            failure("cannot reach the play page"@) + reason@,
        ),
        reply.body is Err ==> {
            let why = reply.body->Err_0@;
            &&& account_reply(Ok(reply)) == Err::<AccountView, _>(
                failure("cannot read the account response"@) + why,
            )
            &&& games_reply(Ok(reply)) == Err::<Seq<GameView>, _>(
                failure("cannot read the game list"@) + why,
            )
            &&& 200 <= reply.status <= 299 ==> play_reply(Ok(reply)) == Err::<Seq<char>, _>(
                failure("cannot read the play page"@) + why,
            )
        },
{
}

/// An answer that is not JSON asks for nothing and says nothing.
pub proof fn what_is_not_json_says_nothing(
    reason: Seq<char>,
    json: JsonView,
    f: spec_fn(JsonView) -> Option<Seq<char>>,
)
    ensures
        of_json(Err(reason), f) is None,
        of_json(Ok(json), f) == f(json),
{
}

}
