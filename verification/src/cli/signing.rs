//! Signing in from the terminal.
//!
//! A [`SigningIn`] is told what happened and answers with what to do.
use vstd::prelude::*;

use crate::auth::{
    account, account_reply, account_request, as_session, giving_code, login, login_2fa,
    login_reply, post_login, signing_in, Login, LoginView,
};
use crate::cli::{prompt, prompt_hidden, signed_in};
use crate::error::{failure, CauseView, Error};
use crate::net::{Reply, Request, RequestView};
use crate::session::{Session, SessionView};
use crate::text::{end_trimmed, trimmed, Class};

verus! {

broadcast use vstd::string::group_string_axioms;

/// What signing in waits for.
#[derive(Debug)]
pub enum SigningIn {
    /// the user's name
    Name,
    /// the password of the user with this name
    Password(String),
    /// the answer to name and password
    First,
    /// the code for the login that this stands for
    Code(String),
    /// the answer to the code
    Second,
    /// the account of the session that this token stands for
    Account(String),
    /// the session is being stored, and then this is printed
    Keeping(String),
    /// all is said
    Over,
}

/// What a [`SigningIn`] says.
pub enum SigningInView {
    Name,
    Password(Seq<char>),
    First,
    Code(Seq<char>),
    Second,
    Account(Seq<char>),
    Keeping(Seq<char>),
    Over,
}

impl View for SigningIn {
    type V = SigningInView;

    open spec fn view(&self) -> SigningInView {
        match self {
            SigningIn::Name => SigningInView::Name,
            SigningIn::Password(name) => SigningInView::Password(name@),
            SigningIn::First => SigningInView::First,
            SigningIn::Code(pending) => SigningInView::Code(pending@),
            SigningIn::Second => SigningInView::Second,
            SigningIn::Account(token) => SigningInView::Account(token@),
            SigningIn::Keeping(line) => SigningInView::Keeping(line@),
            SigningIn::Over => SigningInView::Over,
        }
    }
}

/// What happened.
#[derive(Debug)]
pub enum Event {
    /// the line that the user entered, or why it could not be read
    Entered(Result<String, Error>),
    /// what came back for a request, or why nothing did
    Replied(Result<Reply, Error>),
    /// the session was stored, or not
    Kept(Result<(), Error>),
}

/// What to do next.
#[derive(Debug)]
pub enum Action {
    /// nothing until something else happens
    Wait,
    /// let the user enter a line
    Ask(&'static str),
    /// let the user enter a line that is not shown
    AskHidden(&'static str),
    Fetch(Request),
    /// store the session
    Keep(Session),
    /// print this; the user is signed in
    Done(String),
    Fail(Error),
}

/// What an [`Action`] says.
pub enum ActionView {
    Wait,
    Ask(Seq<char>),
    AskHidden(Seq<char>),
    Fetch(RequestView),
    Keep(SessionView),
    Done(Seq<char>),
    Fail(Seq<CauseView>),
}

impl View for Action {
    type V = ActionView;

    open spec fn view(&self) -> ActionView {
        match self {
            Action::Wait => ActionView::Wait,
            Action::Ask(label) => ActionView::Ask(label@),
            Action::AskHidden(label) => ActionView::AskHidden(label@),
            Action::Fetch(request) => ActionView::Fetch(request@),
            Action::Keep(session) => ActionView::Keep(session@),
            Action::Done(line) => ActionView::Done(line@),
            Action::Fail(error) => ActionView::Fail(error@),
        }
    }
}

/// What the user entered, where `value` is what counts of a line, or why there is nothing.
pub open spec fn entry(
    line: Result<String, Error>,
    value: spec_fn(Seq<char>) -> Seq<char>,
) -> Result<Seq<char>, Seq<CauseView>> {
    match line {
        Err(reason) => Err(failure("cannot read from the terminal"@) + reason@),
        Ok(line) => if value(line@).len() == 0 {
            Err(failure("nothing entered"@))
        } else {
            Ok(value(line@))
        },
    }
}

/// The session goes on with this token: its account is looked up.
pub open spec fn looking_up(token: Seq<char>) -> (SigningInView, ActionView) {
    (
        SigningInView::Account(token),
        ActionView::Fetch(as_session("https://playvortex.io/api/users/me"@, token)),
    )
}

impl SigningInView {
    /// It came to nothing, for this reason.
    pub open spec fn failed(reason: Seq<CauseView>) -> (SigningInView, ActionView) {
        (SigningInView::Over, ActionView::Fail(reason))
    }

    /// What follows an event: what is waited for then, and what to do. The server may ask for a code
    /// once. What was not asked for changes nothing.
    pub open spec fn after(self, event: Event) -> (SigningInView, ActionView) {
        match (self, event) {
            (SigningInView::Name, Event::Entered(line)) => match entry(
                line,
                |s: Seq<char>| trimmed(s, Class::Space),
            ) {
                Ok(name) => (SigningInView::Password(name), ActionView::AskHidden("Password: "@)),
                Err(reason) => SigningInView::failed(reason),
            },
            (SigningInView::Password(name), Event::Entered(line)) => match entry(
                line,
                |s: Seq<char>| end_trimmed(s, Class::LineEnd),
            ) {
                Ok(password) => (
                    SigningInView::First,
                    ActionView::Fetch(signing_in(name, password)),
                ),
                Err(reason) => SigningInView::failed(reason),
            },
            (SigningInView::First, Event::Replied(reply)) => match login_reply(
                "https://playvortex.io/login"@,
                reply,
            ) {
                Ok(LoginView::Done(token)) => looking_up(token),
                Ok(LoginView::Needs2fa(pending)) => (
                    SigningInView::Code(pending),
                    ActionView::Ask("2FA code: "@),
                ),
                Err(reason) => SigningInView::failed(reason),
            },
            (SigningInView::Code(pending), Event::Entered(line)) => match entry(
                line,
                |s: Seq<char>| trimmed(s, Class::Space),
            ) {
                Ok(code) => (
                    SigningInView::Second,
                    ActionView::Fetch(giving_code(pending, code)),
                ),
                Err(reason) => SigningInView::failed(reason),
            },
            (SigningInView::Second, Event::Replied(reply)) => match login_reply(
                "https://playvortex.io/login/2fa"@,
                reply,
            ) {
                Ok(LoginView::Done(token)) => looking_up(token),
                Ok(LoginView::Needs2fa(_)) => SigningInView::failed(
                    failure("the server asked for 2FA twice, try again"@),
                ),
                Err(reason) => SigningInView::failed(reason),
            },
            (SigningInView::Account(token), Event::Replied(reply)) => match account_reply(reply) {
                Ok(account) => (
                    SigningInView::Keeping("signed in as "@ + account.username),
                    ActionView::Keep(
                        SessionView { token, username: account.username, user_id: account.id },
                    ),
                ),
                Err(reason) => SigningInView::failed(reason),
            },
            (SigningInView::Keeping(line), Event::Kept(Ok(_))) => (
                SigningInView::Over,
                ActionView::Done(line),
            ),
            (SigningInView::Keeping(_), Event::Kept(Err(reason))) => SigningInView::failed(reason@),
            _ => (self, ActionView::Wait),
        }
    }
}

fn read_line(line: Result<String, Error>) -> (read: Result<String, Error>)
    ensures
        match line {
            Ok(line) => read matches Ok(read) && read@ == line@,
            Err(reason) => read matches Err(e) && e@ == failure("cannot read from the terminal"@)
                + reason@,
        },
{
    match line {
        Ok(line) => Ok(line),
        Err(reason) => Err(reason.context("cannot read from the terminal".to_owned())),
    }
}

/// Sets out to sign in. The first thing to do is to ask for the user's name.
pub fn sign_in() -> (begun: (SigningIn, Action))
    ensures
        begun.0@ is Name,
        begun.1@ == ActionView::Ask("Username: "@),
{
    (SigningIn::Name, Action::Ask("Username: "))
}

fn look_up(token: String) -> (turn: (SigningIn, Action))
    ensures
        (turn.0@, turn.1@) == looking_up(token@),
{
    let request = account_request(token.as_str());
    (SigningIn::Account(token), Action::Fetch(request))
}

fn fail(reason: Error) -> (turn: (SigningIn, Action))
    ensures
        (turn.0@, turn.1@) == SigningInView::failed(reason@),
{
    (SigningIn::Over, Action::Fail(reason))
}

impl SigningIn {
    /// Takes note of what happened, and decides what to do next.
    pub fn next(self, event: Event) -> (turn: (SigningIn, Action))
        ensures
            (turn.0@, turn.1@) == self@.after(event),
    {
        match (self, event) {
            (SigningIn::Name, Event::Entered(line)) => {
                let line = match read_line(line) {
                    Ok(line) => line,
                    Err(reason) => {
                        return fail(reason);
                    },
                };
                match prompt(line.as_str()) {
                    Ok(name) => (SigningIn::Password(name), Action::AskHidden("Password: ")),
                    Err(reason) => fail(reason),
                }
            },
            (SigningIn::Password(name), Event::Entered(line)) => {
                let line = match read_line(line) {
                    Ok(line) => line,
                    Err(reason) => {
                        return fail(reason);
                    },
                };
                match prompt_hidden(line.as_str()) {
                    Ok(password) => (
                        SigningIn::First,
                        Action::Fetch(login(name.as_str(), password.as_str())),
                    ),
                    Err(reason) => fail(reason),
                }
            },
            (SigningIn::First, Event::Replied(reply)) => match post_login(
                "https://playvortex.io/login",
                reply,
            ) {
                Ok(Login::Done(token)) => look_up(token),
                Ok(Login::Needs2fa(pending)) => (
                    SigningIn::Code(pending),
                    Action::Ask("2FA code: "),
                ),
                Err(reason) => fail(reason),
            },
            (SigningIn::Code(pending), Event::Entered(line)) => {
                let line = match read_line(line) {
                    Ok(line) => line,
                    Err(reason) => {
                        return fail(reason);
                    },
                };
                match prompt(line.as_str()) {
                    Ok(code) => (
                        SigningIn::Second,
                        Action::Fetch(login_2fa(pending.as_str(), code.as_str())),
                    ),
                    Err(reason) => fail(reason),
                }
            },
            (SigningIn::Second, Event::Replied(reply)) => {
                let second = match post_login("https://playvortex.io/login/2fa", reply) {
                    Ok(second) => second,
                    Err(reason) => {
                        return fail(reason);
                    },
                };
                match crate::cli::login(second) {
                    Ok(token) => look_up(token),
                    Err(reason) => fail(reason),
                }
            },
            (SigningIn::Account(token), Event::Replied(reply)) => match account(reply) {
                Ok(account) => {
                    let (session, line) = signed_in(token, account);
                    (SigningIn::Keeping(line), Action::Keep(session))
                },
                Err(reason) => fail(reason),
            },
            (SigningIn::Keeping(line), Event::Kept(Ok(_))) => (
                SigningIn::Over,
                Action::Done(line),
            ),
            (SigningIn::Keeping(_), Event::Kept(Err(reason))) => fail(reason),
            (stage, _) => (stage, Action::Wait),
        }
    }
}

/// Nobody is said to be signed in before the session is stored, and a session is stored only once
/// the server told the account that its token stands for.
pub proof fn a_session_is_stored_before_it_is_announced(stage: SigningInView, event: Event)
    ensures
        stage.after(event).1 is Done ==> stage is Keeping && event matches Event::Kept(Ok(_)),
        stage.after(event).1 matches ActionView::Keep(session) ==> stage
            == SigningInView::Account(session.token) && (event matches Event::Replied(reply)
            && account_reply(reply) is Ok),
{
}

/// The user is asked for a code only where the server asks for one, and that once: after it the
/// name and the password are not asked for again.
pub proof fn a_code_is_asked_for_once(stage: SigningInView, event: Event)
    ensures
        stage.after(event).0 is Code && !(stage is Code) ==> stage is First,
        stage is Second ==> !(stage.after(event).0 is First) && !(stage.after(event).0 is Code),
        stage is Over ==> stage.after(event) == (stage, ActionView::Wait),
{
}

}
