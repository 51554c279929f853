//! What holds of the secrets in every line of the log.
use vstd::prelude::*;

use crate::session::{
    hides, redacted, redaction_hides_every_secret, redaction_leaves_other_lines_alone, secret_keys,
    Session, MODE,
};
use crate::text::{holds, lowered, occurs, Class};

verus! {

broadcast use vstd::string::group_string_axioms;

/// A session is what its fields say, and only the user may read and write the stored one.
pub proof fn a_session_is_what_its_fields_say(session: Session)
    ensures
        session@.token == session.token@,
        session@.username == session.username@,
        session@.user_id == session.user_id,
        MODE == 384,
{
}

/// Wherever `token=`, `ticket=` or `code=` stands in a redacted line, in whatever case, the value
/// behind it is empty or three asterisks, up to the end of the line or what ends a value.
pub proof fn behind_a_key_stands_nothing_or_asterisks(line: Seq<char>, j: int)
    requires
        occurs(lowered(redacted(line)), "token="@, j) || occurs(
            lowered(redacted(line)),
            "ticket="@,
            j,
        ) || occurs(lowered(redacted(line)), "code="@, j),
    ensures
        ({
            let shown = redacted(line);
            let at = j + (if occurs(lowered(shown), "token="@, j) {
                6int
            } else if occurs(lowered(shown), "ticket="@, j) {
                7int
            } else {
                5int
            });
            ||| at == shown.len()
            ||| at < shown.len() && Class::ValueEnd.has(shown[at])
            ||| at + 3 <= shown.len() && shown.subrange(at, at + 3) == seq!['*', '*', '*'] && (at + 3
                == shown.len() || Class::ValueEnd.has(shown[at + 3]))
        }),
{
    reveal_strlit("token=");
    reveal_strlit("ticket=");
    reveal_strlit("code=");
    redaction_hides_every_secret(line);
    let shown = redacted(line);
    assert(hides(shown, secret_keys()[0]));
    assert(hides(shown, secret_keys()[1]));
    assert(hides(shown, secret_keys()[2]));
    assert(secret_keys()[0] == "token="@);
    assert(secret_keys()[1] == "ticket="@);
    assert(secret_keys()[2] == "code="@);
}

/// A line in which none of the three keys stands is logged as it is.
pub proof fn a_line_without_secrets_is_logged_as_it_is(line: Seq<char>)
    requires
        !holds(lowered(line), "token="@),
        !holds(lowered(line), "ticket="@),
        !holds(lowered(line), "code="@),
    ensures
        redacted(line) == line,
{
    assert(secret_keys()[0] == "token="@);
    assert(secret_keys()[1] == "ticket="@);
    assert(secret_keys()[2] == "code="@);
    redaction_leaves_other_lines_alone(line);
}

/// What ends a value is an ampersand, a semicolon, a double quote or white space, and what ends a link
/// a quote, an angle bracket or white space.
pub proof fn what_ends_a_value(c: char)
    ensures
        c == '&' || c == ';' || c == '"' || c == ' ' || c == '\n' || c == '\t' ==> Class::ValueEnd.has(
            c,
        ),
        'a' <= c <= 'z' || 'A' <= c <= 'Z' || '0' <= c <= '9' || c == '-' || c == '_' || c == '.' || c
            == '%' || c == '=' || c == '*' || c == '/' ==> !Class::ValueEnd.has(c),
        c == '"' || c == '\'' || c == '<' || c == ' ' || c == '\n' || c == '\t' ==> Class::LinkEnd.has(
            c,
        ),
        'a' <= c <= 'z' || 'A' <= c <= 'Z' || '0' <= c <= '9' || c == '-' || c == '_' || c == '.' || c
            == '%' || c == '=' || c == '&' || c == '?' || c == '/' || c == ':' || c == ';'
            ==> !Class::LinkEnd.has(c),
{
}

}
