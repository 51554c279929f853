use vortex_launcher::session::redact;

#[test]
fn hides_tokens() {
    assert_eq!(
        redact("running vortex://launch?token=abc123&game=3"),
        "running vortex://launch?token=***&game=3"
    );
    assert_eq!(redact("nothing secret here"), "nothing secret here");
}

#[test]
fn hides_every_secret_in_one_line() {
    let line = "join ticket=xyz session_token=deadbeef done";
    let out = redact(line);
    assert!(!out.contains("xyz"), "{out}");
    assert!(!out.contains("deadbeef"), "{out}");
}

#[test]
fn keys_match_in_any_case_and_values_end_anywhere() {
    assert_eq!(redact("TOKEN=a;Code=b\"c"), "TOKEN=***;Code=***\"c");
    assert_eq!(redact("token="), "token=");
    assert_eq!(redact("token=a token=b"), "token=*** token=***");
    assert_eq!(redact("token=a\u{a0}b"), "token=***\u{a0}b");
}

#[test]
fn a_line_that_was_redacted_stays_as_it_is() {
    let once = redact("x token=abc&ticket=d code=e");
    assert_eq!(redact(&once), once);
    assert_eq!(once, "x token=***&ticket=*** code=***");
}

#[test]
fn a_line_is_redacted_wherever_its_characters_end() {
    assert_eq!(redact("token=&aéx"), "token=&aéx");
    assert_eq!(redact("token=é&x"), "token=***&x");
}

#[test]
fn a_secret_right_behind_an_empty_one_is_hidden() {
    assert_eq!(redact("token=;token=abc"), "token=;token=***");
    assert_eq!(redact("token=&token=abc"), "token=&token=***");
    assert_eq!(redact("code= ticket=\"code=abc"), "code= ticket=\"code=***");
}

#[test]
fn the_secret_leaves_no_trace() {
    let redacted = |secret: &str| redact(&format!("a b=1 Code={secret};ticket=x y"));
    assert_eq!(redacted("c"), "a b=1 Code=***;ticket=*** y");
    assert_eq!(redacted("token=much-longer"), redacted("c"));
}

#[test]
fn pieces_do_not_influence_each_other() {
    for c in ["&", ";", "\"", " ", "\u{3000}"] {
        let (a, b) = ("x token=a=b", "code=;ticket");
        assert_eq!(redact(&format!("{a}{c}{b}")), format!("{}{c}{}", redact(a), redact(b)));
    }
}
