use vortex_launcher::paths::dir_named;
use vortex_launcher::spelling::{as_name, shown, spell, unspell};

#[test]
fn ordinary_names_are_spelled_as_they_are() {
    for name in ["", "/home/kit", "é/漢字/\u{10348}", "\u{10ff7f}", "\u{7ff}\u{800}\u{ffff}\u{10000}"] {
        assert_eq!(spell(&name.as_bytes().to_vec()), name);
        assert_eq!(unspell(name), name.as_bytes());
        assert_eq!(shown(name), name);
    }
}

#[test]
fn other_names_lead_back_too() {
    let names: [&[u8]; 8] = [
        b"/home/\xe9t\xe9/x",
        b"\xff",
        b"\xc0\xaf",
        b"\xed\xa0\x80",
        b"\xe2\x82",
        b"\xf4\x90\x80\x80",
        b"\xf4\x8f\xbe\x80",
        b"a\x80\xc3\xa9\xc3",
    ];
    for name in names {
        let text = spell(&name.to_vec());
        assert_eq!(unspell(&text), name);
        assert_eq!(shown(&text), String::from_utf8_lossy(name));
    }
    assert_eq!(spell(&b"a\xe9/\xc3\xa9".to_vec()), "a\u{10ffe9}/é");
    assert_eq!(dir_named(Some(b"/\xff".to_vec())).as_deref(), Some("/\u{10ffff}"));
    assert_eq!(dir_named(None), None);
}

#[test]
fn plain_text_keeps_its_bytes() {
    assert_eq!(as_name("GE-Proton9-27"), "GE-Proton9-27");
    for text in ["\u{10ffff}", "a\u{10ff80}é", ""] {
        assert_eq!(unspell(&as_name(text)), text.as_bytes());
        assert_eq!(shown(&as_name(text)), text);
    }
}
