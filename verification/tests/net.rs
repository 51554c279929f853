use vortex_launcher::error::Error;
use vortex_launcher::net::{
    download_request, get_text, human_bytes, is_cancelled, parse_total_from_content_range, probe,
    probe_request, text_request, Headers, Received, Remote, Reply, Step, Transfer,
};
use vortex_launcher::worker::describe;

fn reply(status: u16, body: Result<&str, &str>) -> Reply {
    Reply {
        status,
        headers: Headers {
            content_range: None,
            content_length: None,
            etag: None,
            last_modified: None,
        },
        cookies: Vec::new(),
        body: match body {
            Ok(text) => Ok(text.to_owned()),
            Err(text) => Err(Error::says(text)),
        },
    }
}

#[test]
fn parses_content_range_total() {
    assert_eq!(parse_total_from_content_range("bytes 0-0/32733650"), Some(32_733_650));
    assert_eq!(parse_total_from_content_range("bytes 0-0/*"), None);
}

#[test]
fn a_range_total_may_stand_alone() {
    assert_eq!(parse_total_from_content_range(" 12 "), Some(12));
    assert_eq!(parse_total_from_content_range("a/b/ +7"), Some(7));
    assert_eq!(parse_total_from_content_range(""), None);
    assert_eq!(parse_total_from_content_range("/18446744073709551616"), None);
    assert_eq!(
        parse_total_from_content_range("/18446744073709551615"),
        Some(u64::MAX)
    );
}

#[test]
fn formats_bytes() {
    assert_eq!(human_bytes(512), "512 B");
    assert_eq!(human_bytes(32_733_650), "31.2 MiB");
}

fn formatted(bytes: u64) -> String {
    let units = ["B", "KiB", "MiB", "GiB"];
    let mut value = bytes as f64;
    let mut unit = 0;
    while value >= 1024.0 && unit < units.len() - 1 {
        value /= 1024.0;
        unit += 1;
    }
    if unit == 0 {
        format!("{bytes} B")
    } else {
        format!("{value:.1} {}", units[unit])
    }
}

#[test]
fn sizes_are_rounded_as_floating_point_numbers_are() {
    let mut sizes: Vec<u64> = (0..5000).collect();
    let mut seed: u64 = 12345;
    for _ in 0..20000 {
        seed = seed.wrapping_mul(6364136223846793005).wrapping_add(1442695040888963407);
        sizes.push(seed >> (seed % 60));
    }
    for shift in 0..64 {
        for offset in 0..40u64 {
            sizes.push((1u64 << shift).wrapping_add(offset * 51));
            sizes.push((1u64 << shift).wrapping_sub(offset));
        }
    }
    for k in 0..2000u64 {
        sizes.push(k * 1024 + 512 + (k % 3) * 51);
        sizes.push(k * 1024 * 1024 / 20);
    }
    sizes.push(u64::MAX);
    for size in sizes {
        assert_eq!(human_bytes(size), formatted(size), "{size}");
    }
}

#[test]
fn etag_wins_over_size() {
    let remote = Remote {
        size: 10,
        etag: Some("\"a\"".into()),
        last_modified: None,
    };
    assert!(!remote.differs_from(Some("\"a\""), None, 999));
    assert!(remote.differs_from(Some("\"b\""), None, 10));
}

#[test]
fn the_date_counts_without_an_etag_and_the_size_without_either() {
    let remote = Remote {
        size: 10,
        etag: Some("a".into()),
        last_modified: Some("monday".into()),
    };
    assert!(!remote.differs_from(None, Some("monday"), 11));
    assert!(remote.differs_from(None, Some("tuesday"), 10));
    assert!(remote.differs_from(None, None, 11));
    assert!(!remote.differs_from(None, None, 10));
}

#[test]
fn a_probe_reads_the_headers() {
    let request = probe_request("https://x/y", Some("tok"));
    assert_eq!(
        request.headers,
        vec![
            ("Range".to_owned(), "bytes=0-0".to_owned()),
            ("Cookie".to_owned(), "session_token=tok".to_owned()),
        ]
    );
    assert_eq!(probe_request("https://x/y", None).headers.len(), 1);
    let mut answer = reply(206, Ok(""));
    answer.headers.content_range = Some("bytes 0-0/77".into());
    answer.headers.content_length = Some("1".into());
    answer.headers.etag = Some("e".into());
    let remote = probe("https://x/y", Ok(answer)).unwrap();
    assert_eq!((remote.size, remote.etag.as_deref()), (77, Some("e")));
    let mut answer = reply(200, Ok(""));
    answer.headers.content_range = Some("bytes */x".into());
    answer.headers.content_length = Some("55".into());
    assert_eq!(probe("u", Ok(answer)).unwrap().size, 55);
    assert_eq!(probe("u", Ok(reply(200, Ok("")))).unwrap().size, 0);
    assert_eq!(
        describe(&probe("u", Ok(reply(404, Ok("")))).unwrap_err()),
        "u answered HTTP 404"
    );
    assert_eq!(
        describe(&probe("u", Err(Error::says("down"))).unwrap_err()),
        "cannot reach u: down"
    );
}

#[test]
fn a_text_comes_or_does_not() {
    assert_eq!(
        text_request("u").headers,
        vec![("Accept".to_owned(), "application/vnd.github+json".to_owned())]
    );
    assert_eq!(get_text("u", Ok(reply(200, Ok("hi")))).unwrap(), "hi");
    let why = |reply| describe(&get_text("u", reply).unwrap_err());
    assert_eq!(why(Ok(reply(500, Ok("hi")))), "u answered HTTP 500");
    assert_eq!(why(Ok(reply(200, Err("cut")))), "cannot read response from u: cut");
    assert_eq!(why(Err(Error::says("down"))), "cannot reach u: down");
}

#[test]
fn a_download_goes_on_where_it_stopped() {
    assert!(download_request("u", None, 0).headers.is_empty());
    assert_eq!(
        download_request("u", Some("t"), 40).headers,
        vec![
            ("Cookie".to_owned(), "session_token=t".to_owned()),
            ("Range".to_owned(), "bytes=40-".to_owned()),
        ]
    );
    let mut transfer = Transfer::download("u", 206, 40, None, Some("60")).unwrap();
    assert_eq!((transfer.resumed, transfer.done, transfer.total), (true, 40, 100));
    assert!(matches!(transfer.next(Received::Bytes(60)), Step::ReadOn));
    assert!(matches!(transfer.next(Received::End), Step::Complete));
    let transfer = Transfer::download("u", 200, 40, None, Some("100")).unwrap();
    assert_eq!((transfer.resumed, transfer.done, transfer.total), (false, 0, 100));
}

#[test]
fn a_download_is_complete_once_all_pieces_are_there() {
    let pieces = [7u64, 0, 50, 3];
    let mut transfer = Transfer::download("u", 206, 40, Some("bytes 40-99/100"), None).unwrap();
    for n in pieces {
        assert!(matches!(transfer.next(Received::Bytes(n)), Step::ReadOn));
    }
    assert_eq!(transfer.done, 40 + 60);
    assert!(matches!(transfer.next(Received::End), Step::Complete));
    transfer.next(Received::Bytes(1));
    assert!(matches!(transfer.next(Received::End), Step::Failed(_)));
}

#[test]
fn a_download_that_ends_early_fails() {
    let mut transfer = Transfer::download("u", 200, 0, None, Some("2048")).unwrap();
    transfer.next(Received::Bytes(1024));
    match transfer.next(Received::End) {
        Step::Failed(e) => assert_eq!(
            describe(&e),
            "download ended early: got 1.0 KiB of 2.0 KiB"
        ),
        other => panic!("{other:?}"),
    }
    let mut transfer = Transfer::download("u", 200, 0, None, None).unwrap();
    transfer.next(Received::Bytes(5));
    assert!(matches!(transfer.next(Received::End), Step::Complete));
    match transfer.next(Received::Stop) {
        Step::Failed(e) => assert!(is_cancelled(&e)),
        other => panic!("{other:?}"),
    }
    assert_eq!(
        describe(&Transfer::download("u", 416, 9, None, None).unwrap_err()),
        "u answered HTTP 416"
    );
}

#[test]
fn stopping_is_told_apart_through_the_whole_chain() {
    let stopped = Error::cancelled().context("outer".to_owned());
    assert!(is_cancelled(&stopped));
    assert_eq!(describe(&stopped), "outer: cancelled");
    assert!(!is_cancelled(&Error::says("cancelled")));
}
