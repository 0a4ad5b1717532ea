use bcvk::podman_hint::{explain, missing_bind_source, with_hint_if};
use camino::Utf8Path;
use color_eyre::eyre::Report;

fn chain(report: &Report) -> Vec<String> {
    report.chain().map(|e| e.to_string()).collect()
}

#[test]
fn test_missing_bind_source() {
    let cases = [
        (
            "Error: statfs /usr/bin/bcvk: no such file or directory\n",
            Some("/usr/bin/bcvk"),
        ),
        (
            "some warning\nError: statfs /a b/c: no such file or directory  \n",
            Some("/a b/c"),
        ),
        ("Error: statfs /x: permission denied\n", None),
        ("Error: short-name resolution enforced\n", None),
        ("", None),
    ];
    for (stderr, expected) in cases {
        assert_eq!(
            missing_bind_source(stderr),
            expected.map(Utf8Path::new),
            "{stderr:?}"
        );
    }
}

#[test]
fn test_with_hint_if() {
    const STATFS: &str = "Error: statfs /usr/bin/bcvk: no such file or directory\n";
    const OTHER: &str = "Error: short-name resolution enforced\n";
    // (stderr, whether bcvk can see the path, whether a hint is added)
    let cases = [
        (STATFS, true, true),
        (STATFS, false, false),
        (OTHER, true, false),
    ];
    for (stderr, exists, hinted) in cases {
        let msg = format!("Podman command failed: {stderr}");
        let r = with_hint_if(Report::msg(msg.clone()), stderr, |_| exists);
        let chain: Vec<String> = r.chain().map(|e| e.to_string()).collect();
        if hinted {
            assert_eq!(chain.len(), 2, "{chain:?}");
            assert!(chain[0].contains("/usr/bin/bcvk"), "{chain:?}");
            // The original podman error is kept as the cause.
            assert_eq!(chain[1], msg);
        } else {
            assert_eq!(chain, [msg], "{stderr:?} exists={exists}");
        }
    }
}

#[test]
fn hint_message_is_exact() {
    let r = explain(Report::msg("podman failed"), Utf8Path::new("/usr/bin/bcvk"));
    assert_eq!(
        chain(&r),
        [
            "podman could not find /usr/bin/bcvk, but bcvk can see it: \
             podman is not seeing bcvk's filesystem",
            "podman failed",
        ]
    );
}

#[test]
fn hint_keeps_the_whole_chain() {
    let err = Report::msg("inner").wrap_err("outer");
    let r = with_hint_if(
        err,
        "statfs /b: no such file or directory",
        |path: &Utf8Path| path == "/b",
    );
    let chain = chain(&r);
    assert_eq!(chain.len(), 3);
    assert_eq!(chain[1..], ["outer", "inner"]);
    assert!(chain[0].contains("/b"));
}

#[test]
fn visibility_is_asked_of_the_reported_path() {
    let err = Report::msg("failed");
    let r = with_hint_if(
        err,
        "statfs /b: no such file or directory",
        |path: &Utf8Path| path == "/c",
    );
    assert_eq!(chain(&r), ["failed"]);
}

#[test]
fn visibility_is_not_asked_without_a_report() {
    let err = Report::msg("failed");
    let r = with_hint_if(err, "statfs: no", |_: &Utf8Path| panic!("not to be asked"));
    assert_eq!(chain(&r), ["failed"]);
}

#[test]
fn first_report_decides() {
    let stderr = "warning: statfs later\n\
                  Error: statfs /one: no such file or directory\n\
                  Error: statfs /two: no such file or directory\n";
    assert_eq!(missing_bind_source(stderr), Some(Utf8Path::new("/one")));
}

#[test]
fn path_may_repeat_the_report() {
    let stderr = "statfs statfs : no such file or directory: no such file or directory";
    assert_eq!(
        missing_bind_source(stderr),
        Some(Utf8Path::new("statfs : no such file or directory"))
    );
}

#[test]
fn path_may_be_empty_or_not_ascii() {
    assert_eq!(
        missing_bind_source("statfs : no such file or directory"),
        Some(Utf8Path::new(""))
    );
    assert_eq!(
        missing_bind_source("\u{e9}: statfs /\u{e9}\u{1f600}/b: no such file or directory\u{3000}"),
        Some(Utf8Path::new("/\u{e9}\u{1f600}/b"))
    );
}

#[test]
fn path_does_not_span_lines() {
    assert_eq!(
        missing_bind_source("statfs /a\nb: no such file or directory\n"),
        None
    );
}

#[test]
fn prefix_and_suffix_do_not_share_characters() {
    assert_eq!(missing_bind_source("statfs: no such file or directory"), None);
    assert_eq!(missing_bind_source("statfs /a: no such file or director"), None);
    assert_eq!(missing_bind_source("statfs"), None);
}

#[test]
fn exactly_white_space_is_trimmed() {
    for c in '\0'..=char::MAX {
        let stderr = format!("statfs /x: no such file or directory{c}");
        let found = missing_bind_source(&stderr);
        if c.is_whitespace() {
            assert_eq!(found, Some(Utf8Path::new("/x")), "{c:?}");
        } else {
            assert_eq!(found, None, "{c:?}");
        }
    }
}

/// The same search with the string functions of the standard library.
fn by_std(stderr: &str) -> Option<&Utf8Path> {
    stderr.lines().find_map(|line| {
        let start = line.find("statfs ")? + "statfs ".len();
        let path = line[start..]
            .trim_end()
            .strip_suffix(": no such file or directory")?;
        Some(Utf8Path::new(path))
    })
}

#[test]
fn agrees_with_the_standard_library() {
    let pieces = [
        "statfs ",
        ": no such file or directory",
        "/a",
        "\n",
        "\r\n",
        "\r",
        " ",
        "\u{e9}",
        "statf",
    ];
    let mut texts = vec![String::new()];
    let mut from = 0;
    for _ in 0..5 {
        let to = texts.len();
        for i in from..to {
            for piece in pieces {
                texts.push(format!("{}{piece}", texts[i]));
            }
        }
        from = to;
    }
    let mut found = 0;
    for text in &texts {
        assert_eq!(missing_bind_source(text), by_std(text), "{text:?}");
        if by_std(text).is_some() {
            found += 1;
        }
    }
    assert!(found > 0);
}
