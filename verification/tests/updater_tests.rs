use spool::updater::{
    absorb_event, classify_update_output, CheckCommand, CheckEvent, CheckPhase, UpdateCheck, classify_with_lower, extract_version, first_line,
    regex_lite_find, resolve_version, version_from_output, LaunchStage, ProcessEvent,
    UpdaterStatus,
};

fn status(kind: &str, version: Option<&str>, message: Option<&str>) -> (String, Option<String>, Option<String>) {
    (kind.to_string(), version.map(|v| v.to_string()), message.map(|m| m.to_string()))
}

fn parts(s: UpdaterStatus) -> (String, Option<String>, Option<String>) {
    (s.kind, s.version, s.message)
}

#[test]
fn updated_output_reports_new_version() {
    let out = "Latest version: 2024.08.06 from yt-dlp/yt-dlp\nUpdating to 2024.08.06 ...\nUpdated yt-dlp to 2024.08.06\n";
    let s = classify_update_output(out, Some("2024.07.01".to_string()));
    assert_eq!(parts(s), status("updated", Some("2024.08.06"), None));
}

#[test]
fn updated_wins_over_offline_words() {
    let out = "network hiccup\nUpdated yt-dlp to stable@2024.08.06.\n";
    let s = classify_update_output(out, None);
    assert_eq!(parts(s), status("updated", Some("stable@2024.08.06"), None));
}

#[test]
fn updated_without_version_falls_back() {
    let s = classify_update_output("Updated yt-dlp to \n", Some("2024.01.01".to_string()));
    assert_eq!(parts(s), status("updated", Some("2024.01.01"), None));
    let s = classify_update_output("Updated yt-dlp to ", None);
    assert_eq!(parts(s), status("updated", Some(""), None));
}

#[test]
fn updated_version_of_dots_is_empty() {
    let s = classify_update_output("Updated yt-dlp to ...", Some("x".to_string()));
    assert_eq!(parts(s), status("updated", Some(""), None));
}

#[test]
fn up_to_date_in_any_case() {
    let s = classify_update_output("yt-dlp is up to date (stable@2024.08.06)\n", Some("2024.08.06".to_string()));
    assert_eq!(parts(s), status("up-to-date", Some("2024.08.06"), None));
    // Only the lowercase form of the output says "up to date".
    let s = classify_update_output("YT-DLP IS UP TO DATE", None);
    assert_eq!(parts(s), status("up-to-date", None, None));
    let s = classify_update_output("Already Up-To-Date", None);
    assert_eq!(parts(s), status("up-to-date", None, None));
}

#[test]
fn offline_reports_first_line() {
    let out = "  ERROR: Unable to download JSON metadata: <urlopen error getaddrinfo failed>  \r\nsecond line\n";
    let s = classify_update_output(out, Some("2024.08.06".to_string()));
    assert_eq!(
        parts(s),
        status(
            "offline",
            Some("2024.08.06"),
            Some("ERROR: Unable to download JSON metadata: <urlopen error getaddrinfo failed>")
        )
    );
    for word in ["Temporary failure in NAME RESOLUTION", "No Internet", "Connection reset", "NETWORK is unreachable"] {
        let s = classify_update_output(word, None);
        assert_eq!(parts(s), status("offline", None, Some(word)));
    }
}

#[test]
fn unknown_output_counts_as_up_to_date() {
    let s = classify_update_output("something else entirely", Some("v".to_string()));
    assert_eq!(parts(s), status("up-to-date", Some("v"), None));
    let s = classify_update_output("", None);
    assert_eq!(parts(s), status("up-to-date", None, None));
}

#[test]
fn classify_with_given_lowercase() {
    let s = classify_with_lower("OFFLINE?", "network down", None);
    assert_eq!(parts(s), status("offline", None, Some("OFFLINE?")));
}

#[test]
fn extract_version_examples() {
    assert_eq!(extract_version("2024.08.06\nmore"), Some("2024.08.06".to_string()));
    assert_eq!(extract_version("2024.08.06."), Some("2024.08.06".to_string()));
    assert_eq!(extract_version("v1..."), Some("v1".to_string()));
    assert_eq!(extract_version("..."), Some(String::new()));
    assert_eq!(extract_version(" 2024"), None);
    assert_eq!(extract_version(""), None);
    assert_eq!(extract_version("1.0\u{3000}x"), Some("1.0".to_string()));
}

#[test]
fn first_line_examples() {
    assert_eq!(first_line("  abc \r\nxyz"), "abc");
    assert_eq!(first_line(""), "");
    assert_eq!(first_line("\nabc"), "");
    assert_eq!(first_line("only line  "), "only line");
}

#[test]
fn regex_lite_find_examples() {
    assert_eq!(regex_lite_find("a=1; a=2", "a="), Some("1; a=2"));
    assert_eq!(regex_lite_find("héllo wörld", "wö"), Some("rld"));
    assert_eq!(regex_lite_find("abc", "x"), None);
    assert_eq!(regex_lite_find("abc", ""), Some("abc"));
    assert_eq!(regex_lite_find("abc", "abc"), Some(""));
}

#[test]
fn version_from_output_examples() {
    assert_eq!(version_from_output("2024.08.06\n"), Some("2024.08.06".to_string()));
    assert_eq!(version_from_output("  \n\t"), None);
    assert_eq!(version_from_output(""), None);
}

#[test]
fn resolve_version_prefers_fresh() {
    assert_eq!(resolve_version(Some("b".into()), Some("a".into())), Some("b".to_string()));
    assert_eq!(resolve_version(None, Some("a".into())), Some("a".to_string()));
    assert_eq!(resolve_version(None, None), None);
}

#[test]
fn absorb_event_collects_text() {
    let mut out = String::new();
    assert!(!absorb_event(&mut out, &ProcessEvent::Stdout(b"Updated ".to_vec())));
    assert!(!absorb_event(&mut out, &ProcessEvent::Stderr("yt-dlp ✓".as_bytes().to_vec())));
    assert!(!absorb_event(&mut out, &ProcessEvent::Stdout(vec![0xff, 0xfe])));
    assert!(!absorb_event(&mut out, &ProcessEvent::Other));
    assert!(absorb_event(&mut out, &ProcessEvent::Terminated));
    assert_eq!(out, "Updated yt-dlp ✓");
}

#[test]
fn status_constructors() {
    let c = UpdaterStatus::checking(Some("1".into()));
    assert_eq!(parts(c), status("checking", Some("1"), None));
    let f = UpdaterStatus::launch_failed(None, LaunchStage::Sidecar, "not found");
    assert_eq!(parts(f), status("offline", None, Some("sidecar error: not found")));
    let f = UpdaterStatus::launch_failed(Some("2".into()), LaunchStage::Spawn, "denied");
    assert_eq!(parts(f), status("offline", Some("2"), Some("spawn error: denied")));
}

fn run(events: Vec<CheckEvent>) -> (Vec<(String, Option<String>, Option<String>)>, CheckCommand, CheckPhase) {
    let (mut check, mut cmd) = UpdateCheck::new();
    let mut out = Vec::new();
    for e in events {
        let (st, next) = check.step(e);
        if let Some(s) = st {
            out.push(parts(s));
        }
        cmd = next;
    }
    (out, cmd, check.phase())
}

#[test]
fn check_run_that_updates() {
    let (_, first) = UpdateCheck::new();
    assert_eq!(first, CheckCommand::ReadVersion);
    let (out, cmd, phase) = run(vec![
        CheckEvent::VersionRead(Some("2024.07.01".into())),
        CheckEvent::Launched,
        CheckEvent::Output(ProcessEvent::Stdout(b"Updating to 2024.08.06 ...\n".to_vec())),
        CheckEvent::Output(ProcessEvent::Stderr(b"Updated yt-dlp to 2024.08.06\n".to_vec())),
        CheckEvent::Output(ProcessEvent::Terminated),
        CheckEvent::VersionRead(Some("2024.08.06".into())),
    ]);
    assert_eq!(
        out,
        vec![
            status("checking", Some("2024.07.01"), None),
            status("updated", Some("2024.08.06"), None),
        ]
    );
    assert_eq!(cmd, CheckCommand::Stop);
    assert_eq!(phase, CheckPhase::Finished);
}

#[test]
fn check_run_that_cannot_launch() {
    let (out, cmd, phase) = run(vec![
        CheckEvent::VersionRead(None),
        CheckEvent::LaunchFailed(LaunchStage::Spawn, "access denied".into()),
        CheckEvent::Launched,
        CheckEvent::VersionRead(Some("x".into())),
    ]);
    assert_eq!(
        out,
        vec![
            status("checking", None, None),
            status("offline", None, Some("spawn error: access denied")),
        ]
    );
    assert_eq!(cmd, CheckCommand::Stop);
    assert_eq!(phase, CheckPhase::Finished);
}

#[test]
fn check_run_offline_keeps_cached_version() {
    let (out, cmd, _) = run(vec![
        CheckEvent::VersionRead(Some("2024.07.01".into())),
        CheckEvent::Launched,
        CheckEvent::Output(ProcessEvent::Stderr(b"ERROR: Unable to download: no connection\n".to_vec())),
        CheckEvent::Output(ProcessEvent::Terminated),
        CheckEvent::VersionRead(None),
    ]);
    assert_eq!(
        out[1],
        status("offline", Some("2024.07.01"), Some("ERROR: Unable to download: no connection"))
    );
    assert_eq!(cmd, CheckCommand::Stop);
}

#[test]
fn check_ignores_events_out_of_turn() {
    let (out, cmd, phase) = run(vec![
        CheckEvent::Launched,
        CheckEvent::Output(ProcessEvent::Stdout(b"noise".to_vec())),
    ]);
    assert!(out.is_empty());
    assert_eq!(cmd, CheckCommand::ReadVersion);
    assert_eq!(phase, CheckPhase::ReadingCachedVersion);
    let (out, cmd, phase) = run(vec![
        CheckEvent::VersionRead(None),
        CheckEvent::VersionRead(Some("again".into())),
    ]);
    assert_eq!(out, vec![status("checking", None, None)]);
    assert_eq!(cmd, CheckCommand::Launch);
    assert_eq!(phase, CheckPhase::Launching);
}

fn std_find<'a>(text: &'a str, needle: &str) -> Option<&'a str> {
    text.find(needle).map(|i| &text[i + needle.len()..])
}

fn std_extract_version(s: &str) -> Option<String> {
    let line: String = s.chars().take_while(|c| !c.is_whitespace() && *c != '\n').collect();
    if line.is_empty() {
        None
    } else {
        Some(line.trim_end_matches('.').to_string())
    }
}

fn std_first_line(s: &str) -> &str {
    s.lines().next().unwrap_or("").trim()
}

fn samples() -> Vec<String> {
    let pieces = ["", "a", ".", " ", "\n", "\r\n", "é", "Up", "\u{3000}", "1.0", "ab"];
    let mut out = Vec::new();
    for a in pieces {
        for b in pieces {
            for c in pieces {
                out.push(format!("{a}{b}{c}"));
            }
        }
    }
    out
}

#[test]
fn text_helpers_agree_with_std_on_many_inputs() {
    for s in samples() {
        assert_eq!(extract_version(&s), std_extract_version(&s), "{:?}", s);
        assert_eq!(first_line(&s), std_first_line(&s), "{:?}", s);
        for needle in ["", "a", "é", ".", "ab", "\n"] {
            assert_eq!(regex_lite_find(&s, needle), std_find(&s, needle), "{:?} {:?}", s, needle);
        }
    }
}
