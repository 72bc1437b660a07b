use spool::commands::{
    absorb_stdout, explorer_target, normalize_urls, open_file_plan, parse_hex_color,
    parse_probe_output, probe_output, select_argument, toggle_maximize, ExplorerTarget,
    HexColorError, MaximizeAction, OpenTarget,
};
use spool::updater::ProcessEvent;

fn std_color(hex: &str) -> Result<(u8, u8, u8), String> {
    let h = hex.trim_start_matches('#');
    if h.len() != 6 {
        return Err("bad hex".into());
    }
    let r = u8::from_str_radix(&h[0..2], 16).map_err(|e| e.to_string())?;
    let g = u8::from_str_radix(&h[2..4], 16).map_err(|e| e.to_string())?;
    let b = u8::from_str_radix(&h[4..6], 16).map_err(|e| e.to_string())?;
    Ok((r, g, b))
}

#[test]
fn hex_color_examples() {
    assert_eq!(parse_hex_color("#1e1e2e"), Ok((0x1e, 0x1e, 0x2e)));
    assert_eq!(parse_hex_color("FFFFFF"), Ok((255, 255, 255)));
    assert_eq!(parse_hex_color("##00ff7F"), Ok((0, 255, 127)));
    assert_eq!(parse_hex_color("+f+f+f"), Ok((15, 15, 15)));
    assert_eq!(parse_hex_color("#fff"), Err(HexColorError::BadLength));
    assert_eq!(parse_hex_color(""), Err(HexColorError::BadLength));
    assert_eq!(parse_hex_color("#zz0000"), Err(HexColorError::InvalidDigit));
    assert_eq!(parse_hex_color("-10000"), Err(HexColorError::InvalidDigit));
    assert_eq!(parse_hex_color("++0000"), Err(HexColorError::InvalidDigit));
    assert_eq!(parse_hex_color("é1234"), Err(HexColorError::InvalidDigit));
}

#[test]
fn hex_color_messages() {
    assert_eq!(HexColorError::BadLength.message(), "bad hex");
    assert_eq!(HexColorError::InvalidDigit.message(), "invalid digit found in string");
}

#[test]
fn hex_color_agrees_with_std_parsing() {
    let alphabet = ['0', '9', 'a', 'F', 'g', '+', '-', '#', ' '];
    let mut count = 0;
    for a in alphabet {
        for b in alphabet {
            for c in alphabet {
                let s: String = [a, b, c, '1', b, a].iter().collect();
                let ours = parse_hex_color(&s).map_err(|e| e.message());
                assert_eq!(ours, std_color(&s), "{:?}", s);
                count += 1;
            }
        }
    }
    assert_eq!(count, 729);
}

#[test]
fn normalize_urls_trims_and_drops_empty() {
    let urls = vec![
        "  https://youtu.be/a  ".to_string(),
        "".to_string(),
        "\t\n".to_string(),
        "https://youtu.be/b".to_string(),
    ];
    let out = normalize_urls(&urls);
    assert_eq!(out, vec!["https://youtu.be/a".to_string(), "https://youtu.be/b".to_string()]);
    assert_eq!(normalize_urls(&out), out);
    assert!(normalize_urls(&Vec::new()).is_empty());
}

#[test]
fn toggle_maximize_examples() {
    assert_eq!(toggle_maximize(Some(true)), MaximizeAction::Unmaximize);
    assert_eq!(toggle_maximize(Some(false)), MaximizeAction::Maximize);
    assert_eq!(toggle_maximize(None), MaximizeAction::Maximize);
}

#[test]
fn open_file_plan_examples() {
    assert_eq!(open_file_plan("C:/v.mp4", true, true), Ok(OpenTarget::File));
    assert_eq!(open_file_plan("C:/v.mp4", true, false), Ok(OpenTarget::File));
    assert_eq!(open_file_plan("C:/v.mp4", false, true), Ok(OpenTarget::ParentFolder));
    assert_eq!(
        open_file_plan("C:/gone/v.mp4", false, false),
        Err("path not found: C:/gone/v.mp4".to_string())
    );
}

#[test]
fn explorer_target_examples() {
    assert_eq!(explorer_target(true, false, true), ExplorerTarget::SelectFile);
    assert_eq!(explorer_target(false, true, true), ExplorerTarget::Path);
    assert_eq!(explorer_target(false, false, true), ExplorerTarget::Parent);
    assert_eq!(explorer_target(false, false, false), ExplorerTarget::Path);
    assert_eq!(select_argument("C:\\a b.mp4"), "/select,C:\\a b.mp4");
}

#[test]
fn probe_output_examples() {
    assert_eq!(parse_probe_output("").unwrap_err(), "yt-dlp produced no output");
    assert_eq!(parse_probe_output(" \n\t").unwrap_err(), "yt-dlp produced no output");
    let v = parse_probe_output("{\"_type\":\"playlist\",\"entries\":[1,2]}").unwrap();
    assert_eq!(v["_type"], "playlist");
    assert_eq!(v["entries"].as_array().map(|a| a.len()), Some(2));
    let bad = "{\"_type\": ";
    let expected = format!("parse: {}", serde_json::from_str::<serde_json::Value>(bad).unwrap_err());
    assert_eq!(parse_probe_output(bad).unwrap_err(), expected);
    assert!(parse_probe_output("[]").is_ok());
}

#[test]
fn probe_output_decodes_bytes() {
    let v = probe_output("{\"title\":\"caf\u{e9}\"}".as_bytes()).unwrap();
    assert_eq!(v["title"], "caf\u{e9}");
    let v = probe_output(b"{\"t\":\"a\xffb\"}").unwrap();
    assert_eq!(v["t"], "a\u{fffd}b");
    assert_eq!(probe_output(b"").unwrap_err(), "yt-dlp produced no output");
    assert!(probe_output(b"\xff").unwrap_err().starts_with("parse: "));
}

#[test]
fn absorb_stdout_keeps_stdout_only() {
    let mut buf = Vec::new();
    assert!(!absorb_stdout(&mut buf, &ProcessEvent::Stdout(b"{\"a\"".to_vec())));
    assert!(!absorb_stdout(&mut buf, &ProcessEvent::Stderr(b"WARNING".to_vec())));
    assert!(!absorb_stdout(&mut buf, &ProcessEvent::Stdout(b":1}".to_vec())));
    assert!(!absorb_stdout(&mut buf, &ProcessEvent::Other));
    assert!(absorb_stdout(&mut buf, &ProcessEvent::Terminated));
    assert_eq!(buf, b"{\"a\":1}".to_vec());
}
