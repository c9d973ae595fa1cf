use astra::startup_query::{startup_queries, StartupAttributes, TerminalReply};
use astra::startup_script::{
    case_outcome, environment, judge, result_line, RunFault, Script,
};

const INPUT: &str = "a你\x1b[200~pasted\n你好\x1b]11;rgb:ff/ff/ff\x07\x1b[201~";

fn written(script: &mut Script, case: &str, output: &[u8]) -> Vec<(String, bool)> {
    script.react(case, output).into_iter().map(|reply| (reply.text, reply.fragmented)).collect()
}

fn plain(text: &str) -> (String, bool) {
    (text.to_string(), false)
}

#[test]
fn environments_differ_by_case() {
    let changes: Vec<(String, Option<String>)> =
        environment("dark").into_iter().map(|change| (change.name, change.value)).collect();
    let set = |name: &str, value: &str| (name.to_string(), Some(value.to_string()));
    assert_eq!(
        changes,
        vec![
            set("ASTRA_TEST_TERMINAL_PROBE", "dark"),
            set("ASTRA_TUI_THEME", "auto"),
            set("TERM", "xterm-256color"),
            set("COLORTERM", "truecolor"),
            ("NO_COLOR".to_string(), None),
            ("ASTRA_TERMINAL_FG".to_string(), None),
            ("ASTRA_TERMINAL_BG".to_string(), None),
            ("COLORFGBG".to_string(), None),
            set("COLORFGBG", "0;15"),
        ]
    );
    for (case, name, value) in [
        ("light", "COLORFGBG", "15;0"),
        ("fragmented", "COLORFGBG", "15;0"),
        ("malformed", "COLORFGBG", "0;15"),
        ("explicit", "ASTRA_TUI_THEME", "dark"),
        ("no_color", "NO_COLOR", "1"),
        ("background_override", "ASTRA_TERMINAL_BG", "#ffffff"),
    ] {
        let last = environment(case).pop().unwrap();
        assert_eq!((last.name.as_str(), last.value.as_deref()), (name, Some(value)));
    }
    assert_eq!(environment("late").len(), 8);
}

#[test]
fn queries_are_answered_once() {
    let mut script = Script::new();
    assert!(written(&mut script, "light", b"nothing yet \x1b[").is_empty());
    assert_eq!(
        written(&mut script, "light", b"nothing yet \x1b[c"),
        vec![
            plain(INPUT),
            plain("\x1b]10;rgb:0000/0000/0000\x1b\\\x1b]11;rgb:ffff/ffff/ffff\x07"),
            plain("\x1b[?62;4;6c"),
        ]
    );
    assert!(written(&mut script, "light", b"nothing yet \x1b[c").is_empty());
    assert!(written(&mut script, "light", b"\x1b[c STARTUP_READY").is_empty());
    assert_eq!(
        written(&mut script, "light", b"\x1b[c STARTUP_READY\r\n\x1b[6n"),
        vec![plain("\x1b[8;1R")]
    );
    assert!(written(&mut script, "light", b"\x1b[c STARTUP_READY\r\n\x1b[6n").is_empty());
}

#[test]
fn late_and_silent_terminals_type_after_startup() {
    let mut script = Script::new();
    assert_eq!(
        written(&mut script, "late", b"\x1b[c"),
        vec![plain(""), plain("\x1b[?62;4;6c")]
    );
    assert_eq!(
        written(&mut script, "late", b"\x1b[cSTARTUP_READY"),
        vec![plain("\x1b]10;rgb:00/00/00\x07\x1b]11;rgb:ff/ff/ff\x1b\\"), plain(INPUT)]
    );
    let mut silent = Script::new();
    assert_eq!(written(&mut silent, "unsupported", b"\x1b[c"), vec![plain("")]);
    assert_eq!(written(&mut silent, "unsupported", b"\x1b[cSTARTUP_READY"), vec![plain(INPUT)]);
}

#[test]
fn colors_differ_by_case() {
    for (case, colors, fragmented) in [
        (
            "fragmented",
            "\x1b]10;rgb:0000/0000/0000\x1b\\\x1b]11;rgb:ffff/ffff/ffff\x07",
            true,
        ),
        ("dark", "\x1b]11;rgb:0000/0000/0000\x1b\\\x1b]10;rgb:eeee/eeee/eeee\x07", false),
        ("background_only", "\x1b]11;rgb:ffff/ffff/ffff\x07", false),
        ("malformed", "\x1b]10;#你abc\x07\x1b]11;rgb:bad/nope/ff\x1b\\", false),
    ] {
        let mut script = Script::new();
        let replies = written(&mut script, case, b"\x1b[c");
        assert_eq!(replies[1], (colors.to_string(), fragmented));
    }
}

#[test]
fn splitting_the_looks_leaves_the_same_script() {
    let all = b"\x1b[cSTARTUP_READY\x1b[6n";
    let mut once = Script::new();
    once.react("late", all);
    for cut in 0..all.len() {
        let mut twice = Script::new();
        twice.react("late", &all[..cut]);
        twice.react("late", all);
        assert_eq!(twice, once);
    }
}

#[test]
fn the_result_is_the_rest_of_the_marked_line() {
    assert_eq!(
        result_line("x\r\nnoise ASTRA_PROBE_RESULT={\"a\":1}\r\nmore\r\n").as_deref(),
        Some("{\"a\":1}")
    );
    assert_eq!(
        result_line("ASTRA_PROBE_RESULT=one ASTRA_PROBE_RESULT=two\nASTRA_PROBE_RESULT=three")
            .as_deref(),
        Some("one ASTRA_PROBE_RESULT=two")
    );
    assert_eq!(result_line("ASTRA_PROBE_RESULT=").as_deref(), Some(""));
    assert_eq!(result_line("ASTRA_PROBE_RESULT=x\r").as_deref(), Some("x\r"));
    assert_eq!(result_line("ASTRA_PROBE_RESULT"), None);
}

const GOOD: &str = "STARTUP_READY\r\nASTRA_PROBE_RESULT={\"restored\":true,\"events\":[\"key:Char('a')\",\"key:Char('你')\",\"paste:pasted\\n你好\\u001b]11;rgb:ff/ff/ff\\u0007\"]}\r\n";

#[test]
fn runs_are_judged_by_what_they_print() {
    let value = case_outcome("light", true, GOOD.as_bytes()).unwrap();
    assert_eq!(value["restored"], true);
    assert_eq!(case_outcome("light", false, GOOD.as_bytes()), Err(RunFault::Unsuccessful));
    let bare = GOOD.replace("READY\r\n", "READY\n");
    assert_eq!(case_outcome("light", true, bare.as_bytes()), Err(RunFault::NewlineHandling));
    assert_eq!(
        case_outcome("light", true, b"STARTUP_READY\r\n"),
        Err(RunFault::NoResult)
    );
    assert_eq!(
        case_outcome("light", true, b"STARTUP_READY\r\nASTRA_PROBE_RESULT=nope\r\n"),
        Err(RunFault::MalformedResult)
    );
    let kept = GOOD.replace("true", "false");
    assert_eq!(case_outcome("light", true, kept.as_bytes()), Err(RunFault::NotRestored));
    let lost = GOOD.replace("key:Char('a')", "key:Char('b')");
    assert_eq!(case_outcome("light", true, lost.as_bytes()), Err(RunFault::InputChanged));
    assert!(case_outcome("abort", true, lost.as_bytes()).is_ok());
    // Bytes that are no text are replaced, not refused.
    let mut broken = GOOD.as_bytes().to_vec();
    broken.insert(0, 0xff);
    assert!(case_outcome("light", true, &broken).is_ok());
}

#[test]
fn a_judgement_needs_the_document() {
    assert_eq!(judge("light", true, GOOD, None), Err(RunFault::MalformedResult));
    let value: serde_json::Value = serde_json::from_str("{\"restored\":\"true\"}").unwrap();
    assert_eq!(judge("abort", true, GOOD, Some(value)), Err(RunFault::NotRestored));
    let short: serde_json::Value =
        serde_json::from_str("{\"restored\":true,\"events\":[\"key:Char('a')\"]}").unwrap();
    assert_eq!(judge("dark", true, GOOD, Some(short)), Err(RunFault::InputChanged));
}

#[test]
fn startup_replies_accumulate_until_all_is_answered() {
    assert_eq!(startup_queries(true), "\x1b]10;?\x1b\\\x1b]11;?\x1b\\\x1b[c");
    assert_eq!(startup_queries(false), "\x1b[c");
    let mut attributes = StartupAttributes::new();
    assert!(!attributes.accept(true, TerminalReply::DeviceAttributes(vec![62, 4])));
    assert!(!attributes.accept(true, TerminalReply::Color("\x1b]10;rgb:0/0/0\x07".to_string())));
    assert!(!attributes.accept(true, TerminalReply::Color("\x1b]12;rgb:0/0/0\x07".to_string())));
    assert!(attributes.accept(true, TerminalReply::Color("\x1b]11;rgb:f/f/f\x07".to_string())));
    assert_eq!(attributes.foreground.as_deref(), Some("\x1b]10;rgb:0/0/0\x07"));
    assert_eq!(attributes.background.as_deref(), Some("\x1b]11;rgb:f/f/f\x07"));
    assert_eq!(attributes.device_attributes, Some(vec![62, 4]));
    let mut plain = StartupAttributes::new();
    assert!(!plain.accept(false, TerminalReply::Color("\x1b]10;x\x07".to_string())));
    assert!(plain.foreground.is_none());
    assert!(plain.accept(false, TerminalReply::DeviceAttributes(vec![1])));
}
