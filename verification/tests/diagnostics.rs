use metalr_build::diagnostics::{contains_word, route_diagnostics, Diagnostic};
use metalr_build::text::characters;

fn warning(line: &str) -> Diagnostic {
    Diagnostic::Warning(format!("cargo:warning={}", line))
}

fn passed_on(line: &str) -> Diagnostic {
    Diagnostic::PassedOn(line.to_string())
}

#[test]
fn warning_lines_go_to_the_host() {
    let stderr = "a.metal:3:9: warning: unused variable 'x'\n    int x;\n        ^\n1 warning generated.\n";
    assert_eq!(
        route_diagnostics(stderr),
        vec![
            warning("a.metal:3:9: warning: unused variable 'x'"),
            passed_on("    int x;"),
            passed_on("        ^"),
            warning("1 warning generated."),
        ]
    );
}

#[test]
fn nothing_written_is_nothing_routed() {
    assert_eq!(route_diagnostics(""), Vec::new());
}

#[test]
fn last_line_needs_no_line_feed() {
    assert_eq!(route_diagnostics("note"), vec![passed_on("note")]);
    assert_eq!(route_diagnostics("note\n"), vec![passed_on("note")]);
    assert_eq!(route_diagnostics("warning"), vec![warning("warning")]);
}

#[test]
fn empty_lines_are_passed_on() {
    assert_eq!(route_diagnostics("\n"), vec![passed_on("")]);
    assert_eq!(route_diagnostics("a\n\nb"), vec![passed_on("a"), passed_on(""), passed_on("b")]);
    assert_eq!(route_diagnostics("\n\n"), vec![passed_on(""), passed_on("")]);
}

#[test]
fn warning_is_found_anywhere_in_a_line_and_by_its_exact_letters() {
    assert_eq!(route_diagnostics("xwarningx"), vec![warning("xwarningx")]);
    assert_eq!(route_diagnostics("ends in warning"), vec![warning("ends in warning")]);
    assert_eq!(route_diagnostics("Warning: big"), vec![passed_on("Warning: big")]);
    assert_eq!(route_diagnostics("warnin g"), vec![passed_on("warnin g")]);
    assert_eq!(route_diagnostics("warwarning"), vec![warning("warwarning")]);
    assert_eq!(route_diagnostics("warn\ning"), vec![passed_on("warn"), passed_on("ing")]);
    assert_eq!(route_diagnostics("\u{fc}: warning \u{e9}"), vec![warning("\u{fc}: warning \u{e9}")]);
}

#[test]
fn contains_word_finds_a_word_in_a_line() {
    let line = characters("hello world");
    assert!(contains_word(&line, &characters("world")));
    assert!(contains_word(&line, &characters("hello")));
    assert!(contains_word(&line, &characters("o w")));
    assert!(contains_word(&line, &characters("")));
    assert!(contains_word(&line, &characters("hello world")));
    assert!(!contains_word(&line, &characters("worlds")));
    assert!(!contains_word(&line, &characters("hello world!")));
    assert!(!contains_word(&line, &characters("wor1d")));
    assert!(contains_word(&Vec::new(), &Vec::new()));
    assert!(!contains_word(&Vec::new(), &characters("a")));
}

#[test]
fn characters_are_the_characters_of_a_text() {
    assert_eq!(characters("a\u{fc}b"), vec!['a', '\u{fc}', 'b']);
    assert_eq!(characters(""), Vec::<char>::new());
}
