use hush::info::{description_block, InfoLine};
use hush::labels::{mismatch_message, repeat_placeholder};
use hush::text::{remove_underscores, same_text, split_lines, str_blank};

fn lines_of(s: &str) -> Vec<String> {
    split_lines(s).into_iter().map(|l| l.into_iter().collect()).collect()
}

#[test]
fn lines_split_like_str_lines() {
    assert_eq!(lines_of("a\r\nb\n\nc\r"), vec!["a", "b", "", "c\r"]);
    assert_eq!(lines_of("x\n"), vec!["x"]);
    assert_eq!(lines_of(""), Vec::<String>::new());
    assert_eq!(lines_of("\n\n"), vec!["", ""]);
    for s in ["one\ntwo", "a\r\n\r\nb\n", "\r\n", "tail\r"] {
        let ours = lines_of(s);
        let std: Vec<String> = s.lines().map(String::from).collect();
        assert_eq!(ours, std);
    }
}

#[test]
fn blank_means_white_space_only() {
    assert!(str_blank(""));
    assert!(str_blank(" \t\r\n\u{A0}"));
    assert!(!str_blank("  x "));
}

#[test]
fn same_text_compares_characters() {
    assert!(same_text("pässwörd", "pässwörd"));
    assert!(!same_text("abc", "abd"));
    assert!(!same_text("abc", "ab"));
    assert!(same_text("", ""));
}

#[test]
fn underscores_are_removed() {
    assert_eq!(remove_underscores("_Save _as"), "Save as");
    assert_eq!(remove_underscores("__"), "");
    assert_eq!(remove_underscores(&remove_underscores("a_b_c")), "abc");
}

fn shown(block: &[InfoLine]) -> Vec<String> {
    block
        .iter()
        .map(|l| match l {
            InfoLine::Labeled { label, value } => format!("[{label}]={value}"),
            InfoLine::Plain { text } => text.clone(),
        })
        .collect()
}

#[test]
fn description_lines_are_trimmed_and_classified() {
    let block = description_block(
        "Key: ssh-ed25519 AAA\n\n   a plain line  \r\nno separator here\nLabel:   \n: value\n",
    );
    assert_eq!(
        shown(&block),
        vec![
            "[Key]=ssh-ed25519 AAA",
            "a plain line",
            "no separator here",
            "Label:",
            ": value",
        ]
    );
}

#[test]
fn long_labels_are_not_split() {
    let fits = "abcdefghijklmnopqrstuvwx: v";
    let too_long = "abcdefghijklmnopqrstuvwxy: v";
    assert_eq!(shown(&description_block(fits)), vec!["[abcdefghijklmnopqrstuvwx]=v"]);
    assert_eq!(shown(&description_block(too_long)), vec![too_long]);
    // Twelve two-byte characters are 24 bytes; thirteen are 26.
    let wide_fits = "éééééééééééé: v";
    let wide_too_long = "ééééééééééééé: v";
    assert_eq!(shown(&description_block(wide_fits)), vec!["[éééééééééééé]=v"]);
    assert_eq!(shown(&description_block(wide_too_long)), vec![wide_too_long]);
}

#[test]
fn first_separator_splits_the_line() {
    assert_eq!(shown(&description_block("a: b: c")), vec!["[a]=b: c"]);
    assert_eq!(shown(&description_block("time:12: 30")), vec!["[time:12]=30"]);
}

#[test]
fn blank_description_shows_nothing() {
    assert!(description_block(" \n\t\n").is_empty());
    assert!(description_block("").is_empty());
}

#[test]
fn repeat_field_wording() {
    assert_eq!(repeat_placeholder(""), "Confirm PIN");
    assert_eq!(repeat_placeholder("Repeat:"), "Repeat:");
    assert_eq!(mismatch_message(""), "The PINs do not match.");
    assert_eq!(mismatch_message("Nope"), "Nope");
}
