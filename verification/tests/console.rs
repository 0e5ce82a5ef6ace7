use cloudflare_proxy::console::{answers_yes, confirms_deletion, strip_line_end};

#[test]
fn strip_line_end_drops_the_newline() {
    assert_eq!(strip_line_end("cargo\n"), "cargo");
    assert_eq!(strip_line_end("\n"), "");
    assert_eq!(strip_line_end("zürich\n"), "zürich");
}

#[test]
fn superuser_answer() {
    assert!(answers_yes("y"));
    assert!(answers_yes("Y"));
    assert!(!answers_yes("n"));
    assert!(!answers_yes(""));
    assert!(!answers_yes("yes"));
}

#[test]
fn deletion_confirmation() {
    assert!(confirms_deletion("y\n"));
    assert!(confirms_deletion("  Y \n"));
    assert!(!confirms_deletion("n\n"));
    assert!(!confirms_deletion("yes\n"));
    assert!(!confirms_deletion("\n"));
}

#[test]
fn deletion_confirmation_trims_unicode_white_space() {
    assert!(confirms_deletion("\u{3000}y\u{a0}\n"));
    assert!(!confirms_deletion("\u{200b}y\n"));
}

#[test]
fn deletion_confirmation_of_white_space_only() {
    assert!(!confirms_deletion(" \t\r\n"));
    assert!(confirms_deletion("\ty\t"));
}
