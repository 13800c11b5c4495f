use firmium::cli::{cli_exit_code, reply_line};
use firmium::text::trim;

#[test]
fn replies_lose_their_line_break() {
    assert_eq!(reply_line("ok\n"), "ok");
    assert_eq!(reply_line("playing: Song \r\n"), "playing: Song");
    assert_eq!(reply_line("  lead stays"), "  lead stays");
    assert_eq!(reply_line("\n\n"), "");
}

#[test]
fn exit_codes_follow_the_reply() {
    assert_eq!(cli_exit_code(Some("ok")), 0);
    assert_eq!(cli_exit_code(Some("error: unknown command")), 1);
    assert_eq!(cli_exit_code(Some("errors")), 1);
    assert_eq!(cli_exit_code(Some("Error")), 0);
    assert_eq!(cli_exit_code(Some("")), 0);
    assert_eq!(cli_exit_code(None), 1);
}

#[test]
fn trim_matches_std() {
    for s in ["", " ", "a", " a ", "\t\na b\u{2003}", "\u{85}x\u{3000}", "\u{200b}y"] {
        assert_eq!(trim(s), s.trim());
    }
}
