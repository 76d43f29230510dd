use dirshell::commands::{Command, DirectoryCommand};
use dirshell::numbers::parse_u64;
use dirshell::text::{eq_ignore_case, trim_newline};
use dirshell::tokens::split_spaces;

fn parse(s: &str) -> Command {
    let mut line = String::from(s);
    Command::parse(&mut line)
}

fn invalid_args_naming(c: Command, name: &str) -> bool {
    match c {
        Command::InvalidArgs(m) => m.contains(name),
        _ => false,
    }
}

#[test]
fn shell_heads_in_any_case() {
    assert_eq!(parse("exit"), Command::Exit);
    assert_eq!(parse("EXIT"), Command::Exit);
    assert_eq!(parse("eXiT"), Command::Exit);
    assert_eq!(parse("x"), Command::Exit);
    assert_eq!(parse("X"), Command::Exit);
    assert_eq!(parse("help"), Command::Help);
    assert_eq!(parse("HELP"), Command::Help);
    assert_eq!(parse("?"), Command::Help);
    assert_eq!(parse("flush"), Command::Flush);
    assert_eq!(parse("Flush"), Command::Flush);
    assert_eq!(parse("info"), Command::Info);
    assert_eq!(parse("INFO"), Command::Info);
}

#[test]
fn shell_heads_ignore_trailing_arguments() {
    assert_eq!(parse("exit now please"), Command::Exit);
    assert_eq!(parse("x 1 2 3"), Command::Exit);
    assert_eq!(parse("HeLp me"), Command::Help);
    assert_eq!(parse("? anything"), Command::Help);
    assert_eq!(parse("flush all"), Command::Flush);
    assert_eq!(parse("Info please"), Command::Info);
}

#[test]
fn unknown_carries_normalized_text() {
    assert_eq!(
        parse("frobnicate"),
        Command::Unknown(String::from("frobnicate"))
    );
    assert_eq!(
        parse("publishes a b\n"),
        Command::Unknown(String::from("publishes a b"))
    );
    assert_eq!(parse("exits"), Command::Unknown(String::from("exits")));
    assert_eq!(parse(""), Command::Unknown(String::new()));
    assert_eq!(parse(" "), Command::Unknown(String::from(" ")));
}

#[test]
fn publish_with_two_arguments() {
    assert_eq!(
        parse("publish alice secret123"),
        Command::Directory(DirectoryCommand::Publish(
            String::from("alice"),
            String::from("secret123")
        ))
    );
}

#[test]
fn publish_with_too_few_arguments() {
    assert!(invalid_args_naming(parse("publish alice"), "publish"));
    assert!(invalid_args_naming(parse("publish"), "publish"));
}

#[test]
fn lookup_and_history() {
    assert_eq!(
        parse("lookup alice"),
        Command::Directory(DirectoryCommand::Lookup(String::from("alice")))
    );
    assert_eq!(
        parse("history bob"),
        Command::Directory(DirectoryCommand::KeyHistory(String::from("bob")))
    );
    assert!(invalid_args_naming(parse("lookup"), "lookup"));
    assert!(invalid_args_naming(parse("HISTORY"), "history"));
}

#[test]
fn audit_with_two_epochs() {
    assert_eq!(
        parse("audit 5 10"),
        Command::Directory(DirectoryCommand::Audit(5, 10))
    );
    // No ordering is imposed between start and end.
    assert_eq!(
        parse("audit 10 5"),
        Command::Directory(DirectoryCommand::Audit(10, 5))
    );
}

#[test]
fn audit_rejects_bad_epochs() {
    assert!(invalid_args_naming(parse("audit 5 ten"), "audit"));
    assert!(invalid_args_naming(parse("audit five 10"), "audit"));
    assert!(invalid_args_naming(parse("audit 5"), "audit"));
    assert!(invalid_args_naming(parse("audit +5 10"), "audit"));
    assert!(invalid_args_naming(
        parse("audit 18446744073709551616 0"),
        "audit"
    ));
}

#[test]
fn audit_epoch_range() {
    assert_eq!(
        parse("audit 18446744073709551615 0"),
        Command::Directory(DirectoryCommand::Audit(u64::MAX, 0))
    );
    assert_eq!(
        parse("audit 007 0"),
        Command::Directory(DirectoryCommand::Audit(7, 0))
    );
}

#[test]
fn root_hash_epoch_is_optional() {
    assert_eq!(
        parse("root"),
        Command::Directory(DirectoryCommand::RootHash(None))
    );
    assert_eq!(
        parse("root 42"),
        Command::Directory(DirectoryCommand::RootHash(Some(42)))
    );
    assert_eq!(
        parse("root_hash 7"),
        Command::Directory(DirectoryCommand::RootHash(Some(7)))
    );
    assert_eq!(
        parse("ROOT 42"),
        Command::Directory(DirectoryCommand::RootHash(Some(42)))
    );
}

#[test]
fn root_hash_degrades_on_bad_epoch() {
    assert_eq!(
        parse("root abc"),
        Command::Directory(DirectoryCommand::RootHash(None))
    );
    assert_eq!(
        parse("root +42"),
        Command::Directory(DirectoryCommand::RootHash(None))
    );
}

#[test]
fn line_endings_are_stripped() {
    assert_eq!(parse("exit\n"), Command::Exit);
    assert_eq!(parse("exit\r\n"), Command::Exit);
    assert_eq!(
        parse("publish alice secret123\r\n"),
        Command::Directory(DirectoryCommand::Publish(
            String::from("alice"),
            String::from("secret123")
        ))
    );
    assert_eq!(
        parse("audit 5 10\n"),
        Command::Directory(DirectoryCommand::Audit(5, 10))
    );
}

#[test]
fn case_folding_touches_only_the_head() {
    assert_eq!(
        parse("PUBLISH alice Secret"),
        Command::Directory(DirectoryCommand::Publish(
            String::from("alice"),
            String::from("Secret")
        ))
    );
    assert_eq!(
        parse("Lookup ALICE"),
        Command::Directory(DirectoryCommand::Lookup(String::from("ALICE")))
    );
}

#[test]
fn consecutive_spaces_shift_argument_positions() {
    assert_eq!(
        parse("publish  alice secret"),
        Command::Directory(DirectoryCommand::Publish(
            String::new(),
            String::from("alice")
        ))
    );
}

#[test]
fn trim_newline_strips_one_ending() {
    let mut s = String::from("ab\r\n");
    trim_newline(&mut s);
    assert_eq!(s, "ab");

    let mut s = String::from("ab\n");
    trim_newline(&mut s);
    assert_eq!(s, "ab");

    let mut s = String::from("ab\n\n");
    trim_newline(&mut s);
    assert_eq!(s, "ab\n");

    let mut s = String::from("ab\r");
    trim_newline(&mut s);
    assert_eq!(s, "ab\r");
}

#[test]
fn trim_newline_is_a_no_op_on_stripped_lines() {
    let mut s = String::from("publish alice secret\r\n");
    trim_newline(&mut s);
    let once = s.clone();
    trim_newline(&mut s);
    assert_eq!(s, once);

    let mut t = String::new();
    trim_newline(&mut t);
    assert_eq!(t, "");
}

#[test]
fn split_spaces_keeps_empty_tokens() {
    let toks = split_spaces("a  b ");
    assert_eq!(toks, vec!["a", "", "b", ""]);
    let toks = split_spaces("");
    assert!(toks.is_empty());
    let toks = split_spaces(" ");
    assert_eq!(toks, vec!["", ""]);
}

#[test]
fn parse_u64_accepts_plain_decimal_only() {
    assert_eq!(parse_u64("0"), Some(0));
    assert_eq!(parse_u64("42"), Some(42));
    assert_eq!(parse_u64("18446744073709551615"), Some(u64::MAX));
    assert_eq!(parse_u64("18446744073709551616"), None);
    assert_eq!(parse_u64(""), None);
    assert_eq!(parse_u64("+5"), None);
    assert_eq!(parse_u64("-5"), None);
    assert_eq!(parse_u64(" 5"), None);
    assert_eq!(parse_u64("5 "), None);
    assert_eq!(parse_u64("ten"), None);
}

#[test]
fn case_insensitive_comparison() {
    assert!(eq_ignore_case("PUBLISH", "publish"));
    assert!(eq_ignore_case("pUbLiSh", "publish"));
    assert!(!eq_ignore_case("publish", "publish "));
    assert!(!eq_ignore_case("publish", "lookup"));
    assert!(eq_ignore_case("", ""));
}
