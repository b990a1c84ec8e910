use cftp::command::auth::{Auth, AuthType, AuthTypeParseError};
use cftp::command::cwd::Cwd;
use cftp::command::opts::Opts;
use cftp::command::pass::Pass;
use cftp::command::retr::Retr;
use cftp::command::rnfr::Rnfr;
use cftp::command::rnto::Rnto;
use cftp::command::stor::Stor;
use cftp::command::transfer_type::{TransferType, Type};
use cftp::command::unit::{Feat, List, Pasv, Pbsz, Pwd, Syst, Utf8};
use cftp::command::user::User;
use cftp::command::{recognize, Command, Verb};
use std::str::FromStr;
use cftp::text::{
    chars_of, find_space, is_whitespace, matches_ignoring_case, normalize_path, same_chars_as,
    string_of, to_ascii_lower, to_ascii_upper, trim_slice,
};

fn user(name: &str) -> Command {
    Command::User(User { username: name.to_string() })
}

#[test]
fn user_with_a_name() {
    assert_eq!(Command::from_str("USER anonymous"), Ok(user("anonymous")));
}

#[test]
fn each_verb_is_understood() {
    assert_eq!(Command::from_str("AUTH TLS"), Ok(Command::Auth(Auth { auth_type: AuthType::Tls })));
    assert_eq!(Command::from_str("AUTH SSL"), Ok(Command::Auth(Auth { auth_type: AuthType::Ssl })));
    assert_eq!(Command::from_str("USER alice"), Ok(user("alice")));
    assert_eq!(
        Command::from_str("PASS s3cret"),
        Ok(Command::Pass(Pass { password: "s3cret".to_string() }))
    );
    assert_eq!(Command::from_str("CWD /pub"), Ok(Command::Cwd(Cwd { path: "/pub".to_string() })));
    assert_eq!(Command::from_str("PWD"), Ok(Command::Pwd(Pwd)));
    assert_eq!(
        Command::from_str("TYPE I"),
        Ok(Command::Type(Type { change_to: TransferType::Binary }))
    );
    assert_eq!(
        Command::from_str("TYPE A"),
        Ok(Command::Type(Type { change_to: TransferType::Ascii }))
    );
    assert_eq!(Command::from_str("PASV"), Ok(Command::Pasv(Pasv)));
    assert_eq!(Command::from_str("LIST"), Ok(Command::List(List)));
    assert_eq!(
        Command::from_str("RETR /a.txt"),
        Ok(Command::Retr(Retr { file: "/a.txt".to_string() }))
    );
    assert_eq!(Command::from_str("SYST"), Ok(Command::Syst(Syst)));
    assert_eq!(
        Command::from_str("STOR /b.txt"),
        Ok(Command::Stor(Stor { file: "/b.txt".to_string() }))
    );
    assert_eq!(Command::from_str("FEAT"), Ok(Command::Feat(Feat)));
    assert_eq!(
        Command::from_str("OPTS UTF8 ON"),
        Ok(Command::Opts(Opts { options: "UTF8 ON".to_string() }))
    );
    assert_eq!(Command::from_str("UTF8"), Ok(Command::Utf8(Utf8)));
    assert_eq!(Command::from_str("PBSZ 0"), Ok(Command::Pbsz(Pbsz)));
    assert_eq!(
        Command::from_str("RNFR /old"),
        Ok(Command::Rnfr(Rnfr { path: "/old".to_string() }))
    );
    assert_eq!(Command::from_str("RNTO /new"), Ok(Command::Rnto(Rnto { to: "/new".to_string() })));
}

#[test]
fn the_case_of_the_verb_does_not_matter() {
    for line in ["USER alice", "user alice", "User alice", "uSeR alice"] {
        assert_eq!(Command::from_str(line), Ok(user("alice")));
    }
    for line in ["pasv", "Pasv", "PASV", "pAsV"] {
        assert_eq!(Command::from_str(line), Ok(Command::Pasv(Pasv)));
    }
}

#[test]
fn white_space_around_the_argument_does_not_matter() {
    for line in ["USER alice", "USER  alice", "USER alice  ", "USER \talice\t", "USER   alice \r"] {
        assert_eq!(Command::from_str(line), Ok(user("alice")));
    }
}

#[test]
fn white_space_after_the_verb_does_not_matter() {
    assert_eq!(Command::from_str("PWD\t"), Ok(Command::Pwd(Pwd)));
    assert_eq!(Command::from_str("\tPWD"), Ok(Command::Pwd(Pwd)));
    assert_eq!(Command::from_str("USER\t alice"), Ok(user("alice")));
    assert_eq!(Command::from_str("\u{a0}user\u{3000} alice"), Ok(user("alice")));
}

#[test]
fn a_space_in_front_is_no_verb() {
    assert_eq!(Command::from_str(" USER alice"), Err("unknown command: ".to_string()));
}

#[test]
fn a_tab_does_not_part_verb_and_argument() {
    assert_eq!(
        Command::from_str("USER\talice"),
        Err("unknown command: USER\talice".to_string())
    );
}

#[test]
fn unknown_verb() {
    assert_eq!(Command::from_str("NOOP"), Err("unknown command: NOOP".to_string()));
    assert_eq!(Command::from_str("noop  now "), Err("unknown command: noop".to_string()));
    assert_eq!(Command::from_str("USERS x"), Err("unknown command: USERS".to_string()));
    assert_eq!(Command::from_str("PAS x"), Err("unknown command: PAS".to_string()));
    assert_eq!(Command::from_str(""), Err("unknown command: ".to_string()));
}

#[test]
fn a_line_without_a_space_is_the_verb_alone() {
    assert_eq!(Command::from_str("USER"), Ok(user("")));
    assert_eq!(Command::from_str("PASS"), Ok(Command::Pass(Pass { password: String::new() })));
    assert_eq!(Command::from_str("CWD"), Ok(Command::Cwd(Cwd { path: String::new() })));
    assert_eq!(Command::from_str("OPTS"), Ok(Command::Opts(Opts { options: String::new() })));
    assert_eq!(Command::from_str("RETR"), Ok(Command::Retr(Retr { file: String::new() })));
    assert_eq!(Command::from_str("LIST"), Ok(Command::List(List)));
    assert_eq!(
        Command::from_str("AUTH"),
        Err("failed to parse AUTH command: invalid authentication type".to_string())
    );
    assert_eq!(
        Command::from_str("TYPE"),
        Err("failed to parse TYPE command: invalid transfer type".to_string())
    );
}

#[test]
fn unit_commands_ignore_their_argument() {
    assert_eq!(Command::from_str("PWD whatever"), Ok(Command::Pwd(Pwd)));
    assert_eq!(Command::from_str("LIST -la /"), Ok(Command::List(List)));
    assert_eq!(Command::from_str("FEAT x"), Ok(Command::Feat(Feat)));
    assert_eq!(Command::from_str("syst x y z"), Ok(Command::Syst(Syst)));
    assert_eq!(Command::from_str("utf8 on"), Ok(Command::Utf8(Utf8)));
    assert!(Feat::from_str("x").is_ok());
    assert!(List::from_str("").is_ok());
    assert!(Pasv::from_str("x").is_ok());
    assert!(Pwd::from_str("x").is_ok());
    assert!(Syst::from_str("x").is_ok());
    assert!(Utf8::from_str("x").is_ok());
    assert!(Pbsz::from_str("x").is_ok());
}

#[test]
fn auth_type_in_any_case() {
    assert_eq!(AuthType::from_str("TLS"), Ok(AuthType::Tls));
    assert_eq!(AuthType::from_str("tls"), Ok(AuthType::Tls));
    assert_eq!(AuthType::from_str(" Tls\t"), Ok(AuthType::Tls));
    assert_eq!(AuthType::from_str("SSL"), Ok(AuthType::Ssl));
    assert_eq!(AuthType::from_str("ssl "), Ok(AuthType::Ssl));
    assert_eq!(Auth::from_str("  sSl"), Ok(Auth { auth_type: AuthType::Ssl }));
}

#[test]
fn auth_type_that_has_no_name() {
    assert_eq!(AuthType::from_str(""), Err(AuthTypeParseError::InvalidAuthType));
    assert_eq!(AuthType::from_str("TLSS"), Err(AuthTypeParseError::InvalidAuthType));
    assert_eq!(AuthType::from_str("TL"), Err(AuthTypeParseError::InvalidAuthType));
    assert_eq!(AuthType::from_str("T LS"), Err(AuthTypeParseError::InvalidAuthType));
    assert_eq!(Auth::from_str("KERBEROS"), Err(AuthTypeParseError::InvalidAuthType));
    assert_eq!(
        AuthTypeParseError::InvalidAuthType.to_string(),
        "invalid authentication type"
    );
    assert_eq!(
        Command::from_str("AUTH KERBEROS"),
        Err("failed to parse AUTH command: invalid authentication type".to_string())
    );
}

#[test]
fn transfer_type_names() {
    assert_eq!(TransferType::from_str("A"), Ok(TransferType::Ascii));
    assert_eq!(TransferType::from_str("a"), Ok(TransferType::Ascii));
    assert_eq!(TransferType::from_str("ASCII"), Ok(TransferType::Ascii));
    assert_eq!(TransferType::from_str(" ascii "), Ok(TransferType::Ascii));
    assert_eq!(TransferType::from_str("I"), Ok(TransferType::Binary));
    assert_eq!(TransferType::from_str("i"), Ok(TransferType::Binary));
    assert_eq!(TransferType::from_str("Binary"), Ok(TransferType::Binary));
    assert_eq!(Type::from_str("\tbinary"), Ok(Type { change_to: TransferType::Binary }));
}

#[test]
fn transfer_type_that_has_no_name() {
    assert_eq!(TransferType::from_str(""), Err("invalid transfer type"));
    assert_eq!(TransferType::from_str("E"), Err("invalid transfer type"));
    assert_eq!(TransferType::from_str("A N"), Err("invalid transfer type"));
    assert_eq!(TransferType::from_str("BIN"), Err("invalid transfer type"));
    assert_eq!(Type::from_str("L 8"), Err("invalid transfer type"));
    assert_eq!(
        Command::from_str("TYPE L 8"),
        Err("failed to parse TYPE command: invalid transfer type".to_string())
    );
}

#[test]
fn transfer_type_goes_by_the_upper_case_of_unicode() {
    // The long s and the dotless i have S and I as their upper case.
    assert_eq!(TransferType::from_str("a\u{17f}cii"), Ok(TransferType::Ascii));
    assert_eq!(TransferType::from_str("\u{131}"), Ok(TransferType::Binary));
    assert_eq!(TransferType::from_str("b\u{131}nary"), Ok(TransferType::Binary));
    assert_eq!(TransferType::from_str("\u{e4}"), Err("invalid transfer type"));
    assert_eq!(
        Command::from_str("type asc\u{131}\u{131}"),
        Ok(Command::Type(Type { change_to: TransferType::Ascii }))
    );
}

#[test]
fn transfer_type_from_its_upper_case_name() {
    let name = |s: &str| TransferType::from_uppercase(&chars_of(s));
    assert_eq!(name("A"), Ok(TransferType::Ascii));
    assert_eq!(name("ASCII"), Ok(TransferType::Ascii));
    assert_eq!(name("I"), Ok(TransferType::Binary));
    assert_eq!(name("BINARY"), Ok(TransferType::Binary));
    assert_eq!(name("a"), Err("invalid transfer type"));
    assert_eq!(name("ascii"), Err("invalid transfer type"));
    assert_eq!(name(""), Err("invalid transfer type"));
    assert_eq!(name("ASCII "), Err("invalid transfer type"));
}

#[test]
fn upper_case_of_ascii_is_what_std_gives() {
    for code in 0u8..128 {
        let c = code as char;
        assert_eq!(c.to_uppercase().collect::<String>(), to_ascii_upper(c).to_string());
        assert_eq!(to_ascii_upper(c), c.to_ascii_uppercase());
        assert_eq!(to_ascii_lower(c), c.to_ascii_lowercase());
    }
    assert_eq!(to_ascii_upper('\u{e4}'), '\u{e4}');
    assert_eq!(to_ascii_lower('\u{c4}'), '\u{c4}');
}

#[test]
fn text_arguments_are_trimmed() {
    assert_eq!(User::from_str("  bob \t").unwrap().username, "bob");
    assert_eq!(Pass::from_str(" p w ").unwrap().password, "p w");
    assert_eq!(Cwd::from_str("\u{2003}/x\u{2003}").unwrap().path, "/x");
    assert_eq!(Opts::from_str("utf8 on\n").unwrap().options, "utf8 on");
    assert_eq!(User::from_str("   ").unwrap().username, "");
}

#[test]
fn paths_have_slashes_for_backslashes() {
    assert_eq!(Retr::from_str("dir\\sub\\file.txt").unwrap().file, "dir/sub/file.txt");
    assert_eq!(Stor::from_str("\\\\").unwrap().file, "//");
    assert_eq!(Rnfr::from_str("a/b").unwrap().path, "a/b");
    assert_eq!(Rnto::from_str("").unwrap().to, "");
    assert_eq!(
        Command::from_str("RETR  C:\\Users\\me\\x.bin "),
        Ok(Command::Retr(Retr { file: "C:/Users/me/x.bin".to_string() }))
    );
}

#[test]
fn path_arguments_alone_are_not_trimmed() {
    assert_eq!(Retr::from_str(" a ").unwrap().file, " a ");
    assert_eq!(Command::from_str("RETR  a "), Ok(Command::Retr(Retr { file: "a".to_string() })));
}

#[test]
fn normalizing_a_path_twice_changes_nothing_more() {
    for path in ["", "a", "\\", "a\\b/c\\d", "\\\\server\\share", "caf\u{e9}\\\u{1f600}"] {
        let once = normalize_path(&chars_of(path));
        let twice = normalize_path(&chars_of(&once));
        assert_eq!(once, twice);
        assert!(!once.contains('\\'));
        assert_eq!(once, path.replace('\\', "/"));
    }
}

#[test]
fn written_commands_are_read_back() {
    let commands = vec![
        ("AUTH TLS", Command::Auth(Auth { auth_type: AuthType::Tls })),
        ("AUTH SSL", Command::Auth(Auth { auth_type: AuthType::Ssl })),
        ("USER a b", user("a b")),
        ("USER ", user("")),
        ("PASS x", Command::Pass(Pass { password: "x".to_string() })),
        ("CWD /", Command::Cwd(Cwd { path: "/".to_string() })),
        ("PWD", Command::Pwd(Pwd)),
        ("TYPE A", Command::Type(Type { change_to: TransferType::Ascii })),
        ("TYPE I", Command::Type(Type { change_to: TransferType::Binary })),
        ("PASV", Command::Pasv(Pasv)),
        ("LIST", Command::List(List)),
        ("RETR /a/b", Command::Retr(Retr { file: "/a/b".to_string() })),
        ("SYST", Command::Syst(Syst)),
        ("STOR x y", Command::Stor(Stor { file: "x y".to_string() })),
        ("FEAT", Command::Feat(Feat)),
        ("OPTS MLST type;size;", Command::Opts(Opts { options: "MLST type;size;".to_string() })),
        ("UTF8", Command::Utf8(Utf8)),
        ("PBSZ", Command::Pbsz(Pbsz)),
        ("RNFR /a", Command::Rnfr(Rnfr { path: "/a".to_string() })),
        ("RNTO /b", Command::Rnto(Rnto { to: "/b".to_string() })),
    ];
    for (line, command) in commands {
        assert_eq!(Command::from_str(line), Ok(command));
    }
}

#[test]
fn reading_from_characters_is_reading_from_text() {
    for line in ["USER x", "noop", "TYPE q", "RNTO a\\b", ""] {
        assert_eq!(Command::from_chars(&chars_of(line)), Command::from_str(line));
    }
}

#[test]
fn verbs_and_their_words() {
    let verbs = [
        (Verb::Auth, "AUTH"),
        (Verb::User, "USER"),
        (Verb::Pass, "PASS"),
        (Verb::Cwd, "CWD"),
        (Verb::Pwd, "PWD"),
        (Verb::Type, "TYPE"),
        (Verb::Pasv, "PASV"),
        (Verb::List, "LIST"),
        (Verb::Retr, "RETR"),
        (Verb::Syst, "SYST"),
        (Verb::Stor, "STOR"),
        (Verb::Feat, "FEAT"),
        (Verb::Opts, "OPTS"),
        (Verb::Utf8, "UTF8"),
        (Verb::Pbsz, "PBSZ"),
        (Verb::Rnfr, "RNFR"),
        (Verb::Rnto, "RNTO"),
    ];
    for (verb, word) in verbs {
        assert_eq!(verb.as_str(), word);
        assert_eq!(recognize(&chars_of(word)), Some(verb));
        assert_eq!(recognize(&chars_of(&word.to_lowercase())), Some(verb));
        assert_eq!(recognize(&chars_of(&format!("{} ", word))), None);
    }
    assert_eq!(recognize(&chars_of("")), None);
    assert_eq!(recognize(&chars_of("QUIT")), None);
}

#[test]
fn command_from_verb_and_argument() {
    assert_eq!(Command::from_verb(Verb::User, &chars_of(" x ")), Ok(user("x")));
    assert_eq!(Command::from_verb(Verb::Pwd, &chars_of("x")), Ok(Command::Pwd(Pwd)));
    assert_eq!(
        Command::from_verb(Verb::Type, &chars_of("x")),
        Err("failed to parse TYPE command: invalid transfer type".to_string())
    );
}

#[test]
fn white_space_is_what_std_says_it_is() {
    let mut code: u32 = 0;
    while code <= 0x10FFFF {
        if let Some(c) = char::from_u32(code) {
            assert_eq!(is_whitespace(c), c.is_whitespace(), "U+{:04X}", code);
        }
        code += 1;
    }
}

#[test]
fn trimming_is_what_std_does() {
    for s in ["", " ", "a", " a", "a ", "\t a b \r\n", "\u{a0}x\u{3000}", " \u{1680} ", "x \u{200b} "] {
        let chars = chars_of(s);
        assert_eq!(string_of(trim_slice(&chars)), s.trim());
    }
}

#[test]
fn first_space_of_a_text() {
    assert_eq!(find_space(&chars_of("")), 0);
    assert_eq!(find_space(&chars_of("abc")), 3);
    assert_eq!(find_space(&chars_of(" abc")), 0);
    assert_eq!(find_space(&chars_of("ab c d")), 2);
    assert_eq!(find_space(&chars_of("ab\tc")), 4);
}

#[test]
fn comparing_without_regard_to_ascii_case() {
    let same = |a: &str, b: &str| {
        assert_eq!(matches_ignoring_case(&chars_of(a), b), a.eq_ignore_ascii_case(b));
        matches_ignoring_case(&chars_of(a), b)
    };
    assert!(same("", ""));
    assert!(same("Hello", "hELLO"));
    assert!(!same("Hello", "Hell"));
    assert!(!same("stra\u{df}e", "STRASSE"));
    assert!(!same("\u{e4}", "\u{c4}"));
    assert!(same("a1-Z", "A1-z"));
    assert!(!same("@", "`"));
    assert!(!same("[", "{"));
}

#[test]
fn comparing_characters_with_a_text() {
    assert!(same_chars_as(&chars_of(""), ""));
    assert!(same_chars_as(&chars_of("ab\u{e9}"), "ab\u{e9}"));
    assert!(!same_chars_as(&chars_of("ab"), "abc"));
    assert!(!same_chars_as(&chars_of("abc"), "ab"));
    assert!(!same_chars_as(&chars_of("abc"), "abd"));
    assert!(!same_chars_as(&chars_of("a"), "A"));
}

#[test]
fn characters_and_back() {
    for s in ["", "abc", "caf\u{e9} \u{1f600}"] {
        assert_eq!(string_of(&chars_of(s)), s);
        assert_eq!(chars_of(s), s.chars().collect::<Vec<char>>());
    }
}

#[test]
fn commands_have_the_names_of_their_kinds() {
    let names = [
        ("AUTH TLS", "Auth"),
        ("USER x", "User"),
        ("PASS x", "Pass"),
        ("CWD x", "Cwd"),
        ("PWD", "Pwd"),
        ("TYPE I", "Type"),
        ("PASV", "Pasv"),
        ("LIST", "List"),
        ("RETR x", "Retr"),
        ("SYST", "Syst"),
        ("STOR x", "Stor"),
        ("FEAT", "Feat"),
        ("OPTS x", "Opts"),
        ("UTF8", "Utf8"),
        ("PBSZ 0", "Pbsz"),
        ("RNFR x", "Rnfr"),
        ("RNTO x", "Rnto"),
    ];
    for (line, name) in names {
        let command = Command::from_str(line).unwrap();
        let shown: &str = command.as_ref();
        assert_eq!(shown, name);
    }
}

#[test]
fn lines_are_parsed_as_text_is() {
    assert_eq!("user bob".parse::<Command>(), Ok(user("bob")));
    assert_eq!("tls".parse::<AuthType>(), Ok(AuthType::Tls));
    assert_eq!("i".parse::<TransferType>(), Ok(TransferType::Binary));
    assert_eq!(" a\\b ".parse::<Retr>().unwrap().file, " a/b ");
}
