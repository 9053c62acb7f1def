use rustedbot::config::{parse_line, strip_prefix, unquote, Config, Loaded};

fn config(user: Option<&str>, token: Option<&str>, channel: &str, prefix: &str) -> Config {
    Config {
        user: user.map(|u| u.to_string()),
        token: token.map(|t| t.to_string()),
        channel: channel.to_string(),
        prefix: prefix.to_string(),
    }
}

#[test]
fn the_default_configuration() {
    assert_eq!(rustedbot::config::default(), config(None, None, "commanderroot", "!"));
}

#[test]
fn an_empty_text_gives_the_default() {
    assert_eq!(Config::from_text(""), Loaded { config: rustedbot::config::default(), unknown: vec![] });
    assert_eq!(Config::from_text("\n\n  \n"), Loaded { config: rustedbot::config::default(), unknown: vec![] });
}

#[test]
fn every_option_can_be_set() {
    let text = "twitch.user = caml_bot\ntwitch.token = abc123\ntwitch.channel = ocaml\ncommand.prefix = ?\n";
    assert_eq!(
        Config::from_text(text),
        Loaded { config: config(Some("caml_bot"), Some("abc123"), "ocaml", "?"), unknown: vec![] }
    );
}

#[test]
fn the_oauth_prefix_of_a_token_is_left_out() {
    let loaded = Config::from_text("twitch.token = oauth:abc123");
    assert_eq!(loaded.config.token, Some("abc123".to_string()));
    let loaded = Config::from_text("twitch.token = \"oauth:abc123\"");
    assert_eq!(loaded.config.token, Some("abc123".to_string()));
    let loaded = Config::from_text("twitch.token = abcoauth:123");
    assert_eq!(loaded.config.token, Some("abcoauth:123".to_string()));
    let loaded = Config::from_text("twitch.user = oauth:bot");
    assert_eq!(loaded.config.user, Some("oauth:bot".to_string()));
}

#[test]
fn comments_and_quotes() {
    let text = "# the account\n  twitch.user=\"caml bot\"   # quoted\n\ncommand.prefix = \"!!\"\n";
    assert_eq!(
        Config::from_text(text),
        Loaded { config: config(Some("caml bot"), None, "commanderroot", "!!"), unknown: vec![] }
    );
}

#[test]
fn unknown_keys_are_reported_and_change_nothing() {
    let text = "colour = red\ntwitch.channel = ocaml\nTwitch.User = x\n";
    assert_eq!(
        Config::from_text(text),
        Loaded {
            config: config(None, None, "ocaml", "!"),
            unknown: vec!["colour".to_string(), "Twitch.User".to_string()]
        }
    );
}

#[test]
fn a_later_line_overrides_an_earlier_one() {
    let loaded = Config::from_text("command.prefix = ?\ncommand.prefix = $\n");
    assert_eq!(loaded.config.prefix, "$");
}

#[test]
fn lines_that_set_nothing() {
    let text = "just words\na = b = c\n= \n#\n#x = y\ntwitch.channel ocaml";
    assert_eq!(
        Config::from_text(text),
        Loaded { config: rustedbot::config::default(), unknown: vec!["".to_string()] }
    );
}

#[test]
fn windows_line_ends() {
    let loaded = Config::from_text("twitch.user = bot\r\ncommand.prefix = ?\r\n");
    assert_eq!(loaded.config, config(Some("bot"), None, "commanderroot", "?"));
}

#[test]
fn one_line() {
    assert_eq!(parse_line("a = b"), Some(("a".to_string(), "b".to_string())));
    assert_eq!(parse_line("  a=b  # c = d"), Some(("a".to_string(), "b".to_string())));
    assert_eq!(parse_line("a = \"b c\""), Some(("a".to_string(), "b c".to_string())));
    assert_eq!(parse_line("a = \""), Some(("a".to_string(), "\"".to_string())));
    assert_eq!(parse_line("a = \"\""), Some(("a".to_string(), "".to_string())));
    assert_eq!(parse_line("a ="), Some(("a".to_string(), "".to_string())));
    assert_eq!(parse_line(""), None);
    assert_eq!(parse_line("   "), None);
    assert_eq!(parse_line("a"), None);
    assert_eq!(parse_line("# a = b"), None);
    assert_eq!(parse_line("a = b = c"), None);
}

#[test]
fn quotes_and_prefixes() {
    assert_eq!(unquote("\"a\""), "a");
    assert_eq!(unquote("\"a"), "\"a");
    assert_eq!(unquote("a\""), "a\"");
    assert_eq!(unquote("\""), "\"");
    assert_eq!(unquote("\"\""), "");
    assert_eq!(unquote(""), "");
    assert_eq!(strip_prefix("oauth:abc", "oauth:"), "abc");
    assert_eq!(strip_prefix("oauth:", "oauth:"), "");
    assert_eq!(strip_prefix("oauth", "oauth:"), "oauth");
    assert_eq!(strip_prefix("xoauth:abc", "oauth:"), "xoauth:abc");
}

#[test]
fn setting_an_option() {
    let mut c = rustedbot::config::default();
    assert!(c.set("twitch.user", "bot".to_string()));
    assert!(c.set("twitch.token", "oauth:t".to_string()));
    assert!(c.set("twitch.channel", "ocaml".to_string()));
    assert!(c.set("command.prefix", "?".to_string()));
    assert!(!c.set("command.suffix", "?".to_string()));
    assert_eq!(c, config(Some("bot"), Some("t"), "ocaml", "?"));
}
