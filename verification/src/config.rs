//! The configuration of the bot, read from a text of `key = value` lines.
//!
//! A line is taken without the whitespace around it, and an empty line counts
//! for nothing. What follows a `#` is a comment. A line must hold exactly one
//! `=` to set anything; key and value are taken without the whitespace around
//! them, and a value between double quotes is taken without the quotes. A
//! later line overrides an earlier one.

use vstd::prelude::*;
use crate::text::chars::{str_eq, text_of, to_chars};
use crate::text::scan::{has_prefix, matches_at};
use crate::text::split::{before_first, first_piece, pieces, split, trim, trimmed};

verus! {

/// What the bot needs to know before it starts.
#[derive(Clone, Debug, PartialEq, Eq)]
pub struct Config {
    /// The account under which the bot speaks.
    pub user: Option<String>,
    /// The secret of that account.
    pub token: Option<String>,
    /// The channel that the bot joins.
    pub channel: String,
    /// What a chat line begins with when it is a command.
    pub prefix: String,
}

/// What a [`Config`] holds, with each text as a sequence of characters.
pub struct ConfigView {
    pub user: Option<Seq<char>>,
    pub token: Option<Seq<char>>,
    pub channel: Seq<char>,
    pub prefix: Seq<char>,
}

impl View for Config {
    type V = ConfigView;

    open spec fn view(&self) -> ConfigView {
        ConfigView {
            user: match self.user {
                Some(u) => Some(u@),
                None => None,
            },
            token: match self.token {
                Some(t) => Some(t@),
                None => None,
            },
            channel: self.channel@,
            prefix: self.prefix@,
        }
    }
}

/// A configuration together with the keys that were not understood, in the
/// order in which they were met.
#[derive(Clone, Debug, PartialEq, Eq)]
pub struct Loaded {
    pub config: Config,
    pub unknown: Vec<String>,
}

/// The configuration that holds where nothing is set: no account, the
/// fallback channel, and `!` before commands.
pub open spec fn default_view() -> ConfigView {
    ConfigView { user: None, token: None, channel: "commanderroot"@, prefix: "!"@ }
}

/// `value` without the double quotes around it, if it stands between two.
pub open spec fn unquoted(value: Seq<char>) -> Seq<char> {
    if value.len() >= 2 && value[0] == '"' && value.last() == '"' {
        value.subrange(1, value.len() - 1)
    } else {
        value
    }
}

/// `value` without `prefix` in front, if it begins with it.
pub open spec fn without_prefix(value: Seq<char>, prefix: Seq<char>) -> Seq<char> {
    if has_prefix(value, prefix) {
        value.subrange(prefix.len() as int, value.len() as int)
    } else {
        value
    }
}

/// The key and the value that a line sets, if it sets anything.
pub open spec fn entry_of(raw: Seq<char>) -> Option<(Seq<char>, Seq<char>)> {
    let line = trimmed(raw);
    let parts = pieces(before_first(line, '#'), '=');
    if line.len() > 0 && parts.len() == 2 {
        Some((trimmed(parts[0]), unquoted(trimmed(parts[1]))))
    } else {
        None
    }
}

/// Whether the key names an option.
pub open spec fn is_known_key(key: Seq<char>) -> bool {
    key == "twitch.user"@ || key == "twitch.token"@ || key == "twitch.channel"@ || key
        == "command.prefix"@
}

/// The configuration after the key is set to the value. A token that begins
/// with `oauth:` is taken without it. A key that names no option changes
/// nothing.
pub open spec fn applied(config: ConfigView, key: Seq<char>, value: Seq<char>) -> ConfigView {
    if key == "twitch.user"@ {
        ConfigView { user: Some(value), ..config }
    } else if key == "twitch.token"@ {
        ConfigView { token: Some(without_prefix(value, "oauth:"@)), ..config }
    } else if key == "twitch.channel"@ {
        ConfigView { channel: value, ..config }
    } else if key == "command.prefix"@ {
        ConfigView { prefix: value, ..config }
    } else {
        config
    }
}

/// The configuration that the first `n` lines give, and the keys among them
/// that name no option.
pub open spec fn loaded(lines: Seq<Seq<char>>, n: int) -> (ConfigView, Seq<Seq<char>>)
    decreases n,
{
    if n <= 0 {
        (default_view(), Seq::empty())
    } else {
        let before = loaded(lines, n - 1);
        match entry_of(lines[n - 1]) {
            Some((key, value)) => if is_known_key(key) {
                (applied(before.0, key, value), before.1)
            } else {
                (before.0, before.1.push(key))
            },
            None => before,
        }
    }
}

/// The configuration that a text gives, and the keys in it that name no
/// option.
pub open spec fn parsed(text: Seq<char>) -> (ConfigView, Seq<Seq<char>>) {
    loaded(pieces(text, '\n'), pieces(text, '\n').len() as int)
}

/// The configuration that holds where nothing is set.
pub fn default() -> (r: Config)
    ensures
        r@ == default_view(),
{
    Config { user: None, token: None, channel: "commanderroot".to_owned(), prefix: "!".to_owned() }
}

/// `value` without the double quotes around it, if it stands between two.
pub fn unquote(value: &str) -> (r: String)
    ensures
        r@ == unquoted(value@),
{
    let cs = to_chars(value);
    let n = cs.len();
    if n >= 2 && cs[0] == '"' && cs[n - 1] == '"' {
        text_of(&cs, 1, n - 1)
    } else {
        let r = text_of(&cs, 0, n);
        assert(cs@.subrange(0, n as int) =~= cs@);
        r
    }
}

/// `value` without `prefix` in front, if it begins with it.
pub fn strip_prefix(value: &str, prefix: &str) -> (r: String)
    ensures
        r@ == without_prefix(value@, prefix@),
{
    let cs = to_chars(value);
    let ps = to_chars(prefix);
    if matches_at(&cs, &ps, 0) {
        text_of(&cs, ps.len(), cs.len())
    } else {
        let r = text_of(&cs, 0, cs.len());
        assert(cs@.subrange(0, cs@.len() as int) =~= cs@);
        r
    }
}

/// The key and the value that a line sets, if it sets anything.
pub fn parse_line(raw: &str) -> (r: Option<(String, String)>)
    ensures
        match r {
            Some(entry) => entry_of(raw@) == Some((entry.0@, entry.1@)),
            None => entry_of(raw@) is None,
        },
{
    let line = trim(raw);
    if line.as_str().is_empty() {
        return None;
    }
    let code = first_piece(line.as_str(), '#');
    let parts = split(code.as_str(), '=');
    assert(parts.deep_view().len() == parts.len());
    if parts.len() != 2 {
        return None;
    }
    assert(parts.deep_view()[0] == parts[0]@);
    assert(parts.deep_view()[1] == parts[1]@);
    let key = trim(parts[0].as_str());
    let value = trim(parts[1].as_str());
    Some((key, unquote(value.as_str())))
}

impl Config {
    /// Sets the option that the key names to the value, and says whether the
    /// key names one.
    pub fn set(&mut self, key: &str, value: String) -> (known: bool)
        ensures
            known == is_known_key(key@),
            final(self)@ == applied(old(self)@, key@, value@),
    {
        if str_eq(key, "twitch.user") {
            self.user = Some(value);
            true
        } else if str_eq(key, "twitch.token") {
            self.token = Some(strip_prefix(value.as_str(), "oauth:"));
            true
        } else if str_eq(key, "twitch.channel") {
            self.channel = value;
            true
        } else if str_eq(key, "command.prefix") {
            self.prefix = value;
            true
        } else {
            false
        }
    }

    /// The configuration that a text gives, and the keys in it that name no
    /// option.
    pub fn from_text(text: &str) -> (r: Loaded)
        ensures
            r.config@ == parsed(text@).0,
            r.unknown.deep_view() == parsed(text@).1,
    {
        let lines = split(text, '\n');
        let ghost all = pieces(text@, '\n');
        assert(lines.deep_view().len() == lines.len());
        let mut config = default();
        let mut unknown: Vec<String> = Vec::new();
        let mut i: usize = 0;
        while i < lines.len()
            invariant
                i <= lines.len(),
                lines.deep_view() == all,
                config@ == loaded(all, i as int).0,
                unknown.deep_view() == loaded(all, i as int).1,
            decreases lines.len() - i,
        {
            assert(lines.deep_view()[i as int] == lines[i as int]@);
            match parse_line(lines[i].as_str()) {
                Some(entry) => {
                    let (key, value) = entry;
                    let known = config.set(key.as_str(), value);
                    if !known {
                        let ghost before = unknown.deep_view();
                        unknown.push(key);
                        assert(unknown.deep_view() =~= before.push(key@));
                    }
                },
                None => {},
            }
            i = i + 1;
        }
        Loaded { config, unknown }
    }
}

/// A text without any line that sets an option gives the default
/// configuration.
pub proof fn lemma_nothing_set_gives_default(lines: Seq<Seq<char>>, n: int)
    requires
        0 <= n <= lines.len(),
        forall|i: int| 0 <= i < n ==> (#[trigger] entry_of(lines[i])) is None,
    ensures
        loaded(lines, n) == (default_view(), Seq::<Seq<char>>::empty()),
    decreases n,
{
    if n > 0 {
        lemma_nothing_set_gives_default(lines, n - 1);
    }
}

/// The last line that sets the prefix settles it: the prefix after a line
/// that sets it is the value of that line, whatever came before.
pub proof fn lemma_later_line_overrides(config: ConfigView, first: Seq<char>, second: Seq<char>)
    ensures
        applied(applied(config, "command.prefix"@, first), "command.prefix"@, second).prefix
            == second,
        applied(applied(config, "twitch.channel"@, first), "twitch.channel"@, second).channel
            == second,
{
    reveal_strlit("twitch.user");
    reveal_strlit("twitch.token");
    reveal_strlit("twitch.channel");
    reveal_strlit("command.prefix");
    assert("command.prefix"@.len() == 14);
    assert("twitch.channel"@.len() == 14);
    assert("command.prefix"@[0] == 'c');
    assert("twitch.channel"@[7] == 'c');
}

} // verus!
