//! What the bot says about a card: its name, cost, type, text and numbers in
//! one line, or the address of the card where the line would be too long for
//! the chat.

use vstd::prelude::*;
use vstd::utf8::encode_utf8;
use crate::text::chars::str_eq;
use crate::text::edit::{replace, replaced};

verus! {

/// The longest line that the chat takes, in bytes of UTF-8.
pub const MAX_TWITCH_CHAT_MESSAGE_LENGTH: usize = 500;

/// What the card database says of a card, as far as the bot shows it.
#[derive(Clone, Debug, PartialEq, Eq)]
pub struct Card {
    pub name: String,
    pub mana_cost: Option<String>,
    pub type_line: Option<String>,
    pub oracle_text: Option<String>,
    pub power: Option<String>,
    pub toughness: Option<String>,
    pub loyalty: Option<String>,
}

/// What a [`Card`] holds, with each text as a sequence of characters.
pub struct CardView {
    pub name: Seq<char>,
    pub mana_cost: Option<Seq<char>>,
    pub type_line: Option<Seq<char>>,
    pub oracle_text: Option<Seq<char>>,
    pub power: Option<Seq<char>>,
    pub toughness: Option<Seq<char>>,
    pub loyalty: Option<Seq<char>>,
}

/// A text that may be missing, as a sequence of characters.
pub open spec fn text_view(text: Option<String>) -> Option<Seq<char>> {
    match text {
        Some(t) => Some(t@),
        None => None,
    }
}

impl View for Card {
    type V = CardView;

    open spec fn view(&self) -> CardView {
        CardView {
            name: self.name@,
            mana_cost: text_view(self.mana_cost),
            type_line: text_view(self.type_line),
            oracle_text: text_view(self.oracle_text),
            power: text_view(self.power),
            toughness: text_view(self.toughness),
            loyalty: text_view(self.loyalty),
        }
    }
}

/// `lead` and then the text, where there is one.
pub open spec fn part(lead: Seq<char>, text: Option<Seq<char>>) -> Seq<char> {
    match text {
        Some(t) => lead + t,
        None => Seq::empty(),
    }
}

/// Power and toughness with a stroke between them and a dash for the one
/// that is missing; nothing where both are.
pub open spec fn strength(power: Option<Seq<char>>, toughness: Option<Seq<char>>) -> Seq<char> {
    match (power, toughness) {
        (Some(p), Some(t)) => " | "@ + p + "/"@ + t,
        (Some(p), None) => " | "@ + p + "/-"@,
        (None, Some(t)) => " | -/"@ + t,
        (None, None) => Seq::empty(),
    }
}

/// The card in one line: the name, the cost after a space, and then after a
/// bar each the type, the text with a full stop for each line break, power
/// and toughness, and the loyalty, as far as the card has them.
pub open spec fn described(card: CardView) -> Seq<char> {
    card.name + part(" "@, card.mana_cost) + part(" | "@, card.type_line) + part(
        " | "@,
        match card.oracle_text {
            Some(t) => Some(replaced(t, "\n"@, ". "@)),
            None => None,
        },
    ) + strength(card.power, card.toughness) + part(" | "@, card.loyalty)
}

/// What the sender gets: the line that describes the card where the chat
/// takes it, and the address of the card without any question mark where it
/// does not.
pub open spec fn card_text(card: CardView, link: Seq<char>) -> Seq<char> {
    if encode_utf8(described(card)).len() > MAX_TWITCH_CHAT_MESSAGE_LENGTH {
        replaced(link, "?"@, ""@)
    } else {
        described(card)
    }
}

/// Appends `lead` and the text to `out`, where there is a text.
pub fn push_part(out: &mut String, lead: &str, text: &Option<String>)
    ensures
        final(out)@ == old(out)@ + part(lead@, text_view(*text)),
{
    match text {
        Some(t) => {
            out.append(lead);
            out.append(t.as_str());
            assert(final(out)@ =~= old(out)@ + (lead@ + t@));
        },
        None => {
            assert(out@ =~= old(out)@ + Seq::<char>::empty());
        },
    }
}

/// The card in one line.
pub fn describe(card: &Card) -> (r: String)
    ensures
        r@ == described(card@),
{
    let mut out = card.name.clone();
    push_part(&mut out, " ", &card.mana_cost);
    push_part(&mut out, " | ", &card.type_line);
    let oracle = match &card.oracle_text {
        Some(t) => Some(replace(t.as_str(), "\n", ". ")),
        None => None,
    };
    push_part(&mut out, " | ", &oracle);
    let ghost before = out@;
    match (&card.power, &card.toughness) {
        (Some(p), Some(t)) => {
            out.append(" | ");
            out.append(p.as_str());
            out.append("/");
            out.append(t.as_str());
            assert(out@ =~= before + (" | "@ + p@ + "/"@ + t@));
        },
        (Some(p), None) => {
            out.append(" | ");
            out.append(p.as_str());
            out.append("/-");
            assert(out@ =~= before + (" | "@ + p@ + "/-"@));
        },
        (None, Some(t)) => {
            out.append(" | -/");
            out.append(t.as_str());
            assert(out@ =~= before + (" | -/"@ + t@));
        },
        (None, None) => {
            assert(out@ =~= before + Seq::<char>::empty());
        },
    }
    push_part(&mut out, " | ", &card.loyalty);
    out
}

/// Whether a pair of the query of an address is kept in the address that is
/// shown: all but the one that says where the request came from.
pub fn keeps_query_pair(key: &str) -> (r: bool)
    ensures
        r == (key@ != "utm_source"@),
{
    !str_eq(key, "utm_source")
}

/// What the sender gets for a card. `link` is the address of the card, with
/// the pairs of its query that are kept.
pub fn get_card(card: &Card, link: &str) -> (r: String)
    ensures
        r@ == card_text(card@, link@),
{
    let line = describe(card);
    if line.as_str().as_bytes().len() > MAX_TWITCH_CHAT_MESSAGE_LENGTH {
        replace(link, "?", "")
    } else {
        line
    }
}

} // verus!
