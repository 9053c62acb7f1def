use rustedbot::services::scryfall::{
    describe, get_card, keeps_query_pair, push_part, Card, MAX_TWITCH_CHAT_MESSAGE_LENGTH,
};

fn some(text: &str) -> Option<String> {
    Some(text.to_string())
}

fn bare(name: &str) -> Card {
    Card {
        name: name.to_string(),
        mana_cost: None,
        type_line: None,
        oracle_text: None,
        power: None,
        toughness: None,
        loyalty: None,
    }
}

#[test]
fn the_limit_of_the_chat() {
    assert_eq!(MAX_TWITCH_CHAT_MESSAGE_LENGTH, 500);
}

#[test]
fn a_card_with_everything() {
    let card = Card {
        name: "Tarmogoyf".to_string(),
        mana_cost: some("{1}{G}"),
        type_line: some("Creature \u{2014} Lhurgoyf"),
        oracle_text: some("Line one.\nLine two."),
        power: some("*"),
        toughness: some("1+*"),
        loyalty: some("3"),
    };
    assert_eq!(
        describe(&card),
        "Tarmogoyf {1}{G} | Creature \u{2014} Lhurgoyf | Line one.. Line two. | */1+* | 3"
    );
    assert_eq!(get_card(&card, "https://scryfall.com/card/fut/153?x=1"), describe(&card));
}

#[test]
fn a_card_with_a_name_only() {
    assert_eq!(describe(&bare("Opt")), "Opt");
    assert_eq!(get_card(&bare("Opt"), "https://x.y/?"), "Opt");
}

#[test]
fn power_and_toughness() {
    let mut card = bare("X");
    card.power = some("2");
    assert_eq!(describe(&card), "X | 2/-");
    card.toughness = some("3");
    assert_eq!(describe(&card), "X | 2/3");
    card.power = None;
    assert_eq!(describe(&card), "X | -/3");
    card.loyalty = some("4");
    card.mana_cost = some("{W}");
    assert_eq!(describe(&card), "X {W} | -/3 | 4");
}

#[test]
fn parts_that_may_be_missing() {
    let mut out = "a".to_string();
    push_part(&mut out, " | ", &some("b"));
    assert_eq!(out, "a | b");
    push_part(&mut out, " | ", &None);
    assert_eq!(out, "a | b");
}

#[test]
fn a_line_that_is_too_long_gives_way_to_the_address() {
    let mut card = bare("Long");
    card.oracle_text = Some("x".repeat(492));
    assert_eq!(describe(&card).len(), 499);
    assert_eq!(get_card(&card, "https://x.y/card?a=b"), describe(&card));
    card.oracle_text = Some("x".repeat(493));
    assert_eq!(describe(&card).len(), 500);
    assert_eq!(get_card(&card, "https://x.y/card?a=b"), describe(&card));
    card.oracle_text = Some("x".repeat(494));
    assert_eq!(describe(&card).len(), 501);
    assert_eq!(get_card(&card, "https://x.y/card?a=b"), "https://x.y/carda=b");
    assert_eq!(get_card(&card, "https://x.y/card?"), "https://x.y/card");
}

#[test]
fn the_length_counts_bytes() {
    let mut card = bare("Long");
    card.oracle_text = Some("\u{e9}".repeat(247));
    assert_eq!(describe(&card).chars().count(), 254);
    assert_eq!(describe(&card).len(), 501);
    assert_eq!(get_card(&card, "https://x.y/card?"), "https://x.y/card");
    card.oracle_text = Some("\u{e9}".repeat(246));
    assert_eq!(describe(&card).len(), 499);
    assert_eq!(get_card(&card, "https://x.y/card?"), describe(&card));
}

#[test]
fn the_pair_that_is_left_out_of_the_address() {
    assert!(!keeps_query_pair("utm_source"));
    assert!(keeps_query_pair("utm_medium"));
    assert!(keeps_query_pair(""));
    assert!(keeps_query_pair("UTM_SOURCE"));
}
