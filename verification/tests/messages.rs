use rustedbot::messages::{
    card_reply, correct, get_time_of_day, greet, greeting, template, time_of_day, word_in, Message,
    Reaction, Subject, TimeOfDay,
};

const TIMES: [TimeOfDay; 4] =
    [TimeOfDay::Morning, TimeOfDay::Afternoon, TimeOfDay::Evening, TimeOfDay::Night];

#[test]
fn priorities_in_tenths() {
    assert_eq!(Subject::OCaml.priority(), 5);
    assert_eq!(Subject::Greetings.priority(), 7);
    assert_eq!(Subject::Magic("x".to_string()).priority(), 10);
}

#[test]
fn ocaml_in_whatever_case() {
    assert_eq!(Subject::detect_ocaml("I love OCaml"), Some(Subject::OCaml));
    assert_eq!(Subject::detect_ocaml("ocaml"), Some(Subject::OCaml));
    assert_eq!(Subject::detect_ocaml("xOCAMLx"), Some(Subject::OCaml));
    assert_eq!(Subject::detect_ocaml("o caml"), None);
    assert_eq!(Subject::detect_ocaml(""), None);
}

#[test]
fn the_card_between_the_brackets() {
    assert_eq!(
        Subject::detect_magic("look at [[Black Lotus]] now"),
        Some(Subject::Magic("Black Lotus".to_string()))
    );
    assert_eq!(Subject::detect_magic("[[]]"), Some(Subject::Magic("".to_string())));
    assert_eq!(Subject::detect_magic("[[a]] and [[b]]"), Some(Subject::Magic("a".to_string())));
    assert_eq!(Subject::detect_magic("]] [[a]]"), None);
    assert_eq!(Subject::detect_magic("[[a"), None);
    assert_eq!(Subject::detect_magic("a]]"), None);
    assert_eq!(Subject::detect_magic("[a]"), None);
    assert_eq!(Subject::detect_magic(""), None);
    assert_eq!(
        Subject::detect_magic("caf\u{e9} [[\u{c6}ther Vial]]"),
        Some(Subject::Magic("\u{c6}ther Vial".to_string()))
    );
}

#[test]
fn a_greeting_names_the_bot() {
    assert_eq!(Subject::detect_greetings("oi bot"), Some(Subject::Greetings));
    assert_eq!(Subject::detect_greetings("Salve, caml_bot!"), Some(Subject::Greetings));
    assert_eq!(Subject::detect_greetings("ol\u{e1} BOT"), Some(Subject::Greetings));
    assert_eq!(Subject::detect_greetings("bot, eae?"), Some(Subject::Greetings));
    assert_eq!(Subject::detect_greetings("oi"), None);
    assert_eq!(Subject::detect_greetings("bot"), None);
    assert_eq!(Subject::detect_greetings("oi robot"), None);
    assert_eq!(Subject::detect_greetings("boi bot"), None);
    assert_eq!(Subject::detect_greetings("e ai bot"), None);
    assert_eq!(Subject::detect_greetings(""), None);
}

#[test]
fn the_subject_that_counts_most() {
    assert_eq!(Subject::from_string("nothing here"), None);
    assert_eq!(Subject::from_string("ocaml"), Some(Subject::OCaml));
    assert_eq!(Subject::from_string("oi bot"), Some(Subject::Greetings));
    assert_eq!(Subject::from_string("oi bot, ocaml?"), Some(Subject::Greetings));
    assert_eq!(
        Subject::from_string("oi bot, ocaml? [[Opt]]"),
        Some(Subject::Magic("Opt".to_string()))
    );
    assert_eq!(Subject::from_string("ocaml [[Opt]]"), Some(Subject::Magic("Opt".to_string())));
}

#[test]
fn the_subject_in_words() {
    assert_eq!(Subject::OCaml.to_text(), "OCaml");
    assert_eq!(Subject::Greetings.to_text(), "Greetings");
    assert_eq!(Subject::Magic("Opt".to_string()).to_text(), "Magic(Opt)");
}

#[test]
fn words_in_a_list() {
    let all = vec!["oi".to_string(), "bot".to_string()];
    assert!(word_in(&all, "oi"));
    assert!(word_in(&all, "bot"));
    assert!(!word_in(&all, "o"));
    assert!(!word_in(&vec![], "oi"));
}

#[test]
fn the_parts_of_the_day() {
    for hour in 0u32..5 {
        assert_eq!(time_of_day(hour), TimeOfDay::Night);
    }
    for hour in 5u32..12 {
        assert_eq!(time_of_day(hour), TimeOfDay::Morning);
    }
    for hour in 12u32..18 {
        assert_eq!(time_of_day(hour), TimeOfDay::Afternoon);
    }
    for hour in 18u32..23 {
        assert_eq!(time_of_day(hour), TimeOfDay::Evening);
    }
    assert_eq!(time_of_day(23), TimeOfDay::Night);
    assert_eq!(time_of_day(24), TimeOfDay::Night);
    assert!(TIMES.contains(&get_time_of_day()));
}

#[test]
fn the_greetings() {
    assert_eq!(greeting("bob", TimeOfDay::Morning, false, 0), "bom dia @bob");
    assert_eq!(greeting("bob", TimeOfDay::Morning, false, 3), "bom dia! dormiu bem @bob?");
    assert_eq!(greeting("bob", TimeOfDay::Afternoon, false, 1), "opa, boa tarde @bob!");
    assert_eq!(greeting("bob", TimeOfDay::Evening, false, 1), "e a\u{ed}, boa noite @bob");
    assert_eq!(greeting("bob", TimeOfDay::Night, false, 0), "vai dormir n\u{e3}o, @bob?");
    assert_eq!(greeting("bob", TimeOfDay::Night, true, 0), "oi @bob");
    assert_eq!(greeting("bob", TimeOfDay::Morning, true, 2), "e ai @bob, beleza?");
    assert_eq!(
        greeting("bob", TimeOfDay::Morning, true, 3),
        "Como uma IA de linguagem, n\u{e3}o tenho a capacidade de sentir emo\u{e7}\u{f5}es, mas estou aqui para ajudar com suas perguntas e tarefas. Como posso ajudar voc\u{ea} hoje?"
    );
    assert_eq!(greeting("bob", TimeOfDay::Morning, true, 4), "ol\u{e1} @bob");
    assert_eq!(greeting("bob", TimeOfDay::Evening, false, 9), "ol\u{e1} @bob");
    assert_eq!(template(TimeOfDay::Afternoon, false, 0), "boa tarde @{{sender}}");
    assert_eq!(template(TimeOfDay::Afternoon, true, 1), "eae @{{sender}}");
}

#[test]
fn a_greeting_at_random_is_one_of_the_greetings() {
    let mut possible: Vec<String> = Vec::new();
    for time in TIMES {
        for generic in [false, true] {
            for index in 0..4 {
                possible.push(greeting("bob", time, generic, index));
            }
        }
    }
    let mut generic = 0;
    let mut timely = 0;
    for _ in 0..400 {
        let text = greet("bob");
        assert!(possible.contains(&text), "{:?}", text);
        let from_generic = (0..4).any(|i| greeting("bob", TimeOfDay::Night, true, i) == text);
        if from_generic {
            generic += 1;
        } else {
            timely += 1;
        }
    }
    assert!(generic > 0);
    assert!(timely > 0);
}

#[test]
fn the_spelling_of_ocaml() {
    assert_eq!(correct("bob", "I love ocaml"), "@bob N\u{e3}o \u{e9} ocaml, \u{e9} OCaml.");
    assert_eq!(correct("bob", "OCAML rocks"), "@bob N\u{e3}o \u{e9} OCAML, \u{e9} OCaml.");
    assert_eq!(correct("bob", "I love OCaml"), "");
    assert_eq!(correct("bob", "OCaml, not ocaml"), "@bob N\u{e3}o \u{e9} ocaml, \u{e9} OCaml.");
    assert_eq!(correct("bob", "OCaml and ocaml"), "");
    assert_eq!(correct("bob", "ocaml!"), "");
    assert_eq!(correct("bob", ""), "");
}

#[test]
fn the_answer_about_a_card() {
    assert_eq!(card_reply("bob", Some("Opt {U}".to_string())), "Opt {U}");
    assert_eq!(card_reply("bob", None), "@bob N\u{e3}o consegui encontrar o card.");
}

#[test]
fn a_message_with_its_subject() {
    let m = Message::make("oi bot", "bob");
    assert_eq!(
        m,
        Message {
            sender: "bob".to_string(),
            content: "oi bot".to_string(),
            subject: Some(Subject::Greetings)
        }
    );
    assert!(m.has_subject());
    let m = Message::make("nothing", "bob");
    assert_eq!(m.subject, None);
    assert!(!m.has_subject());
    assert_eq!(m.get_response(), Reaction::Say("".to_string()));
}

#[test]
fn what_the_bot_does_about_a_message() {
    assert_eq!(
        Message::make("ocaml is nice", "bob").get_response(),
        Reaction::Say("@bob N\u{e3}o \u{e9} ocaml, \u{e9} OCaml.".to_string())
    );
    assert_eq!(Message::make("OCaml is nice", "bob").get_response(), Reaction::Say("".to_string()));
    assert_eq!(
        Message::make("see [[Opt]]", "bob").get_response(),
        Reaction::LookupCard { card: "Opt".to_string() }
    );
    match Message::make("salve bot", "bob").get_response() {
        Reaction::Say(text) => assert!(text.contains("bob") || text.starts_with("Como uma IA")),
        other => panic!("the bot does {:?}", other),
    }
}
