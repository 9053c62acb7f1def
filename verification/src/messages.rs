//! What the bot says to chat lines that are no commands: it corrects the
//! spelling of OCaml, looks up the card that a line names between double
//! square brackets, and greets those who greet it.

use vstd::prelude::*;
use chrono::Timelike;
use crate::chance::{random_below, random_ratio};
use crate::commands::outcome::concat3;
use crate::text::chars::{str_eq, text_of, to_chars};
use crate::text::edit::{lowered, replace, replaced, to_ascii_lowercase};
use crate::text::scan::{
    contains, find_from, first_match, lemma_first_match_from, occurs, occurs_at,
};
use crate::text::split::{split_tokens, split_whitespace, tokens, words, Delimiter};

verus! {

/// The part of the day.
#[derive(Clone, Copy, Debug, PartialEq, Eq, Structural)]
pub enum TimeOfDay {
    Morning,
    Afternoon,
    Evening,
    Night,
}

/// What a chat line is about.
#[derive(Clone, Debug, PartialEq, Eq)]
pub enum Subject {
    /// The line mentions OCaml.
    OCaml,
    /// The line names a card between double square brackets.
    Magic(String),
    /// The line greets the bot.
    Greetings,
}

/// What a [`Subject`] holds, with each text as a sequence of characters.
pub enum SubjectView {
    OCaml,
    Magic(Seq<char>),
    Greetings,
}

impl View for Subject {
    type V = SubjectView;

    open spec fn view(&self) -> SubjectView {
        match *self {
            Subject::OCaml => SubjectView::OCaml,
            Subject::Magic(card) => SubjectView::Magic(card@),
            Subject::Greetings => SubjectView::Greetings,
        }
    }
}

impl SubjectView {
    /// How much a subject counts beside the others, in tenths.
    pub open spec fn priority(self) -> int {
        match self {
            SubjectView::OCaml => 5,
            SubjectView::Greetings => 7,
            SubjectView::Magic(_) => 10,
        }
    }
}

/// The subject as a text, where there is one.
pub open spec fn subject_view(subject: Option<Subject>) -> Option<SubjectView> {
    match subject {
        Some(s) => Some(s@),
        None => None,
    }
}

/// Whether the line mentions OCaml, in whatever case.
pub open spec fn mentions_ocaml(message: Seq<char>) -> bool {
    occurs(lowered(message), "ocaml"@)
}

/// The card that the line names: what stands between the first `[[` and the
/// first `]]`, where the brackets open before they close.
pub open spec fn card_of(message: Seq<char>) -> Option<Seq<char>> {
    match (first_match(message, "[["@), first_match(message, "]]"@)) {
        (Some(start), Some(end)) => if start < end {
            Some(message.subrange(start + 2, end))
        } else {
            None
        },
        _ => None,
    }
}

/// Brackets that open before they close leave room for a name between
/// them: the closing pair begins after the opening pair has ended.
pub proof fn lemma_brackets_do_not_overlap(message: Seq<char>, start: int, end: int)
    requires
        occurs_at(message, "[["@, start),
        occurs_at(message, "]]"@, end),
        start < end,
    ensures
        start + 2 <= end,
{
    reveal_strlit("[[");
    reveal_strlit("]]");
    assert(message.subrange(start, start + 2)[1] == '[');
    assert(message.subrange(end, end + 2)[0] == ']');
}

/// The words of a line: the runs of alphanumeric characters and underscores,
/// with the ASCII capitals in lower case.
pub open spec fn words_of(message: Seq<char>) -> Seq<Seq<char>> {
    tokens(lowered(message), Delimiter::NonWord)
}

/// Whether the line greets the bot: one of its words is a greeting, and one
/// names the bot.
pub open spec fn greets(message: Seq<char>) -> bool {
    let ws = words_of(message);
    &&& ws.contains("oi"@) || ws.contains("olá"@) || ws.contains("eae"@) || ws.contains("e ai"@)
        || ws.contains("salve"@)
    &&& ws.contains("bot"@) || ws.contains("caml_bot"@)
}

/// What the line is about: of the subjects that are found in it, the one
/// that counts most.
pub open spec fn detected(message: Seq<char>) -> Option<SubjectView> {
    match card_of(message) {
        Some(card) => Some(SubjectView::Magic(card)),
        None => if greets(message) {
            Some(SubjectView::Greetings)
        } else if mentions_ocaml(message) {
            Some(SubjectView::OCaml)
        } else {
            None
        },
    }
}

/// Whether `word` is one of `all`.
pub fn word_in(all: &Vec<String>, word: &str) -> (r: bool)
    ensures
        r == all.deep_view().contains(word@),
{
    let mut i: usize = 0;
    while i < all.len()
        invariant
            i <= all.len(),
            forall|j: int| 0 <= j < i ==> all.deep_view()[j] != word@,
        decreases all.len() - i,
    {
        assert(all.deep_view()[i as int] == all[i as int]@);
        if str_eq(all[i].as_str(), word) {
            return true;
        }
        i = i + 1;
    }
    assert(all.deep_view().len() == all.len());
    false
}

impl Subject {
    /// How much the subject counts beside the others, in tenths.
    pub fn priority(&self) -> (r: u8)
        ensures
            r == self@.priority(),
    {
        match self {
            Subject::OCaml => 5,
            Subject::Greetings => 7,
            Subject::Magic(_) => 10,
        }
    }

    /// The subject OCaml, where the line mentions it.
    pub fn detect_ocaml(message: &str) -> (r: Option<Subject>)
        ensures
            r is Some <==> mentions_ocaml(message@),
            r matches Some(s) ==> s@ == SubjectView::OCaml,
    {
        let low = to_ascii_lowercase(message);
        if contains(low.as_str(), "ocaml") {
            Some(Subject::OCaml)
        } else {
            None
        }
    }

    /// The subject of a card, where the line names one.
    pub fn detect_magic(message: &str) -> (r: Option<Subject>)
        ensures
            match r {
                Some(s) => card_of(message@) matches Some(card) && s@ == SubjectView::Magic(card),
                None => card_of(message@) is None,
            },
    {
        let cs = to_chars(message);
        let open = to_chars("[[");
        let close = to_chars("]]");
        match (find_from(&cs, &open, 0), find_from(&cs, &close, 0)) {
            (Some(start), Some(end)) => {
                if start < end {
                    proof {
                        lemma_first_match_from(cs@, open@, 0);
                        lemma_first_match_from(cs@, close@, 0);
                        lemma_brackets_do_not_overlap(cs@, start as int, end as int);
                    }
                    Some(Subject::Magic(text_of(&cs, start + 2, end)))
                } else {
                    None
                }
            },
            _ => None,
        }
    }

    /// The subject of a greeting, where the line greets the bot.
    pub fn detect_greetings(message: &str) -> (r: Option<Subject>)
        ensures
            r is Some <==> greets(message@),
            r matches Some(s) ==> s@ == SubjectView::Greetings,
    {
        let low = to_ascii_lowercase(message);
        let ws = split_tokens(low.as_str(), Delimiter::NonWord);
        let greeted = word_in(&ws, "oi") || word_in(&ws, "olá") || word_in(&ws, "eae") || word_in(
            &ws,
            "e ai",
        ) || word_in(&ws, "salve");
        let named = word_in(&ws, "bot") || word_in(&ws, "caml_bot");
        if greeted && named {
            Some(Subject::Greetings)
        } else {
            None
        }
    }

    /// What the line is about: of the subjects that are found in it, the one
    /// that counts most.
    pub fn from_string(message: &str) -> (r: Option<Subject>)
        ensures
            subject_view(r) == detected(message@),
    {
        match Self::detect_magic(message) {
            Some(subject) => Some(subject),
            None => match Self::detect_greetings(message) {
                Some(subject) => Some(subject),
                None => Self::detect_ocaml(message),
            },
        }
    }

    /// The subject in words.
    pub fn to_text(&self) -> (r: String)
        ensures
            r@ == match self@ {
                SubjectView::OCaml => "OCaml"@,
                SubjectView::Magic(card) => "Magic("@ + card + ")"@,
                SubjectView::Greetings => "Greetings"@,
            },
    {
        match self {
            Subject::OCaml => "OCaml".to_owned(),
            Subject::Magic(card) => concat3("Magic(", card.as_str(), ")"),
            Subject::Greetings => "Greetings".to_owned(),
        }
    }
}

/// Whatever is found in a line counts no more than what the line is taken to
/// be about.
pub proof fn lemma_detected_counts_most(message: Seq<char>)
    ensures
        card_of(message) is Some || greets(message) || mentions_ocaml(message) <==> detected(
            message,
        ) is Some,
        card_of(message) is Some ==> detected(message)->0.priority() >= 10,
        greets(message) ==> detected(message)->0.priority() >= 7,
        mentions_ocaml(message) ==> detected(message)->0.priority() >= 5,
{
}

/// The part of the day that an hour belongs to.
pub open spec fn time_of_day_at(hour: u32) -> TimeOfDay {
    if 5 <= hour <= 11 {
        TimeOfDay::Morning
    } else if 12 <= hour <= 17 {
        TimeOfDay::Afternoon
    } else if 18 <= hour <= 22 {
        TimeOfDay::Evening
    } else {
        TimeOfDay::Night
    }
}

/// The part of the day that an hour belongs to.
pub fn time_of_day(hour: u32) -> (r: TimeOfDay)
    ensures
        r == time_of_day_at(hour),
{
    if 5 <= hour && hour <= 11 {
        TimeOfDay::Morning
    } else if 12 <= hour && hour <= 17 {
        TimeOfDay::Afternoon
    } else if 18 <= hour && hour <= 22 {
        TimeOfDay::Evening
    } else {
        TimeOfDay::Night
    }
}

/// `chrono::Local::now` and then `chrono::Timelike::hour`: the hour of the
/// day on the clock of this machine, a number from 0 to 23.
#[verifier::external_body]
fn local_hour() -> (hour: u32)
    ensures
        hour < 24,
{
    chrono::Local::now().hour()
}

/// The part of the day that it is now.
pub fn get_time_of_day() -> (r: TimeOfDay)
    ensures
        exists|hour: u32| hour < 24 && r == #[trigger] time_of_day_at(hour),
{
    time_of_day(local_hour())
}

/// The greetings that fit any part of the day.
pub open spec fn generic_greetings() -> Seq<Seq<char>> {
    seq![
        "oi @{{sender}}"@,
        "eae @{{sender}}"@,
        "e ai @{{sender}}, beleza?"@,
        "Como uma IA de linguagem, não tenho a capacidade de sentir emoções, mas estou aqui para ajudar com suas perguntas e tarefas. Como posso ajudar você hoje?"@,
    ]
}

/// The greetings that fit one part of the day.
pub open spec fn timely_greetings(time: TimeOfDay) -> Seq<Seq<char>> {
    match time {
        TimeOfDay::Morning => seq![
            "bom dia @{{sender}}"@,
            "bom diaa @{{sender}}!"@,
            "bom dia! o sol já nasceu na fazendinha @{{sender}}!"@,
            "bom dia! dormiu bem @{{sender}}?"@,
        ],
        TimeOfDay::Afternoon => seq![
            "boa tarde @{{sender}}"@,
            "opa, boa tarde @{{sender}}!"@,
            "boa tarde! como vai @{{sender}}?"@,
            "boa tarde! tudo tranquilo @{{sender}}?"@,
        ],
        TimeOfDay::Evening => seq![
            "boa noite @{{sender}}"@,
            "e aí, boa noite @{{sender}}"@,
            "boa noite! como foi seu dia @{{sender}}?"@,
            "noite! como foi seu dia @{{sender}}?"@,
        ],
        TimeOfDay::Night => seq![
            "vai dormir não, @{{sender}}?"@,
            "noite longa, hein @{{sender}}?"@,
            "ainda acordado @{{sender}}?"@,
            "essas horas @{{sender}}?"@,
        ],
    }
}

/// The greeting to fill in: number `index` of the generic ones or of those
/// of the part of the day, or a fixed one where there is no such number.
pub open spec fn greeting_template(time: TimeOfDay, generic: bool, index: int) -> Seq<char> {
    let pool = if generic {
        generic_greetings()
    } else {
        timely_greetings(time)
    };
    if 0 <= index < pool.len() {
        pool[index]
    } else {
        "olá @{{sender}}"@
    }
}

/// The greeting for the sender: the template with the name of the sender in
/// each place that is kept for it.
pub open spec fn greeting_text(sender: Seq<char>, time: TimeOfDay, generic: bool, index: int) -> Seq<
    char,
> {
    replaced(greeting_template(time, generic, index), "{{sender}}"@, sender)
}

/// The greeting to fill in.
pub fn template(time: TimeOfDay, generic: bool, index: usize) -> (r: &'static str)
    ensures
        r@ == greeting_template(time, generic, index as int),
{
    if generic {
        match index {
            0 => "oi @{{sender}}",
            1 => "eae @{{sender}}",
            2 => "e ai @{{sender}}, beleza?",
            3 => "Como uma IA de linguagem, não tenho a capacidade de sentir emoções, mas estou aqui para ajudar com suas perguntas e tarefas. Como posso ajudar você hoje?",
            _ => "olá @{{sender}}",
        }
    } else {
        match time {
            TimeOfDay::Morning => match index {
                0 => "bom dia @{{sender}}",
                1 => "bom diaa @{{sender}}!",
                2 => "bom dia! o sol já nasceu na fazendinha @{{sender}}!",
                3 => "bom dia! dormiu bem @{{sender}}?",
                _ => "olá @{{sender}}",
            },
            TimeOfDay::Afternoon => match index {
                0 => "boa tarde @{{sender}}",
                1 => "opa, boa tarde @{{sender}}!",
                2 => "boa tarde! como vai @{{sender}}?",
                3 => "boa tarde! tudo tranquilo @{{sender}}?",
                _ => "olá @{{sender}}",
            },
            TimeOfDay::Evening => match index {
                0 => "boa noite @{{sender}}",
                1 => "e aí, boa noite @{{sender}}",
                2 => "boa noite! como foi seu dia @{{sender}}?",
                3 => "noite! como foi seu dia @{{sender}}?",
                _ => "olá @{{sender}}",
            },
            TimeOfDay::Night => match index {
                0 => "vai dormir não, @{{sender}}?",
                1 => "noite longa, hein @{{sender}}?",
                2 => "ainda acordado @{{sender}}?",
                3 => "essas horas @{{sender}}?",
                _ => "olá @{{sender}}",
            },
        }
    }
}

/// The greeting for the sender, for this part of the day and these choices.
pub fn greeting(sender: &str, time: TimeOfDay, generic: bool, index: usize) -> (r: String)
    ensures
        r@ == greeting_text(sender@, time, generic, index as int),
{
    replace(template(time, generic, index), "{{sender}}", sender)
}

/// A greeting for the sender: one of the generic ones two times in five, one
/// of those that fit the part of the day otherwise, picked at random.
pub fn greet(sender: &str) -> (r: String)
    ensures
        exists|time: TimeOfDay, generic: bool, index: int|
            0 <= index < 4 && r@ == #[trigger] greeting_text(sender@, time, generic, index),
{
    let time = get_time_of_day();
    let generic = random_ratio(2, 5);
    let index = random_below(4);
    greeting(sender, time, generic, index)
}

/// The first of the words from `from` on that spells OCaml in whatever case.
pub open spec fn ocaml_word_from(all: Seq<Seq<char>>, from: int) -> Option<Seq<char>>
    decreases all.len() - from,
{
    if from < 0 || from >= all.len() {
        None
    } else if lowered(all[from]) == "ocaml"@ {
        Some(all[from])
    } else {
        ocaml_word_from(all, from + 1)
    }
}

/// What the bot says about the spelling of OCaml in a line: nothing where no
/// whitespace-separated word spells it or the first that does spells it
/// right, and the correction of that word otherwise.
pub open spec fn correction(sender: Seq<char>, content: Seq<char>) -> Seq<char> {
    match ocaml_word_from(words(content), 0) {
        Some(word) => if word == "OCaml"@ {
            Seq::empty()
        } else {
            "@"@ + sender + " Não é "@ + word + ", é OCaml."@
        },
        None => Seq::empty(),
    }
}

/// What the bot says about the spelling of OCaml in a line.
pub fn correct(sender: &str, content: &str) -> (r: String)
    ensures
        r@ == correction(sender@, content@),
{
    let all = split_whitespace(content);
    assert(all.deep_view().len() == all.len());
    let mut i: usize = 0;
    while i < all.len()
        invariant
            i <= all.len(),
            all.deep_view() == words(content@),
            ocaml_word_from(words(content@), 0) == ocaml_word_from(words(content@), i as int),
        decreases all.len() - i,
    {
        assert(all.deep_view()[i as int] == all[i as int]@);
        let low = to_ascii_lowercase(all[i].as_str());
        if str_eq(low.as_str(), "ocaml") {
            if str_eq(all[i].as_str(), "OCaml") {
                return String::new();
            }
            let mut text = concat3("@", sender, " Não é ");
            text.append(all[i].as_str());
            text.append(", é OCaml.");
            return text;
        }
        i = i + 1;
    }
    String::new()
}

/// What the sender gets once the card was looked up: the text of the card,
/// or an excuse where none was found.
pub open spec fn card_answer(sender: Seq<char>, found: Option<Seq<char>>) -> Seq<char> {
    match found {
        Some(text) => text,
        None => "@"@ + sender + " Não consegui encontrar o card."@,
    }
}

/// What the sender gets once the card was looked up.
pub fn card_reply(sender: &str, found: Option<String>) -> (r: String)
    ensures
        r@ == card_answer(
            sender@,
            match found {
                Some(text) => Some(text@),
                None => None,
            },
        ),
{
    match found {
        Some(text) => text,
        None => concat3("@", sender, " Não consegui encontrar o card."),
    }
}

/// What the bot does about a chat line.
#[derive(Clone, Debug, PartialEq, Eq)]
pub enum Reaction {
    /// Send this text; send nothing where it is empty.
    Say(String),
    /// Look the card up and answer with `card_reply`.
    LookupCard { card: String },
}

/// What a [`Reaction`] holds, with each text as a sequence of characters.
pub enum ReactionView {
    Say(Seq<char>),
    LookupCard { card: Seq<char> },
}

impl View for Reaction {
    type V = ReactionView;

    open spec fn view(&self) -> ReactionView {
        match *self {
            Reaction::Say(text) => ReactionView::Say(text@),
            Reaction::LookupCard { card } => ReactionView::LookupCard { card: card@ },
        }
    }
}

/// A chat line with its sender and what it is about.
#[derive(Clone, Debug, PartialEq, Eq)]
pub struct Message {
    pub sender: String,
    pub content: String,
    pub subject: Option<Subject>,
}

/// What a [`Message`] holds, with each text as a sequence of characters.
pub struct MessageView {
    pub sender: Seq<char>,
    pub content: Seq<char>,
    pub subject: Option<SubjectView>,
}

impl View for Message {
    type V = MessageView;

    open spec fn view(&self) -> MessageView {
        MessageView {
            sender: self.sender@,
            content: self.content@,
            subject: subject_view(self.subject),
        }
    }
}

impl Message {
    /// The chat line with its sender and what it is about.
    pub fn make(message: &str, sender: &str) -> (r: Message)
        ensures
            r@ == (MessageView {
                sender: sender@,
                content: message@,
                subject: detected(message@),
            }),
    {
        Message {
            sender: sender.to_owned(),
            content: message.to_owned(),
            subject: Subject::from_string(message),
        }
    }

    /// Whether the line is about anything.
    pub fn has_subject(&self) -> (r: bool)
        ensures
            r == (self@.subject is Some),
    {
        self.subject.is_some()
    }

    /// What the bot does about the line: nothing where it is about nothing,
    /// the correction where it is about OCaml, the look-up of the card where
    /// it names one, and a greeting where it greets.
    pub fn get_response(&self) -> (r: Reaction)
        ensures
            match self@.subject {
                None => r@ == ReactionView::Say(Seq::empty()),
                Some(SubjectView::OCaml) => r@ == ReactionView::Say(
                    correction(self@.sender, self@.content),
                ),
                Some(SubjectView::Magic(card)) => r@ == (ReactionView::LookupCard { card }),
                Some(SubjectView::Greetings) => exists|time: TimeOfDay, generic: bool, index: int|
                    0 <= index < 4 && r@ == ReactionView::Say(
                        #[trigger] greeting_text(self@.sender, time, generic, index),
                    ),
            },
    {
        match &self.subject {
            None => Reaction::Say(String::new()),
            Some(Subject::OCaml) => Reaction::Say(
                correct(self.sender.as_str(), self.content.as_str()),
            ),
            Some(Subject::Magic(card)) => Reaction::LookupCard { card: card.clone() },
            Some(Subject::Greetings) => {
                let text = greet(self.sender.as_str());
                proof {
                    let (time, generic, index) = choose|time: TimeOfDay, generic: bool, index: int|
                        0 <= index < 4 && text@ == #[trigger] greeting_text(
                            self.sender@,
                            time,
                            generic,
                            index,
                        );
                    assert(ReactionView::Say(text@) == ReactionView::Say(
                        greeting_text(self@.sender, time, generic, index),
                    ));
                }
                Reaction::Say(text)
            },
        }
    }
}

} // verus!
