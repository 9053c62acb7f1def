use rustedbot::commands::addcmd::{self, AddCmd};
use rustedbot::commands::cmd::{self, combine_commands, fetch_db_commands, format_builtin_commands, Commands};
use rustedbot::commands::delcmd::{self, DelCmd};
use rustedbot::commands::odds::{self, parse_odds_args, Odds};
use rustedbot::commands::outcome::{
    concat2, concat3, Action, Level, Notice, OddsParams, Outcome, StoreRequest,
};
use rustedbot::commands::ping::Ping;
use rustedbot::commands::registry::{register, Registry};
use rustedbot::commands::trust::{self, Trust};
use rustedbot::commands::untrust::{self, Untrust};
use rustedbot::commands::updcmd::{self, UpdateCmd};
use rustedbot::commands::wttr::{self, build_weather_url, Wttr};
use rustedbot::commands::{authorize, BuiltinCommand, Command};

fn reply(text: &str) -> Outcome {
    Outcome { action: Action::Reply(text.to_string()), notice: None }
}

fn noted(text: &str, level: Level, line: &str) -> Outcome {
    Outcome {
        action: Action::Reply(text.to_string()),
        notice: Some(Notice { level, text: line.to_string() }),
    }
}

fn store(request: StoreRequest, text: &str) -> Action {
    Action::Store { request, reply: text.to_string() }
}

#[test]
fn concatenation() {
    assert_eq!(concat2("a", "b"), "ab");
    assert_eq!(concat3("a", "", "c"), "ac");
    assert_eq!(concat3("@", "bob", " x"), "@bob x");
}

#[test]
fn names_and_trust_of_the_commands() {
    assert_eq!(Ping.name(), "ping");
    assert_eq!(Commands.name(), "commands");
    assert_eq!(AddCmd.name(), "addcmd");
    assert_eq!(DelCmd.name(), "delcmd");
    assert_eq!(UpdateCmd.name(), "updcmd");
    assert_eq!(Trust.name(), "trust");
    assert_eq!(Untrust.name(), "untrust");
    assert_eq!(Wttr.name(), "clima");
    assert_eq!(Odds.name(), "odds");
    assert!(!Ping.requires_trust());
    assert!(!Commands.requires_trust());
    assert!(!Wttr.requires_trust());
    assert!(!Odds.requires_trust());
    assert!(AddCmd.requires_trust());
    assert!(DelCmd.requires_trust());
    assert!(UpdateCmd.requires_trust());
    assert!(Trust.requires_trust());
    assert!(Untrust.requires_trust());
}

#[test]
fn ping_answers_pong() {
    let registry = Registry::with_builtins();
    assert_eq!(Ping.execute(&registry, "", "bob"), reply("Pong!"));
    assert_eq!(Ping.execute(&registry, "whatever", "bob"), reply("Pong!"));
}

#[test]
fn delcmd_without_a_name_answers_with_the_usage() {
    let registry = Registry::with_builtins();
    assert_eq!(DelCmd.execute(&registry, "", "bob"), reply("@bob USAGE: delcmd <name>"));
    assert_eq!(DelCmd.execute(&registry, "   ", "bob"), reply("@bob USAGE: delcmd <name>"));
    assert_eq!(delcmd::parse_args("", "bob"), Err(reply("@bob USAGE: delcmd <name>")));
}

#[test]
fn delcmd_rejects_a_name_that_does_not_match_the_pattern() {
    let registry = Registry::with_builtins();
    let rejection = noted(
        "Command name can only contain letters and numbers.",
        Level::Error,
        "bob tried to delete an invalid command name: cmd-1",
    );
    assert_eq!(DelCmd.execute(&registry, "cmd-1", "bob"), rejection);
    assert_eq!(delcmd::parse_args("cmd-1 x", "bob"), Err(rejection));
    assert_eq!(
        DelCmd.execute(&registry, " greet", "bob"),
        noted(
            "Command name can only contain letters and numbers.",
            Level::Error,
            "bob tried to delete an invalid command name: ",
        )
    );
}

#[test]
fn delcmd_leaves_builtin_commands_alone() {
    let registry = Registry::with_builtins();
    assert_eq!(
        DelCmd.execute(&registry, "ping", "bob"),
        noted(
            "The command you are trying to delete already is a built-in command.",
            Level::Error,
            "bob tried to delete a built-in command: ping",
        )
    );
}

#[test]
fn delcmd_asks_the_store_to_delete() {
    let registry = Registry::with_builtins();
    assert_eq!(delcmd::parse_args("greet now", "bob"), Ok("greet".to_string()));
    assert_eq!(
        DelCmd.execute(&registry, "greet", "bob"),
        Outcome {
            action: store(StoreRequest::Delete { name: "greet".to_string() }, "Command deleted!"),
            notice: None,
        }
    );
    assert_eq!(
        delcmd::handle_command(&registry, "greet".to_string(), "bob").action,
        store(StoreRequest::Delete { name: "greet".to_string() }, "Command deleted!")
    );
}

#[test]
fn a_name_is_built_in_only_where_it_is_registered() {
    let mut registry = Registry::new();
    assert_eq!(register(&mut registry, BuiltinCommand::Odds), Ok(()));
    assert_eq!(
        DelCmd.execute(&registry, "ping", "bob").action,
        store(StoreRequest::Delete { name: "ping".to_string() }, "Command deleted!")
    );
    assert!(matches!(DelCmd.execute(&registry, "odds", "bob").action, Action::Reply(_)));
}

#[test]
fn updcmd_needs_a_name_and_a_response() {
    let registry = Registry::with_builtins();
    assert_eq!(
        UpdateCmd.execute(&registry, "greet", "bob"),
        reply("@bob USAGE: updcmd <name> <response>")
    );
    assert_eq!(UpdateCmd.execute(&registry, "", "bob"), reply("@bob USAGE: updcmd <name> <response>"));
    assert_eq!(
        updcmd::parse_args("greet   hello there  ", "bob"),
        Ok(("greet".to_string(), "hello there".to_string()))
    );
    assert_eq!(
        UpdateCmd.execute(&registry, "greet hello there", "bob").action,
        store(
            StoreRequest::Update { name: "greet".to_string(), response: "hello there".to_string() },
            "Command updated!"
        )
    );
}

#[test]
fn updcmd_rejects_bad_names_and_builtin_names() {
    let registry = Registry::with_builtins();
    assert_eq!(
        UpdateCmd.execute(&registry, "gr-eet hello", "bob"),
        noted(
            "Command name can only contain letters and numbers.",
            Level::Error,
            "bob tried to update an invalid command name: gr-eet",
        )
    );
    assert_eq!(
        UpdateCmd.execute(&registry, "ping hello", "bob"),
        noted(
            "The command you are trying to update already exists as a built-in command.",
            Level::Error,
            "bob tried to update a command that already exists as a built-in command: ping",
        )
    );
    assert_eq!(
        updcmd::handle_command(&registry, "odds".to_string(), "x".to_string(), "bob").notice,
        Some(Notice {
            level: Level::Error,
            text: "bob tried to update a command that already exists as a built-in command: odds"
                .to_string()
        })
    );
}

#[test]
fn addcmd_rejects_the_name_of_every_builtin_command() {
    let registry = Registry::with_builtins();
    for command in BuiltinCommand::all() {
        let name = command.name();
        let args = format!("{} some response", name);
        assert_eq!(
            AddCmd.execute(&registry, &args, "bob"),
            noted(
                "The command you are trying to add already exists as a built-in command.",
                Level::Error,
                &format!(
                    "bob tried to add a command that already exists as a built-in command: {}",
                    name
                ),
            )
        );
    }
}

#[test]
fn addcmd_hands_a_new_name_on() {
    let registry = Registry::with_builtins();
    assert_eq!(AddCmd.execute(&registry, "greet", "bob"), reply("@bob USAGE: addcmd <name> <response>"));
    assert_eq!(
        AddCmd.execute(&registry, "gr_eet hi", "bob"),
        noted(
            "Command name can only contain letters and numbers.",
            Level::Error,
            "bob tried to add an invalid command name: gr_eet",
        )
    );
    assert_eq!(
        addcmd::parse_args("greet hi there", "bob"),
        Ok(("greet".to_string(), "hi there".to_string()))
    );
    assert_eq!(
        AddCmd.execute(&registry, "greet hi there", "bob"),
        Outcome {
            action: Action::AddCommand {
                name: "greet".to_string(),
                response: "hi there".to_string()
            },
            notice: None,
        }
    );
    assert_eq!(
        addcmd::handle_command(&registry, "greet".to_string(), "yo".to_string(), "bob").action,
        Action::AddCommand { name: "greet".to_string(), response: "yo".to_string() }
    );
}

#[test]
fn addcmd_creates_or_updates_by_what_the_store_holds() {
    assert_eq!(
        addcmd::settle("greet".to_string(), "hi".to_string(), "bob", false),
        Outcome {
            action: store(
                StoreRequest::Create { name: "greet".to_string(), response: "hi".to_string() },
                "Command added!"
            ),
            notice: None,
        }
    );
    assert_eq!(
        addcmd::settle("greet".to_string(), "hi".to_string(), "bob", true),
        Outcome {
            action: store(
                StoreRequest::Update { name: "greet".to_string(), response: "hi".to_string() },
                "Command already exists. It was updated with the new response."
            ),
            notice: Some(Notice {
                level: Level::Info,
                text: "bob tried to add a command that already exists: greet. It was updated with hi"
                    .to_string()
            }),
        }
    );
}

#[test]
fn trust_takes_a_username() {
    let registry = Registry::with_builtins();
    assert_eq!(Trust.execute(&registry, "", "bob"), reply("@bob USAGE: trust <username>"));
    assert_eq!(
        Trust.execute(&registry, "Alice", "bob"),
        noted(
            "Username must be a valid Twitch username.",
            Level::Error,
            "bob tried to trust an invalid username: Alice",
        )
    );
    assert_eq!(trust::parse_args("alice and more", "bob"), Ok("alice".to_string()));
    assert_eq!(
        Trust.execute(&registry, "alice", "bob"),
        Outcome {
            action: store(
                StoreRequest::Trust { username: "alice".to_string() },
                "alice has been trusted."
            ),
            notice: Some(Notice { level: Level::Info, text: "bob trusted user: alice".to_string() }),
        }
    );
    assert_eq!(
        trust::handle_command("alice".to_string(), "bob").action,
        store(StoreRequest::Trust { username: "alice".to_string() }, "alice has been trusted.")
    );
}

#[test]
fn untrust_takes_a_username() {
    let registry = Registry::with_builtins();
    assert_eq!(Untrust.execute(&registry, "", "bob"), reply("@bob USAGE: untrust <username>"));
    assert_eq!(Untrust.execute(&registry, "  ", "bob"), reply("@bob USAGE: untrust <username>"));
    assert_eq!(untrust::parse_args("someuser", "alice"), Ok("someuser".to_string()));
    assert_eq!(
        Untrust.execute(&registry, "alice", "bob").action,
        store(StoreRequest::Untrust { username: "alice".to_string() }, "alice has been untrusted.")
    );
    assert_eq!(
        Untrust.execute(&registry, "Alice", "bob"),
        noted(
            "Username must be a valid Twitch username.",
            Level::Error,
            "bob tried to untrust an invalid username: Alice",
        )
    );
    assert_eq!(
        Untrust.execute(&registry, "ab now", "bob"),
        noted(
            "Username must be a valid Twitch username.",
            Level::Error,
            "bob tried to untrust an invalid username: ab",
        )
    );
    assert_eq!(untrust::parse_args("alice now", "bob"), Ok("alice".to_string()));
    assert_eq!(
        Untrust.execute(&registry, "alice now", "bob"),
        Outcome {
            action: store(
                StoreRequest::Untrust { username: "alice".to_string() },
                "alice has been untrusted."
            ),
            notice: Some(Notice {
                level: Level::Info,
                text: "bob untrusted user: alice".to_string()
            }),
        }
    );
    assert_eq!(
        untrust::handle_command("alice".to_string(), "bob").action,
        store(StoreRequest::Untrust { username: "alice".to_string() }, "alice has been untrusted.")
    );
}

#[test]
fn the_weather_address() {
    assert_eq!(
        build_weather_url("sao paulo"),
        "https://wttr.in/sao+paulo?format=%l: %c \u{1F321}\u{FE0F}%t\\n&m"
    );
    assert_eq!(build_weather_url(""), "https://wttr.in/?format=%l: %c \u{1F321}\u{FE0F}%t\\n&m");
    let registry = Registry::with_builtins();
    assert_eq!(
        Wttr.execute(&registry, "rio de janeiro", "bob"),
        Outcome {
            action: Action::FetchWeather {
                url: "https://wttr.in/rio+de+janeiro?format=%l: %c \u{1F321}\u{FE0F}%t\\n&m"
                    .to_string()
            },
            notice: None,
        }
    );
}

#[test]
fn the_weather_answer() {
    assert_eq!(wttr::reply(Ok("Rio: sunny +30C".to_string())), reply("Rio: sunny +30C"));
    assert_eq!(
        wttr::reply(Err("timed out".to_string())),
        noted(
            "Could not retrieve weather data.",
            Level::Error,
            "Failed to fetch weather: timed out",
        )
    );
}

#[test]
fn the_list_names_the_commands_that_ask_for_no_trust() {
    let registry = Registry::with_builtins();
    assert_eq!(format_builtin_commands(&registry), "commands, ping, clima, gtasa, odds");
    assert_eq!(format_builtin_commands(&Registry::new()), "");
    let mut small = Registry::new();
    assert_eq!(register(&mut small, BuiltinCommand::Trust), Ok(()));
    assert_eq!(register(&mut small, BuiltinCommand::Ping), Ok(()));
    assert_eq!(format_builtin_commands(&small), "ping");
    let mut backwards = Registry::new();
    assert_eq!(register(&mut backwards, BuiltinCommand::Odds), Ok(()));
    assert_eq!(register(&mut backwards, BuiltinCommand::Wttr), Ok(()));
    assert_eq!(register(&mut backwards, BuiltinCommand::Ping), Ok(()));
    assert_eq!(format_builtin_commands(&backwards), "ping, clima, odds");
    assert_eq!(
        Commands.execute(&registry, "", "bob"),
        Outcome {
            action: Action::ListCommands {
                builtin: "commands, ping, clima, gtasa, odds".to_string()
            },
            notice: None,
        }
    );
}

#[test]
fn the_two_parts_of_the_list() {
    assert_eq!(combine_commands("a, b".to_string(), "c".to_string()), "a, b, c");
    assert_eq!(combine_commands("a, b".to_string(), "".to_string()), "a, b");
    assert_eq!(combine_commands("".to_string(), "c".to_string()), "c");
    assert_eq!(combine_commands("".to_string(), "".to_string()), "");
}

#[test]
fn the_list_with_what_the_store_holds() {
    let rows = Ok(vec![
        ("greet".to_string(), "hi there".to_string()),
        ("bye".to_string(), "see you".to_string()),
    ]);
    assert_eq!(fetch_db_commands(&rows), ("greet, bye".to_string(), None));
    assert_eq!(cmd::reply("ping, odds".to_string(), &rows), reply("ping, odds, greet, bye"));
    assert_eq!(cmd::reply("".to_string(), &rows), reply("greet, bye"));
    assert_eq!(cmd::reply("ping".to_string(), &Ok(vec![])), reply("ping"));
    let failed = Err("disk is gone".to_string());
    assert_eq!(
        fetch_db_commands(&failed),
        (
            "".to_string(),
            Some(Notice {
                level: Level::Error,
                text: "Failed to retrieve commands: disk is gone".to_string()
            })
        )
    );
    assert_eq!(
        cmd::reply("ping".to_string(), &failed),
        noted("ping", Level::Error, "Failed to retrieve commands: disk is gone")
    );
}

#[test]
fn odds_takes_four_numbers() {
    let usage =
        "USAGE: odds <Deck Size> <Number of Successes> <Number of Draws> <Successes Needed>";
    assert_eq!(
        parse_odds_args("60 4 7 1"),
        Ok(OddsParams { deck_size: 60, num_successes: 4, num_draws: 7, min_successes: 1 })
    );
    assert_eq!(
        parse_odds_args("  60\t4  7 1 and more"),
        Ok(OddsParams { deck_size: 60, num_successes: 4, num_draws: 7, min_successes: 1 })
    );
    assert_eq!(parse_odds_args("60 4 7"), Err(usage.to_string()));
    assert_eq!(parse_odds_args(""), Err(usage.to_string()));
    assert_eq!(parse_odds_args("60 x 7 1"), Err(usage.to_string()));
    assert_eq!(parse_odds_args("60 4 7 -1"), Err(usage.to_string()));
    assert_eq!(parse_odds_args("60 4 7 99999999999999999999"), Err(usage.to_string()));
    assert_eq!(
        parse_odds_args("10 20 5 1"),
        Err("Error: More successes or draws than cards in deck.".to_string())
    );
    assert_eq!(
        parse_odds_args("10 5 20 1"),
        Err("Error: More successes or draws than cards in deck.".to_string())
    );
    assert_eq!(
        parse_odds_args("10 10 10 0"),
        Ok(OddsParams { deck_size: 10, num_successes: 10, num_draws: 10, min_successes: 0 })
    );
    let registry = Registry::with_builtins();
    assert_eq!(Odds.execute(&registry, "60 4", "bob"), reply(usage));
    assert_eq!(
        Odds.execute(&registry, "60 4 7 1", "bob").action,
        Action::ComputeOdds {
            params: OddsParams { deck_size: 60, num_successes: 4, num_draws: 7, min_successes: 1 }
        }
    );
}

#[test]
fn the_answer_about_the_odds() {
    let params = OddsParams { deck_size: 60, num_successes: 4, num_draws: 7, min_successes: 1 };
    assert_eq!(
        odds::reply(params, "60 4 7 1", Some("39.94953")),
        reply("Odds of drawing 1 or more of 4 cards from 7 draws in a 60 card deck: 39.94953%")
    );
    assert_eq!(
        odds::reply(params, "60 4 7 1", None),
        noted(
            "Error creating hypergeometric distribution.",
            Level::Error,
            "Error creating hypergeometric distribution: 60 4 7 1",
        )
    );
}

#[test]
fn a_sender_without_trust_is_refused() {
    let registry = Registry::with_builtins();
    let refusal = |name: &str| {
        noted(
            "@mallory you are not authorized to run this command.",
            Level::Warn,
            &format!(
                "User mallory tried to run the `{}` command without permission. Consider adding them to the trusted users list.",
                name
            ),
        )
    };
    for command in BuiltinCommand::all() {
        let outcome = command.execute(&registry, "alice now", "mallory", false);
        if command.requires_trust() {
            assert_eq!(outcome, refusal(command.name()));
            assert_eq!(authorize(command, "mallory", false), Err(refusal(command.name())));
        } else {
            assert_eq!(outcome, command.handle(&registry, "alice now", "mallory"));
            assert_eq!(authorize(command, "mallory", false), Ok(()));
        }
        assert_eq!(authorize(command, "mallory", true), Ok(()));
    }
}

#[test]
fn a_trusted_sender_is_let_through() {
    let registry = Registry::with_builtins();
    assert_eq!(
        BuiltinCommand::Trust.execute(&registry, "alice", "bob", true),
        Trust.execute(&registry, "alice", "bob")
    );
    assert_eq!(
        BuiltinCommand::DelCmd.execute(&registry, "greet", "bob", true).action,
        store(StoreRequest::Delete { name: "greet".to_string() }, "Command deleted!")
    );
    assert_eq!(BuiltinCommand::Ping.execute(&registry, "", "bob", false), reply("Pong!"));
    assert_eq!(BuiltinCommand::Ping.execute(&registry, "", "bob", true), reply("Pong!"));
}

#[test]
fn trust_that_is_taken_away_counts_at_the_next_command() {
    let registry = Registry::with_builtins();
    let first = BuiltinCommand::DelCmd.execute(&registry, "greet", "bob", true);
    assert!(matches!(first.action, Action::Store { .. }));
    let second = BuiltinCommand::DelCmd.execute(&registry, "greet", "bob", false);
    assert_eq!(
        second.action,
        Action::Reply("@bob you are not authorized to run this command.".to_string())
    );
}

#[test]
fn each_kind_runs_the_command_behind_it() {
    let registry = Registry::with_builtins();
    let args = "greet hi";
    assert_eq!(BuiltinCommand::Commands.handle(&registry, args, "bob"), Commands.execute(&registry, args, "bob"));
    assert_eq!(BuiltinCommand::Ping.handle(&registry, args, "bob"), Ping.execute(&registry, args, "bob"));
    assert_eq!(BuiltinCommand::AddCmd.handle(&registry, args, "bob"), AddCmd.execute(&registry, args, "bob"));
    assert_eq!(BuiltinCommand::DelCmd.handle(&registry, args, "bob"), DelCmd.execute(&registry, args, "bob"));
    assert_eq!(BuiltinCommand::UpdateCmd.handle(&registry, args, "bob"), UpdateCmd.execute(&registry, args, "bob"));
    assert_eq!(BuiltinCommand::Trust.handle(&registry, args, "bob"), Trust.execute(&registry, args, "bob"));
    assert_eq!(BuiltinCommand::Untrust.handle(&registry, args, "bob"), Untrust.execute(&registry, args, "bob"));
    assert_eq!(BuiltinCommand::Wttr.handle(&registry, args, "bob"), Wttr.execute(&registry, args, "bob"));
    assert_eq!(BuiltinCommand::Odds.handle(&registry, args, "bob"), Odds.execute(&registry, args, "bob"));
}
