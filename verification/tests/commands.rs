use ultor::bot::commands::DiscordCommandResponse;
use ultor::bot::commands::ResolvedOption;
use ultor::bot::commands::ResolvedValue;
use ultor::bot::commands::Unwrapped;
use ultor::bot::commands::failure_followup;
use ultor::bot::commands::link::LinkDiscordSubCommand;
use ultor::bot::commands::link::LinkSS14SubCommand;
use ultor::bot::commands::link::LinkSubCommand;
use ultor::bot::commands::link::map_command;
use ultor::bot::commands::opts_get_login;
use ultor::bot::commands::opts_get_string;
use ultor::bot::commands::opts_get_user;
use ultor::bot::commands::unlink::delete_outcome_response;
use ultor::bot::commands::unlink::invalid_type_response;
use ultor::bot::commands::unlink::unlink_method;
use ultor::bot::commands::unwrap_option;
use ultor::bot::commands::unwrap_result;
use ultor::bot::commands::unwrap_result_option;
use ultor::bot::commands::user_id::UserIdCommand;
use ultor::bot::commands::FemboyCommand;
use ultor::bot::commands::PingCommand;
use ultor::bot::commands::player_info::player_info_response;
use ultor::bot::commands::summon::SummonCommand;
use ultor::services::bot_info_provider_service::BotInfoProviderService;
use ultor::bot::commands::BotInfo;

fn opt(name: &str, value: ResolvedValue) -> ResolvedOption {
    ResolvedOption { name: name.to_string(), value }
}

#[test]
fn ping_answers_pong() {
    let response = PingCommand.handler();
    match response {
        DiscordCommandResponse::Default(m) => {
            assert_eq!(m.content.as_deref(), Some("Pong!"));
            assert!(!m.ephemeral);
            assert!(m.embed.is_none());
        }
        other => panic!("expected a first response, got {:?}", other),
    }
}

#[test]
fn femboy_follows_up_with_one_of_the_fixed_images() {
    // Relies on the real random draw staying inside the list.
    for _ in 0..32 {
        let response = FemboyCommand.handler();
        match response {
            DiscordCommandResponse::Followup(m) => {
                let content = m.content.expect("the followup has content");
                assert!(ultor::bot::commands::femboy::femboy_images().contains(&content));
            }
            other => panic!("expected a followup, got {:?}", other),
        }
    }
}

#[test]
fn bot_info_reports_the_counters() {
    let mut info = BotInfoProviderService::new();
    info.inc_commands_processed();
    info.inc_commands_processed();
    info.set_last_processed_command_name("ping".to_string());
    let response = BotInfo::new().handler(&info);
    match response {
        DiscordCommandResponse::Default(m) => {
            assert!(m.ephemeral);
            let embed = m.embed.expect("the response carries an embed");
            assert_eq!(
                embed.description,
                "Commands Processed: 2\nLast processed command name: ping"
            );
        }
        other => panic!("expected a first response, got {:?}", other),
    }
}

#[test]
fn failure_followup_embeds_the_logged_correlation_id() {
    // The round trip: the identifier in the embed footer is exactly the
    // one that opens the line written to the log sink.
    let (response, log) = failure_followup("went wrong", "lookup failed", "boom", true);
    assert_eq!(log.correlation_id.len(), 36);
    assert_eq!(
        log.text,
        format!("{}. lookup failed. Error: boom", log.correlation_id)
    );
    match response {
        DiscordCommandResponse::Followup(m) => {
            assert!(m.ephemeral);
            let embed = m.embed.expect("the failure carries an embed");
            assert_eq!(embed.description, "went wrong");
            assert_eq!(embed.footer.as_deref(), Some(log.correlation_id.as_str()));
        }
        other => panic!("expected a followup, got {:?}", other),
    }
}

#[test]
fn two_failures_draw_distinct_correlation_ids() {
    let (_, first) = failure_followup("m", "l", "c", true);
    let (_, second) = failure_followup("m", "l", "c", true);
    assert_ne!(first.correlation_id, second.correlation_id);
}

#[test]
fn option_extraction_takes_the_first_matching_name() {
    let opts = vec![
        opt("other", ResolvedValue::Str("x".to_string())),
        opt("login", ResolvedValue::User(1)),
        opt("login", ResolvedValue::Str("gordon".to_string())),
    ];
    // A `login` option of the wrong kind is skipped, not taken.
    assert_eq!(opts_get_login(&opts).as_deref(), Some("gordon"));
    let opts = vec![
        opt("login", ResolvedValue::Str("gordon".to_string())),
        opt("login", ResolvedValue::Str("shepard".to_string())),
    ];
    assert_eq!(opts_get_login(&opts).as_deref(), Some("gordon"));
    assert_eq!(opts_get_string(&opts, "missing"), None);
    let opts = vec![opt("user", ResolvedValue::User(99))];
    assert_eq!(opts_get_user(&opts, "user"), Some(99));
    assert_eq!(opts_get_user(&opts, "login"), None);
}

#[test]
fn unlink_method_maps_the_two_accepted_types() {
    assert_eq!(unlink_method("discord").as_deref(), Some("discord"));
    assert_eq!(unlink_method("ss14").as_deref(), Some("uid"));
    assert_eq!(unlink_method("email"), None);
    match invalid_type_response() {
        DiscordCommandResponse::Followup(m) => {
            assert_eq!(m.content.as_deref(), Some("Invalid ID type"));
        }
        other => panic!("expected a followup, got {:?}", other),
    }
}

#[test]
fn delete_outcomes_map_to_their_replies() {
    let (ok, log) = delete_outcome_response(&Ok(Some("record".to_string())));
    assert!(log.is_none());
    match ok {
        DiscordCommandResponse::Followup(m) => {
            assert_eq!(m.content.as_deref(), Some("Successfully unlinked account."))
        }
        other => panic!("expected a followup, got {:?}", other),
    }
    let (none, log) = delete_outcome_response(&Ok(None));
    assert!(log.is_none());
    match none {
        DiscordCommandResponse::Followup(m) => {
            assert_eq!(m.content.as_deref(), Some("No such linked account exist."))
        }
        other => panic!("expected a followup, got {:?}", other),
    }
    let (err, log) = delete_outcome_response(&Err("db down".to_string()));
    let log = log.expect("a backend failure is logged");
    assert_eq!(
        log.text,
        format!("{}. Failed to delete record. Error: db down", log.correlation_id)
    );
    match err {
        DiscordCommandResponse::Followup(m) => {
            assert_eq!(
                m.content.as_deref(),
                Some(
                    format!(
                        "Error occurred while trying to delete record.\nError ID: {}",
                        log.correlation_id
                    )
                    .as_str()
                )
            );
        }
        other => panic!("expected a followup, got {:?}", other),
    }
}

#[test]
fn unwrap_steps_pass_values_through_and_fail_red() {
    match unwrap_option(Some("v".to_string()), "missing", true) {
        Unwrapped::Value(v) => assert_eq!(v, "v"),
        other => panic!("expected the value, got {:?}", other),
    }
    match unwrap_option(None, "missing", true) {
        Unwrapped::Fail(resp, log) => {
            assert!(log.is_none());
            match resp {
                DiscordCommandResponse::Followup(m) => {
                    let embed = m.embed.expect("the failure carries an embed");
                    assert_eq!(embed.description, "missing");
                    assert!(embed.footer.is_none());
                }
                other => panic!("expected a followup, got {:?}", other),
            }
        }
        other => panic!("expected a failure, got {:?}", other),
    }
    match unwrap_result(Ok("fetched".to_string()), "err", "log", true) {
        Unwrapped::Value(v) => assert_eq!(v, "fetched"),
        other => panic!("expected the value, got {:?}", other),
    }
    match unwrap_result(Err("down".to_string()), "err", "log", true) {
        Unwrapped::Fail(resp, log) => {
            let log = log.expect("an error is logged");
            assert_eq!(log.text, format!("{}. log. Error: down", log.correlation_id));
            match resp {
                DiscordCommandResponse::Followup(m) => {
                    let embed = m.embed.expect("the failure carries an embed");
                    assert_eq!(embed.description, "err");
                    assert_eq!(embed.footer.as_deref(), Some(log.correlation_id.as_str()));
                }
                other => panic!("expected a followup, got {:?}", other),
            }
        }
        other => panic!("expected a failure, got {:?}", other),
    }
    match unwrap_result_option(Err("cause".to_string()), "none", "err", "log", false) {
        Unwrapped::Fail(resp, log) => {
            let log = log.expect("an error is logged");
            assert_eq!(log.text, format!("{}. log. Error: cause", log.correlation_id));
            match resp {
                DiscordCommandResponse::Followup(m) => {
                    assert!(!m.ephemeral);
                    let embed = m.embed.expect("the failure carries an embed");
                    assert_eq!(embed.footer.as_deref(), Some(log.correlation_id.as_str()));
                }
                other => panic!("expected a followup, got {:?}", other),
            }
        }
        other => panic!("expected a failure, got {:?}", other),
    }
}

#[test]
fn user_id_reports_each_lookup_outcome() {
    let found = UserIdCommand::handler_response(&Ok(Some("123e4567".to_string())));
    match found {
        DiscordCommandResponse::Followup(m) => {
            let embed = m.embed.expect("an embed");
            assert_eq!(embed.description, "**User ID:** 123e4567");
        }
        other => panic!("expected a followup, got {:?}", other),
    }
    let missing = UserIdCommand::handler_response(&Ok(None));
    match missing {
        DiscordCommandResponse::Followup(m) => {
            assert_eq!(m.embed.unwrap().description, "Such player doesn't exist.")
        }
        other => panic!("expected a followup, got {:?}", other),
    }
    let failed = UserIdCommand::handler_response(&Err("down".to_string()));
    match failed {
        DiscordCommandResponse::Followup(m) => {
            assert_eq!(m.embed.unwrap().description, "Error occurred during fetching...")
        }
        other => panic!("expected a followup, got {:?}", other),
    }
}

#[test]
fn summon_mentions_the_resolved_account() {
    let response = SummonCommand::mention_response("424242");
    match response {
        DiscordCommandResponse::Followup(m) => {
            assert_eq!(m.content.as_deref(), Some("<@424242>"));
            assert!(!m.ephemeral);
        }
        other => panic!("expected a followup, got {:?}", other),
    }
}

#[test]
fn player_info_composes_login_and_extra_data() {
    let response = player_info_response("gordon", "User Name: gordon\n");
    match response {
        DiscordCommandResponse::Followup(m) => {
            assert!(m.ephemeral);
            let embed = m.embed.expect("an embed");
            assert_eq!(
                embed.description,
                "\u{1f9d1}\u{200d}\u{1f680} **In-Game Login:** `gordon`\n\u{1f9fe} **Extra Data:** \nUser Name: gordon\n"
            );
            assert!(embed.color.is_some());
        }
        other => panic!("expected a followup, got {:?}", other),
    }
}

#[test]
fn link_options_parse_into_their_subcommands() {
    let discord_status = vec![opt(
        "discord",
        ResolvedValue::SubCommandGroup(vec![opt(
            "status",
            ResolvedValue::SubCommand(vec![opt("user", ResolvedValue::User(5))]),
        )]),
    )];
    match map_command(&discord_status) {
        Some(LinkSubCommand::Discord { command: LinkDiscordSubCommand::Status(id) }) => {
            assert_eq!(id, 5)
        }
        other => panic!("expected the discord status subcommand, got {:?}", other),
    }
    let ss14_unlink = vec![opt(
        "ss14",
        ResolvedValue::SubCommandGroup(vec![opt(
            "unlink",
            ResolvedValue::SubCommand(vec![opt("login", ResolvedValue::Str("gordon".to_string()))]),
        )]),
    )];
    match map_command(&ss14_unlink) {
        Some(LinkSubCommand::SS14 { command: LinkSS14SubCommand::Unlink(login) }) => {
            assert_eq!(login, "gordon")
        }
        other => panic!("expected the game-side unlink subcommand, got {:?}", other),
    }
    // A group without its required first entry ends the scan empty-handed.
    let empty_group = vec![opt("discord", ResolvedValue::SubCommandGroup(Vec::new()))];
    assert!(map_command(&empty_group).is_none());
    // Unrelated options are skipped.
    let unrelated = vec![opt("other", ResolvedValue::Str("x".to_string()))];
    assert!(map_command(&unrelated).is_none());
}

#[test]
fn registrations_carry_names_and_permissions() {
    let user_id = ultor::bot::commands::user_id::UserIdCommand::new().registration();
    assert_eq!(user_id.name, "user_id");
    assert_eq!(user_id.default_member_permissions, Some(0x20 | 0x20000000));
    assert_eq!(user_id.options.len(), 1);
    assert_eq!(user_id.options[0].name, "login");
    let link = ultor::bot::commands::link::LinkCommand::new().registration();
    assert_eq!(link.name, "link");
    assert_eq!(link.default_member_permissions, None);
    assert_eq!(link.options.len(), 2);
    assert_eq!(link.options[0].name, "discord");
    assert_eq!(link.options[0].sub_options.len(), 2);
    assert_eq!(link.options[0].sub_options[0].sub_options[0].required, true);
    assert_eq!(link.options[1].sub_options[1].sub_options[0].required, false);
}
