use ultor::bot::DiscordApp;
use ultor::bot::DispatchPlan;
use ultor::bot::Interaction;
use ultor::bot::RejectKind;
use ultor::bot::RegisteredCommand;
use ultor::bot::commands::DiscordCommandDefinition;
use ultor::bot::commands::CreateCommand;
use ultor::bot::commands::DiscordCommandResponse;
use ultor::bot::commands::PingCommand;
use ultor::bot::deferred_completion;
use ultor::bot::immediate_completion;
use ultor::bot::reject_message;
use ultor::command_definitions;

fn app_with(entries: Vec<RegisteredCommand>, guilds: Vec<&str>) -> DiscordApp {
    let guilds = guilds.into_iter().map(|g| g.to_string()).collect();
    DiscordApp::new(entries, guilds).unwrap()
}

fn interaction(name: &str, guild_id: Option<u64>) -> Interaction {
    Interaction {
        command_name: name.to_string(),
        options: Vec::new(),
        guild_id,
        user: "tester".to_string(),
    }
}

fn entry(name: &str, is_deferred: bool, is_ephemeral: bool) -> RegisteredCommand {
    RegisteredCommand {
        definition: DiscordCommandDefinition::new_global(name, is_deferred, is_ephemeral),
        registration: CreateCommand::new(name),
    }
}

#[test]
fn unknown_command_is_answered_with_one_not_found_response() {
    let app = app_with(command_definitions(), vec!["7"]);
    let plan = app.plan_interaction(&interaction("does_not_exist", Some(7)));
    // The only send is one immediate "command not found"; no handler runs.
    match plan {
        DispatchPlan::Finish(kind) => {
            assert_eq!(kind, RejectKind::CommandNotFound);
            let message = reject_message(kind);
            assert_eq!(message.content.as_deref(), Some("Command not found!"));
            assert!(message.embed.is_none());
        }
        other => panic!("expected a rejection, got {:?}", other),
    }
}

#[test]
fn guild_not_on_allow_list_is_rejected_before_any_handler() {
    let app = app_with(command_definitions(), vec!["7"]);
    let plan = app.plan_interaction(&interaction("ping", Some(8)));
    match plan {
        DispatchPlan::Finish(kind) => {
            assert_eq!(kind, RejectKind::GuildNotAllowed);
            let message = reject_message(kind);
            assert_eq!(message.content.as_deref(), Some("Not allowed at this guild."));
        }
        other => panic!("expected a rejection, got {:?}", other),
    }
}

#[test]
fn direct_context_is_rejected() {
    let app = app_with(command_definitions(), vec!["7"]);
    let plan = app.plan_interaction(&interaction("ping", None));
    match plan {
        DispatchPlan::Finish(kind) => {
            assert_eq!(kind, RejectKind::NotAllowedInDms);
            let message = reject_message(kind);
            assert_eq!(message.content.as_deref(), Some("Not allowed in DMs."));
        }
        other => panic!("expected a rejection, got {:?}", other),
    }
}

#[test]
fn ping_end_to_end_gives_one_immediate_pong() {
    let app = app_with(command_definitions(), vec!["7"]);
    let plan = app.plan_interaction(&interaction("ping", Some(7)));
    // A spy driver records every send it performs.
    let mut sends: Vec<String> = Vec::new();
    match plan {
        DispatchPlan::RunImmediate { handler } => {
            assert_eq!(app.table.handlers[handler].name, "ping");
            let response = PingCommand.handler();
            if let Some(message) = immediate_completion(response) {
                assert!(!message.ephemeral);
                sends.push(format!("Immediate({})", message.content.unwrap()));
            }
        }
        other => panic!("expected an immediate run, got {:?}", other),
    }
    assert_eq!(sends, vec!["Immediate(Pong!)".to_string()]);
}

#[test]
fn deferred_lookup_end_to_end_gives_defer_then_followup() {
    let entries = vec![entry("lookup", true, true)];
    let app = app_with(entries, vec!["7"]);
    let plan = app.plan_interaction(&interaction("lookup", Some(7)));
    let mut sends: Vec<String> = Vec::new();
    match plan {
        DispatchPlan::RunDeferred { handler, ephemeral } => {
            assert_eq!(app.table.handlers[handler].name, "lookup");
            sends.push(format!("Defer(ephemeral={})", ephemeral));
            // The handler resolves, after its simulated work, to a followup.
            let response = DiscordCommandResponse::followup_response("result: 42", true);
            if let Some(message) = deferred_completion(response) {
                sends.push(format!("Followup({})", message.content.unwrap()));
            }
        }
        other => panic!("expected a deferred run, got {:?}", other),
    }
    assert_eq!(
        sends,
        vec!["Defer(ephemeral=true)".to_string(), "Followup(result: 42)".to_string()]
    );
}

#[test]
fn deferred_handler_returning_immediate_sends_no_followup() {
    let entries = vec![entry("lookup", true, false)];
    let app = app_with(entries, vec!["7"]);
    let plan = app.plan_interaction(&interaction("lookup", Some(7)));
    let mut followups: u32 = 0;
    match plan {
        DispatchPlan::RunDeferred { .. } => {
            // Contract violation: the handler answers with a first response.
            let response = DiscordCommandResponse::default_response("too early", false);
            if deferred_completion(response).is_some() {
                followups += 1;
            }
        }
        other => panic!("expected a deferred run, got {:?}", other),
    }
    assert_eq!(followups, 0);
}

#[test]
fn immediate_handler_returning_followup_is_dropped() {
    let entries = vec![entry("now", false, false)];
    let app = app_with(entries, vec!["7"]);
    let plan = app.plan_interaction(&interaction("now", Some(7)));
    match plan {
        DispatchPlan::RunImmediate { .. } => {
            let response = DiscordCommandResponse::followup_response("too late", false);
            assert!(immediate_completion(response).is_none());
        }
        other => panic!("expected an immediate run, got {:?}", other),
    }
}

#[test]
fn registration_targets_are_guilds_in_order_then_global() {
    let app = app_with(command_definitions(), vec!["3", "1", "2"]);
    let targets = app.registration_targets();
    assert_eq!(targets.len(), 4);
    assert_eq!(targets[0], ultor::bot::PushTarget::Guild(3));
    assert_eq!(targets[1], ultor::bot::PushTarget::Guild(1));
    assert_eq!(targets[2], ultor::bot::PushTarget::Guild(2));
    assert_eq!(targets[3], ultor::bot::PushTarget::Global);
}

#[test]
fn bad_guild_id_fails_construction_with_parse_error() {
    let guilds = vec!["12".to_string(), "not-a-number".to_string()];
    let result = DiscordApp::new(command_definitions(), guilds);
    match result {
        Err(ultor::Error::ParseIntError(s)) => assert_eq!(s, "not-a-number"),
        other => panic!("expected a parse error, got {:?}", other),
    }
}
