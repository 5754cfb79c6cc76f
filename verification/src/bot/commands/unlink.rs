use super::CommandOptionType;
use super::CreateCommand;
use super::CreateCommandOption;
use super::DiscordCommandDefinition;
use super::DiscordCommandResponse;
use super::LogEntry;
use super::MANAGE_WEBHOOKS_SERVER_PERMISSION;
use super::is_failure_log;
use super::is_followup_message;
use crate::utils::gen_random_uuid;
use crate::utils::str_eq;
use vstd::prelude::*;

verus! {

/// The `unlink` command: severs a player's account link by platform
/// identifier or by in-game login.
#[derive(Debug)]
pub struct UnLinkCommand;

/// The backend deletion method standing for each accepted `type` option,
/// or nothing for an unaccepted one.
pub open spec fn method_for(id_type: Seq<char>) -> Option<Seq<char>> {
    if id_type == "discord"@ {
        Some("discord"@)
    } else if id_type == "ss14"@ {
        Some("uid"@)
    } else {
        None
    }
}

impl UnLinkCommand {
    pub fn new() -> (r: Self) {
        UnLinkCommand
    }

    pub fn definition(&self) -> (r: DiscordCommandDefinition)
        ensures
            r.name@ == "unlink"@,
            r.is_global,
            r.is_deferred,
            r.is_ephemeral,
    {
        DiscordCommandDefinition::new_global("unlink", true, true)
    }

    pub fn registration(&self) -> (r: CreateCommand)
        ensures
            r.name@ == "unlink"@,
            r.name_localizations@.len() == 1,
            r.name_localizations@[0].0@ == "ru"@,
            r.description@ == "Unlinks a player's account by Discord ID or in-game login"@,
            r.description_localizations@.len() == 1,
            r.options@.len() == 2,
            r.options@[0].kind == CommandOptionType::Str,
            r.options@[0].name@ == "type"@,
            r.options@[0].description@ == "The type of id field"@,
            !r.options@[0].required,
            r.options@[0].choices@.len() == 2,
            r.options@[0].choices@[0].0@ == "Discord"@,
            r.options@[0].choices@[0].1@ == "discord"@,
            r.options@[0].choices@[1].0@ == "SS14"@,
            r.options@[0].choices@[1].1@ == "ss14"@,
            r.options@[1].kind == CommandOptionType::Str,
            r.options@[1].name@ == "id"@,
            r.options@[1].description@ == "ID field, its type depends on `type` field"@,
            !r.options@[1].required,
            r.default_member_permissions == Some(MANAGE_WEBHOOKS_SERVER_PERMISSION),
    {
        CreateCommand::new("unlink").name_localized("ru", "отвязать").description(
            "Unlinks a player's account by Discord ID or in-game login",
        ).description_localized(
            "ru",
            "Отвязывает аккаунт игрока по Discord ID или игровому логину",
        ).add_option(
            CreateCommandOption::new(
                CommandOptionType::Str,
                "type",
                "The type of id field",
            ).name_localized("ru", "тип").description_localized(
                "ru",
                "Тип ID поля",
            ).add_string_choice("Discord", "discord").add_string_choice("SS14", "ss14"),
        ).add_option(
            CreateCommandOption::new(
                CommandOptionType::Str,
                "id",
                "ID field, its type depends on `type` field",
            ).description_localized(
                "ru",
                "ID поле, тип зависит от поля `тип`.",
            ),
        ).default_member_permissions(MANAGE_WEBHOOKS_SERVER_PERMISSION)
    }
}

/// Maps the `type` option onto the backend's deletion method.
pub fn unlink_method(id_type: &str) -> (r: Option<String>)
    ensures
        r matches Some(m) ==> method_for(id_type@) matches Some(s) && s == m@,
        r is None ==> method_for(id_type@) is None,
{
    if str_eq(id_type, "discord") {
        Some("discord".to_owned())
    } else if str_eq(id_type, "ss14") {
        Some("uid".to_owned())
    } else {
        None
    }
}

/// The reply sent when the `type` or `id` option is absent.
pub fn missing_fields_response() -> (r: DiscordCommandResponse)
    ensures
        is_followup_message(r, "No ID or ID type fields supplied"@, true),
{
    DiscordCommandResponse::followup_response("No ID or ID type fields supplied", true)
}

/// The reply sent when the `type` option names no accepted method.
pub fn invalid_type_response() -> (r: DiscordCommandResponse)
    ensures
        is_followup_message(r, "Invalid ID type"@, true),
{
    DiscordCommandResponse::followup_response("Invalid ID type", true)
}

/// The reply for each outcome of the backend's record deletion, beside
/// the log entry when the backend failed: the user-facing reply then
/// carries the same correlation identifier that the log entry does.
pub fn delete_outcome_response(outcome: &Result<Option<String>, String>) -> (r: (
    DiscordCommandResponse,
    Option<LogEntry>,
))
    ensures
        (match *outcome {
            Ok(Some(_)) => r.1 is None && is_followup_message(
                r.0,
                "Successfully unlinked account."@,
                true,
            ),
            Ok(None) => r.1 is None && is_followup_message(
                r.0,
                "No such linked account exist."@,
                true,
            ),
            Err(cause) => {
                &&& r.1 matches Some(l)
                &&& is_failure_log(l, "Failed to delete record"@, cause@)
                &&& is_followup_message(
                    r.0,
                    "Error occurred while trying to delete record.\nError ID: "@
                        + l.correlation_id@,
                    true,
                )
            },
        }),
{
    match outcome {
        Ok(deleted) => match deleted {
            Some(_) => (
                DiscordCommandResponse::followup_response("Successfully unlinked account.", true),
                None,
            ),
            None => (
                DiscordCommandResponse::followup_response("No such linked account exist.", true),
                None,
            ),
        },
        Err(cause) => {
            let correlation_id = gen_random_uuid();
            let mut text = correlation_id.clone();
            text.append(". ");
            text.append("Failed to delete record");
            text.append(". Error: ");
            text.append(cause.as_str());
            let mut content = "Error occurred while trying to delete record.\nError ID: ".to_owned();
            content.append(correlation_id.as_str());
            let response = DiscordCommandResponse::followup_response(content.as_str(), true);
            (response, Some(LogEntry { correlation_id, text }))
        },
    }
}

} // verus!
