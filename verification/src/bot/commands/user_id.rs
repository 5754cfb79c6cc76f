use super::CommandOptionType;
use super::CreateCommand;
use super::CreateCommandOption;
use super::DiscordCommandDefinition;
use super::DiscordCommandResponse;
use super::MANAGE_WEBHOOKS_SERVER_PERMISSION;
use super::is_followup_embed;
use crate::utils::Color;
use vstd::prelude::*;

verus! {

/// The `user_id` command: fetches a player's game identifier by in-game
/// login through the auth backend.
#[derive(Debug)]
pub struct UserIdCommand;

/// The text the command reports for each outcome of the identifier
/// lookup.
pub open spec fn lookup_text(outcome: Result<Option<String>, String>) -> Seq<char> {
    match outcome {
        Ok(found) => match found {
            Some(user_id) => "**User ID:** "@ + user_id@,
            None => "Such player doesn't exist."@,
        },
        Err(_) => "Error occurred during fetching..."@,
    }
}

impl UserIdCommand {
    pub fn new() -> (r: Self) {
        UserIdCommand
    }

    pub fn definition(&self) -> (r: DiscordCommandDefinition)
        ensures
            r.name@ == "user_id"@,
            r.is_global,
            r.is_deferred,
            r.is_ephemeral,
    {
        DiscordCommandDefinition::new_global("user_id", true, true)
    }

    pub fn registration(&self) -> (r: CreateCommand)
        ensures
            r.name@ == "user_id"@,
            r.description@ == "Fetches SS14 user ID by in-game login"@,
            r.description_localizations@.len() == 1,
            r.description_localizations@[0].0@ == "ru"@,
            r.options@.len() == 1,
            r.options@[0].kind == CommandOptionType::Str,
            r.options@[0].name@ == "login"@,
            r.options@[0].description@ == "In-game login"@,
            !r.options@[0].required,
            r.default_member_permissions == Some(MANAGE_WEBHOOKS_SERVER_PERMISSION),
    {
        CreateCommand::new("user_id").description(
            "Fetches SS14 user ID by in-game login",
        ).description_localized(
            "ru",
            "Получает SS14 ID пользователя по игровому логину.",
        ).add_option(
            CreateCommandOption::new(CommandOptionType::Str, "login", "In-game login"),
        ).default_member_permissions(MANAGE_WEBHOOKS_SERVER_PERMISSION)
    }

    /// The followup sent for the lookup's outcome, whatever it was: a
    /// yellow ephemeral embed carrying the outcome's text.
    pub fn handler_response(outcome: &Result<Option<String>, String>) -> (r:
        DiscordCommandResponse)
        ensures
            is_followup_embed(
                r,
                lookup_text(*outcome),
                None,
                Some((Color { r: 255, g: 255, b: 0 })),
                true,
            ),
    {
        let text: String = match outcome {
            Ok(found) => match found {
                Some(user_id) => {
                    let mut t = "**User ID:** ".to_owned();
                    t.append(user_id.as_str());
                    t
                },
                None => "Such player doesn't exist.".to_owned(),
            },
            Err(_) => "Error occurred during fetching...".to_owned(),
        };
        DiscordCommandResponse::followup_embed_response(
            text.as_str(),
            None,
            Some(Color { r: 255, g: 255, b: 0 }),
            true,
        )
    }
}

} // verus!
