use super::CreateCommand;
use super::DiscordCommandDefinition;
use super::DiscordCommandResponse;
use super::is_default_message;
use vstd::prelude::*;

verus! {

/// The `ping` command: replies at once with a fixed message.
#[derive(Debug)]
pub struct PingCommand;

impl PingCommand {
    pub fn definition(&self) -> (r: DiscordCommandDefinition)
        ensures
            r.name@ == "ping"@,
            r.is_global,
            !r.is_deferred,
            !r.is_ephemeral,
    {
        DiscordCommandDefinition::new_global("ping", false, false)
    }

    pub fn registration(&self) -> (r: CreateCommand)
        ensures
            r.name@ == "ping"@,
            r.description@ == "Pings the bot."@,
            r.description_localizations@.len() == 1,
            r.description_localizations@[0].0@ == "ru"@,
            r.options@.len() == 0,
            r.default_member_permissions is None,
    {
        CreateCommand::new("ping").description("Pings the bot.").description_localized(
            "ru",
            "Пингует бота",
        )
    }

    pub fn handler(&self) -> (r: DiscordCommandResponse)
        ensures
            is_default_message(r, "Pong!"@, false),
    {
        DiscordCommandResponse::default_response("Pong!", false)
    }
}

} // verus!
