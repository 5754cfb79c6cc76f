use super::CreateCommand;
use super::DiscordCommandDefinition;
use super::DiscordCommandResponse;
use super::is_default_embed;
use crate::services::bot_info_provider_service::BotInfoProviderService;
use crate::utils::Color;
use crate::utils::dec_str;
use crate::utils::u64_to_string;
use vstd::prelude::*;

verus! {

/// The `bot_info` command: reports the bot's own running counters in an
/// ephemeral embed.
#[derive(Debug)]
pub struct BotInfo;

impl BotInfo {
    pub fn new() -> (r: Self) {
        BotInfo
    }

    pub fn definition(&self) -> (r: DiscordCommandDefinition)
        ensures
            r.name@ == "bot_info"@,
            r.is_global,
            !r.is_deferred,
            r.is_ephemeral,
    {
        DiscordCommandDefinition::new_global("bot_info", false, true)
    }

    pub fn registration(&self) -> (r: CreateCommand)
        ensures
            r.name@ == "bot_info"@,
            r.description@ == "Get information about the bot."@,
            r.description_localizations@.len() == 1,
            r.description_localizations@[0].0@ == "ru"@,
            r.options@.len() == 0,
            r.default_member_permissions is None,
    {
        CreateCommand::new("bot_info").description(
            "Get information about the bot.",
        ).description_localized("ru", "Получить информацию о боте.")
    }

    pub fn handler(&self, info: &BotInfoProviderService) -> (r: DiscordCommandResponse)
        ensures
            is_default_embed(
                r,
                "Commands Processed: "@ + dec_str(info.commands_processed as nat)
                    + "\nLast processed command name: "@ + info.last_processed_command_name@,
                None,
                Some((Color { r: 111, g: 50, b: 168 })),
                true,
            ),
    {
        let mut description = "Commands Processed: ".to_owned();
        let processed = u64_to_string(info.commands_processed() as u64);
        description.append(processed.as_str());
        description.append("\nLast processed command name: ");
        description.append(info.last_processed_command_name().as_str());
        DiscordCommandResponse::default_embed_response(
            description.as_str(),
            None,
            Some(Color { r: 111, g: 50, b: 168 }),
            true,
        )
    }
}

} // verus!
