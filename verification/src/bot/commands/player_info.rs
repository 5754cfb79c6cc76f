use super::CommandOptionType;
use super::CreateCommand;
use super::CreateCommandOption;
use super::DiscordCommandDefinition;
use super::DiscordCommandResponse;
use super::MANAGE_WEBHOOKS_SERVER_PERMISSION;
use super::is_followup_embed;
use crate::utils::Color;
use crate::utils::gen_random_color;
use vstd::prelude::*;

verus! {

/// The `player_info` command: gathers a player's in-game login and extra
/// data from all available sources into one ephemeral embed.
#[derive(Debug)]
pub struct PlayerInfoCommand;

/// The embed followup carrying a player's in-game login and formatted
/// extra data, under a randomly drawn embed color.
pub fn player_info_response(in_game_login: &str, extra_data: &str) -> (r: DiscordCommandResponse)
    ensures
        exists|c: Color|
            is_followup_embed(
                r,
                "\u{1f9d1}\u{200d}\u{1f680} **In-Game Login:** `"@ + in_game_login@
                    + "`\n\u{1f9fe} **Extra Data:** \n"@ + extra_data@,
                None,
                Some(c),
                true,
            ),
{
    let mut description = "\u{1f9d1}\u{200d}\u{1f680} **In-Game Login:** `".to_owned();
    description.append(in_game_login);
    description.append("`\n\u{1f9fe} **Extra Data:** \n");
    description.append(extra_data);
    DiscordCommandResponse::followup_embed_response(
        description.as_str(),
        None,
        Some(gen_random_color()),
        true,
    )
}

impl PlayerInfoCommand {
    pub fn new() -> (r: Self) {
        PlayerInfoCommand
    }

    pub fn definition(&self) -> (r: DiscordCommandDefinition)
        ensures
            r.name@ == "player_info"@,
            r.is_global,
            r.is_deferred,
            r.is_ephemeral,
    {
        DiscordCommandDefinition::new_global("player_info", true, true)
    }

    pub fn registration(&self) -> (r: CreateCommand)
        ensures
            r.name@ == "player_info"@,
            r.name_localizations@.len() == 1,
            r.name_localizations@[0].0@ == "ru"@,
            r.description@ == "Fetches player info from all available sources."@,
            r.description_localizations@.len() == 1,
            r.options@.len() == 1,
            r.options@[0].kind == CommandOptionType::User,
            r.options@[0].name@ == "user"@,
            r.options@[0].description@ == "User to fetch info about."@,
            !r.options@[0].required,
            r.default_member_permissions == Some(MANAGE_WEBHOOKS_SERVER_PERMISSION),
    {
        CreateCommand::new("player_info").name_localized("ru", "игрок").description(
            "Fetches player info from all available sources.",
        ).description_localized(
            "ru",
            "Получает информацию об игрок из всех возможных источников.",
        ).add_option(
            CreateCommandOption::new(
                CommandOptionType::User,
                "user",
                "User to fetch info about.",
            ),
        ).default_member_permissions(MANAGE_WEBHOOKS_SERVER_PERMISSION)
    }
}

} // verus!
