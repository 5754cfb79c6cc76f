use super::CommandOptionType;
use super::CreateCommand;
use super::CreateCommandOption;
use super::DiscordCommandDefinition;
use super::DiscordCommandResponse;
use super::MANAGE_WEBHOOKS_SERVER_PERMISSION;
use super::is_followup_message;
use vstd::prelude::*;

verus! {

/// The `summon` command: pings a member by in-game login, resolving the
/// login to a linked platform account through the auth backend.
#[derive(Debug)]
pub struct SummonCommand;

impl SummonCommand {
    pub fn new() -> (r: Self) {
        SummonCommand
    }

    pub fn definition(&self) -> (r: DiscordCommandDefinition)
        ensures
            r.name@ == "summon"@,
            r.is_global,
            r.is_deferred,
            !r.is_ephemeral,
    {
        DiscordCommandDefinition::new_global("summon", true, false)
    }

    pub fn registration(&self) -> (r: CreateCommand)
        ensures
            r.name@ == "summon"@,
            r.name_localizations@.len() == 1,
            r.name_localizations@[0].0@ == "ru"@,
            r.description@ == "Summons(pings) member by its in-game login"@,
            r.description_localizations@.len() == 1,
            r.options@.len() == 1,
            r.options@[0].kind == CommandOptionType::Str,
            r.options@[0].name@ == "login"@,
            r.options@[0].description@ == "In-game login"@,
            r.options@[0].description_localizations@.len() == 1,
            !r.options@[0].required,
            r.default_member_permissions == Some(MANAGE_WEBHOOKS_SERVER_PERMISSION),
    {
        CreateCommand::new("summon").name_localized("ru", "призвать").description(
            "Summons(pings) member by its in-game login",
        ).description_localized(
            "ru",
            "Пингует пользователя по игровому логину",
        ).add_option(
            CreateCommandOption::new(
                CommandOptionType::Str,
                "login",
                "In-game login",
            ).description_localized("ru", "Внутриигровой логин"),
        ).default_member_permissions(MANAGE_WEBHOOKS_SERVER_PERMISSION)
    }

    /// The followup that pings the resolved account.
    pub fn mention_response(discord_id: &str) -> (r: DiscordCommandResponse)
        ensures
            is_followup_message(r, "<@"@ + discord_id@ + ">"@, false),
    {
        let mut mention = "<@".to_owned();
        mention.append(discord_id);
        mention.append(">");
        DiscordCommandResponse::followup_response(mention.as_str(), false)
    }
}

} // verus!
