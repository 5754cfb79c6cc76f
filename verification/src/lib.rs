pub mod bot;
pub mod config;
pub mod error;
pub mod services;
pub mod utils;

pub use bot::DiscordApp;
pub use config::ConfigBuilder;
pub use error::Error;

use crate::bot::RegisteredCommand;
use crate::bot::commands::FemboyCommand;
use crate::bot::commands::PingCommand;
use crate::bot::commands::PlayerInfoCommand;
use crate::bot::commands::SummonCommand;
use crate::bot::commands::UnLinkCommand;
use crate::bot::commands::UserIdCommand;
use vstd::prelude::*;

verus! {

/// The handlers this bot ships, in registration order. All of them
/// register globally, so the guild-scoped descriptor list built from
/// this list is empty.
pub fn command_definitions() -> (r: Vec<RegisteredCommand>)
    ensures
        r@.len() == 6,
        r@[0].definition.name@ == "ping"@ && !r@[0].definition.is_deferred,
        r@[1].definition.name@ == "femboy"@ && r@[1].definition.is_deferred,
        r@[2].definition.name@ == "user_id"@ && r@[2].definition.is_deferred,
        r@[3].definition.name@ == "summon"@ && r@[3].definition.is_deferred,
        r@[4].definition.name@ == "player_info"@ && r@[4].definition.is_deferred,
        r@[5].definition.name@ == "unlink"@ && r@[5].definition.is_deferred,
        forall|i: int| 0 <= i < 6 ==> (#[trigger] r@[i]).definition.is_global,
        forall|i: int| 0 <= i < 6 ==> (#[trigger] r@[i]).registration.name@
            == r@[i].definition.name@,
{
    let mut commands: Vec<RegisteredCommand> = Vec::new();
    let ping = PingCommand;
    commands.push(RegisteredCommand { definition: ping.definition(), registration: ping.registration() });
    let femboy = FemboyCommand;
    commands.push(
        RegisteredCommand { definition: femboy.definition(), registration: femboy.registration() },
    );
    let user_id = UserIdCommand::new();
    commands.push(
        RegisteredCommand { definition: user_id.definition(), registration: user_id.registration() },
    );
    let summon = SummonCommand::new();
    commands.push(
        RegisteredCommand { definition: summon.definition(), registration: summon.registration() },
    );
    let player_info = PlayerInfoCommand::new();
    commands.push(
        RegisteredCommand {
            definition: player_info.definition(),
            registration: player_info.registration(),
        },
    );
    let unlink = UnLinkCommand::new();
    commands.push(
        RegisteredCommand { definition: unlink.definition(), registration: unlink.registration() },
    );
    commands
}

} // verus!
