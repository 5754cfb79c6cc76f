use super::CommandOptionType;
use super::CreateCommand;
use super::CreateCommandOption;
use super::DiscordCommandDefinition;
use super::ResolvedOption;
use super::ResolvedValue;
use crate::utils::str_eq;
use vstd::prelude::*;

verus! {

/// The `link` command: inspects or severs the link between a platform
/// account and a game account, from either side.
#[derive(Debug)]
pub struct LinkCommand;

impl LinkCommand {
    pub fn new() -> (r: Self) {
        LinkCommand
    }

    pub fn definition(&self) -> (r: DiscordCommandDefinition)
        ensures
            r.name@ == "link"@,
            r.is_global,
            r.is_deferred,
            r.is_ephemeral,
    {
        DiscordCommandDefinition::new_global("link", true, true)
    }

    /// The descriptor declares two subcommand groups, one per side of the
    /// link, each with a `status` and an `unlink` subcommand; only the
    /// `status` subcommands require their argument.
    pub fn registration(&self) -> (r: CreateCommand)
        ensures
            r.name@ == "link"@,
            r.name_localizations@.len() == 1,
            r.name_localizations@[0].0@ == "ru"@,
            r.description@ == "Operates with discord and SS14 links"@,
            r.options@.len() == 2,
            r.options@[0].kind == CommandOptionType::SubCommandGroup,
            r.options@[0].name@ == "discord"@,
            r.options@[0].sub_options@.len() == 2,
            r.options@[0].sub_options@[0].kind == CommandOptionType::SubCommand,
            r.options@[0].sub_options@[0].name@ == "status"@,
            r.options@[0].sub_options@[0].sub_options@.len() == 1,
            r.options@[0].sub_options@[0].sub_options@[0].kind == CommandOptionType::User,
            r.options@[0].sub_options@[0].sub_options@[0].name@ == "user"@,
            r.options@[0].sub_options@[0].sub_options@[0].required,
            r.options@[0].sub_options@[1].kind == CommandOptionType::SubCommand,
            r.options@[0].sub_options@[1].name@ == "unlink"@,
            r.options@[0].sub_options@[1].sub_options@.len() == 1,
            r.options@[0].sub_options@[1].sub_options@[0].kind == CommandOptionType::User,
            r.options@[0].sub_options@[1].sub_options@[0].name@ == "user"@,
            !r.options@[0].sub_options@[1].sub_options@[0].required,
            r.options@[1].kind == CommandOptionType::SubCommandGroup,
            r.options@[1].name@ == "ss14"@,
            r.options@[1].sub_options@.len() == 2,
            r.options@[1].sub_options@[0].kind == CommandOptionType::SubCommand,
            r.options@[1].sub_options@[0].name@ == "status"@,
            r.options@[1].sub_options@[0].sub_options@.len() == 1,
            r.options@[1].sub_options@[0].sub_options@[0].kind == CommandOptionType::Str,
            r.options@[1].sub_options@[0].sub_options@[0].name@ == "login"@,
            r.options@[1].sub_options@[0].sub_options@[0].required,
            r.options@[1].sub_options@[1].kind == CommandOptionType::SubCommand,
            r.options@[1].sub_options@[1].name@ == "unlink"@,
            r.options@[1].sub_options@[1].sub_options@.len() == 1,
            r.options@[1].sub_options@[1].sub_options@[0].kind == CommandOptionType::Str,
            r.options@[1].sub_options@[1].sub_options@[0].name@ == "login"@,
            !r.options@[1].sub_options@[1].sub_options@[0].required,
            r.default_member_permissions is None,
    {
        CreateCommand::new("link").name_localized("ru", "привязка").description(
            "Operates with discord and SS14 links",
        ).add_option(
            CreateCommandOption::new(
                CommandOptionType::SubCommandGroup,
                "discord",
                "Groups all discord interactions with the link",
            ).name_localized("ru", "дискорд").description_localized(
                "ru",
                "Группирует все дискорд взаимодействия с привязкой",
            ).add_sub_option(
                CreateCommandOption::new(
                    CommandOptionType::SubCommand,
                    "status",
                    "Displays the status of the link",
                ).name_localized("ru", "статус").description_localized(
                    "ru",
                    "Показывает статус привязки",
                ).add_sub_option(
                    CreateCommandOption::new(
                        CommandOptionType::User,
                        "user",
                        "User to get link of",
                    ).required(true),
                ),
            ).add_sub_option(
                CreateCommandOption::new(
                    CommandOptionType::SubCommand,
                    "unlink",
                    "Unlinks specific user",
                ).name_localized("ru", "отвязать").description_localized(
                    "ru",
                    "Отвязывает пользователя",
                ).add_sub_option(
                    CreateCommandOption::new(
                        CommandOptionType::User,
                        "user",
                        "User to unlink",
                    ).name_localized("ru", "пользователь").description_localized(
                        "ru",
                        "Пользователь, которого отвязать",
                    ),
                ),
            ),
        ).add_option(
            CreateCommandOption::new(
                CommandOptionType::SubCommandGroup,
                "ss14",
                "Groups all ss14 interactions to the link",
            ).name_localized("ru", "игра").description_localized(
                "ru",
                "Группирует все ин-гейм взаимодействия с привязкой",
            ).add_sub_option(
                CreateCommandOption::new(
                    CommandOptionType::SubCommand,
                    "status",
                    "Displays the status of the link",
                ).name_localized("ru", "статус").description_localized(
                    "ru",
                    "Показывает статус привязки",
                ).add_sub_option(
                    CreateCommandOption::new(
                        CommandOptionType::Str,
                        "login",
                        "In-Game Login",
                    ).name_localized("ru", "логин").description_localized(
                        "ru",
                        "Внутриигровой логин",
                    ).required(true),
                ),
            ).add_sub_option(
                CreateCommandOption::new(
                    CommandOptionType::SubCommand,
                    "unlink",
                    "Unlinks specific user",
                ).name_localized("ru", "отвязать").description_localized(
                    "ru",
                    "Отвязывает пользователя",
                ).add_sub_option(
                    CreateCommandOption::new(
                        CommandOptionType::Str,
                        "login",
                        "Login to unlink",
                    ).name_localized("ru", "логин").description_localized(
                        "ru",
                        "Логин пользователя, которого отвязать",
                    ),
                ),
            ),
        )
    }
}

/// A parsed subcommand of the platform-side group.
#[derive(Debug)]
pub enum LinkDiscordSubCommand {
    Status(u64),
    Unlink(u64),
}

/// A parsed subcommand of the game-side group.
#[derive(Debug)]
pub enum LinkSS14SubCommand {
    Status(String),
    Unlink(String),
}

/// The subcommand a `link` interaction asked for.
#[derive(Debug)]
pub enum LinkSubCommand {
    Discord { command: LinkDiscordSubCommand },
    SS14 { command: LinkSS14SubCommand },
}

/// What scanning one option yields: a parsed subcommand, a definite
/// absence that ends the scan empty-handed, or nothing, so that the scan
/// goes on with the next option.
#[derive(Debug)]
pub enum MapStep {
    Found(LinkSubCommand),
    Missing,
    Next,
}

/// How one option of the platform-side group is read: the group's first
/// entry must be a subcommand named `status` or `unlink` whose first
/// argument names a user.
pub open spec fn discord_group_step(group: Seq<ResolvedOption>) -> MapStep {
    if group.len() == 0 {
        MapStep::Missing
    } else if !(group[0].value is SubCommand) {
        MapStep::Next
    } else if group[0].name@ == "status"@ || group[0].name@ == "unlink"@ {
        let args = group[0].value->SubCommand_0@;
        if args.len() == 0 {
            MapStep::Missing
        } else if args[0].value is User {
            if group[0].name@ == "status"@ {
                MapStep::Found(
                    LinkSubCommand::Discord {
                        command: LinkDiscordSubCommand::Status(args[0].value->User_0),
                    },
                )
            } else {
                MapStep::Found(
                    LinkSubCommand::Discord {
                        command: LinkDiscordSubCommand::Unlink(args[0].value->User_0),
                    },
                )
            }
        } else {
            MapStep::Next
        }
    } else {
        MapStep::Next
    }
}

/// How one option of the game-side group is read: the group's first entry
/// must be a subcommand named `status` or `unlink` whose first argument
/// is a login string.
pub open spec fn ss14_group_step(group: Seq<ResolvedOption>) -> MapStep {
    if group.len() == 0 {
        MapStep::Missing
    } else if !(group[0].value is SubCommand) {
        MapStep::Next
    } else if group[0].name@ == "status"@ || group[0].name@ == "unlink"@ {
        let args = group[0].value->SubCommand_0@;
        if args.len() == 0 {
            MapStep::Missing
        } else if args[0].value is Str {
            if group[0].name@ == "status"@ {
                MapStep::Found(
                    LinkSubCommand::SS14 {
                        command: LinkSS14SubCommand::Status(args[0].value->Str_0),
                    },
                )
            } else {
                MapStep::Found(
                    LinkSubCommand::SS14 {
                        command: LinkSS14SubCommand::Unlink(args[0].value->Str_0),
                    },
                )
            }
        } else {
            MapStep::Next
        }
    } else {
        MapStep::Next
    }
}

/// How one top-level option is read: only the two subcommand groups are
/// considered.
pub open spec fn map_step(o: ResolvedOption) -> MapStep {
    if o.name@ == "discord"@ && o.value is SubCommandGroup {
        discord_group_step(o.value->SubCommandGroup_0@)
    } else if o.name@ == "ss14"@ && o.value is SubCommandGroup {
        ss14_group_step(o.value->SubCommandGroup_0@)
    } else {
        MapStep::Next
    }
}

/// The subcommand that an option list asks for, reading the options in
/// order: nothing when none parses, or when a group lacks its required
/// first entry or argument.
pub open spec fn map_command_spec(opts: Seq<ResolvedOption>) -> Option<LinkSubCommand>
    decreases opts.len(),
{
    if opts.len() == 0 {
        None
    } else {
        match map_step(opts[0]) {
            MapStep::Found(c) => Some(c),
            MapStep::Missing => None,
            MapStep::Next => map_command_spec(opts.skip(1)),
        }
    }
}

fn discord_group(group: &Vec<ResolvedOption>) -> (r: MapStep)
    ensures
        r == discord_group_step(group@),
{
    if group.len() == 0 {
        return MapStep::Missing;
    }
    match &group[0].value {
        ResolvedValue::SubCommand(args) => {
            let is_status = str_eq(group[0].name.as_str(), "status");
            let is_unlink = str_eq(group[0].name.as_str(), "unlink");
            if is_status || is_unlink {
                if args.len() == 0 {
                    return MapStep::Missing;
                }
                match &args[0].value {
                    ResolvedValue::User(id) => {
                        if is_status {
                            MapStep::Found(
                                LinkSubCommand::Discord {
                                    command: LinkDiscordSubCommand::Status(*id),
                                },
                            )
                        } else {
                            MapStep::Found(
                                LinkSubCommand::Discord {
                                    command: LinkDiscordSubCommand::Unlink(*id),
                                },
                            )
                        }
                    },
                    _ => MapStep::Next,
                }
            } else {
                MapStep::Next
            }
        },
        _ => MapStep::Next,
    }
}

fn ss14_group(group: &Vec<ResolvedOption>) -> (r: MapStep)
    ensures
        r == ss14_group_step(group@),
{
    if group.len() == 0 {
        return MapStep::Missing;
    }
    match &group[0].value {
        ResolvedValue::SubCommand(args) => {
            let is_status = str_eq(group[0].name.as_str(), "status");
            let is_unlink = str_eq(group[0].name.as_str(), "unlink");
            if is_status || is_unlink {
                if args.len() == 0 {
                    return MapStep::Missing;
                }
                match &args[0].value {
                    ResolvedValue::Str(login) => {
                        if is_status {
                            MapStep::Found(
                                LinkSubCommand::SS14 {
                                    command: LinkSS14SubCommand::Status(login.clone()),
                                },
                            )
                        } else {
                            MapStep::Found(
                                LinkSubCommand::SS14 {
                                    command: LinkSS14SubCommand::Unlink(login.clone()),
                                },
                            )
                        }
                    },
                    _ => MapStep::Next,
                }
            } else {
                MapStep::Next
            }
        },
        _ => MapStep::Next,
    }
}

fn map_command_step(o: &ResolvedOption) -> (r: MapStep)
    ensures
        r == map_step(*o),
{
    match &o.value {
        ResolvedValue::SubCommandGroup(group) => {
            if str_eq(o.name.as_str(), "discord") {
                discord_group(group)
            } else if str_eq(o.name.as_str(), "ss14") {
                ss14_group(group)
            } else {
                MapStep::Next
            }
        },
        _ => MapStep::Next,
    }
}

/// Reads the subcommand a `link` interaction asks for out of its option
/// list.
pub fn map_command(opts: &Vec<ResolvedOption>) -> (r: Option<LinkSubCommand>)
    ensures
        r == map_command_spec(opts@),
{
    let n = opts.len();
    let mut i: usize = 0;
    proof {
        assert(opts@.skip(0) =~= opts@);
    }
    while i < n
        invariant
            i <= n,
            n == opts@.len(),
            map_command_spec(opts@) == map_command_spec(opts@.skip(i as int)),
        decreases n - i,
    {
        proof {
            assert(opts@.skip(i as int)[0] == opts@[i as int]);
            assert(opts@.skip(i as int).skip(1) =~= opts@.skip(i + 1));
        }
        match map_command_step(&opts[i]) {
            MapStep::Found(c) => {
                return Some(c);
            },
            MapStep::Missing => {
                return None;
            },
            MapStep::Next => {},
        }
        i = i + 1;
    }
    proof {
        assert(opts@.skip(n as int) =~= Seq::<ResolvedOption>::empty());
    }
    None
}

} // verus!
