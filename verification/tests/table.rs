use ultor::bot::CommandTable;
use ultor::bot::RegisteredCommand;
use ultor::bot::commands::CreateCommand;
use ultor::bot::commands::DiscordCommandDefinition;
use ultor::command_definitions;

fn entry(name: &str, is_global: bool) -> RegisteredCommand {
    RegisteredCommand {
        definition: DiscordCommandDefinition::new(name, is_global, false, false),
        registration: CreateCommand::new(name).description(name),
    }
}

#[test]
fn lookup_finds_every_registered_handler_by_its_name() {
    let table = CommandTable::build(command_definitions());
    for name in ["ping", "femboy", "user_id", "summon", "player_info", "unlink"] {
        let found = table.lookup(name).expect("registered command must be found");
        assert_eq!(table.handlers[found].name, name);
    }
}

#[test]
fn lookup_of_unknown_name_finds_nothing() {
    let table = CommandTable::build(command_definitions());
    assert!(table.lookup("does_not_exist").is_none());
    assert!(table.lookup("").is_none());
}

#[test]
fn empty_table_finds_nothing() {
    let table = CommandTable::build(Vec::new());
    assert!(table.lookup("ping").is_none());
    assert!(table.handlers.is_empty());
    assert!(table.guild_descriptors.is_empty());
    assert!(table.global_descriptors.is_empty());
}

#[test]
fn duplicate_name_leaves_exactly_the_second_reachable() {
    // The boundary case: two handlers under one name. The later
    // registration wins; the earlier one is unreachable.
    let first = RegisteredCommand {
        definition: DiscordCommandDefinition::new_global("twin", false, false),
        registration: CreateCommand::new("twin").description("first"),
    };
    let second = RegisteredCommand {
        definition: DiscordCommandDefinition::new_global("twin", true, true),
        registration: CreateCommand::new("twin").description("second"),
    };
    let table = CommandTable::build(vec![first, second]);
    let found = table.lookup("twin").expect("the name is registered");
    assert_eq!(found, 1);
    assert!(table.handlers[found].is_deferred);
    assert!(table.handlers[found].is_ephemeral);
}

#[test]
fn descriptors_split_by_scope_in_registration_order() {
    let entries = vec![
        entry("a", true),
        entry("b", false),
        entry("c", true),
        entry("d", false),
    ];
    let table = CommandTable::build(entries);
    let global: Vec<&str> = table.global_descriptors.iter().map(|d| d.name.as_str()).collect();
    let guild: Vec<&str> = table.guild_descriptors.iter().map(|d| d.name.as_str()).collect();
    assert_eq!(global, vec!["a", "c"]);
    assert_eq!(guild, vec!["b", "d"]);
    let names: Vec<&str> = table.handlers.iter().map(|d| d.name.as_str()).collect();
    assert_eq!(names, vec!["a", "b", "c", "d"]);
}

#[test]
fn shipped_commands_are_all_global() {
    let table = CommandTable::build(command_definitions());
    assert_eq!(table.handlers.len(), 6);
    assert!(table.guild_descriptors.is_empty());
    assert_eq!(table.global_descriptors.len(), 6);
}
