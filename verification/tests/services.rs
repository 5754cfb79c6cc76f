use ultor::Error;
use ultor::ConfigBuilder;
use ultor::services::ServicesContainer;
use ultor::services::bot_info_provider_service::BotInfoProviderService;

const AUTH_CLIENT: u64 = 1;
const GAME_DATABASE: u64 = 2;

#[test]
fn registry_returns_the_registered_singleton() {
    let mut container: ServicesContainer<String> = ServicesContainer::new();
    assert!(container.get(AUTH_CLIENT).is_none());
    container.register(AUTH_CLIENT, "auth".to_string());
    container.register(GAME_DATABASE, "db".to_string());
    assert_eq!(container.get(AUTH_CLIENT).map(String::as_str), Some("auth"));
    assert_eq!(container.get(GAME_DATABASE).map(String::as_str), Some("db"));
    assert!(container.get(3).is_none());
    assert_eq!(container.get_unsafe(AUTH_CLIENT).as_str(), "auth");
}

#[test]
fn registering_a_key_twice_replaces_the_singleton() {
    let mut container: ServicesContainer<u32> = ServicesContainer::new();
    container.register(AUTH_CLIENT, 1);
    container.register(AUTH_CLIENT, 2);
    assert_eq!(container.get(AUTH_CLIENT), Some(&2));
}

#[test]
fn bot_info_counters_start_at_zero_and_advance() {
    let mut info = BotInfoProviderService::new();
    assert_eq!(info.commands_processed(), 0);
    assert_eq!(info.last_processed_command_name().as_str(), "none");
    info.inc_commands_processed();
    assert_eq!(info.commands_processed(), 1);
    info.set_last_processed_command_name("summon".to_string());
    assert_eq!(info.last_processed_command_name().as_str(), "summon");
    assert_eq!(info.commands_processed(), 1);
}

#[test]
fn config_builder_keeps_its_source() {
    let builder = ConfigBuilder::new("config.json".to_string());
    assert_eq!(builder.source(), "config.json");
}

#[test]
fn error_constructors_carry_their_messages() {
    match Error::bot("wiring failed") {
        Error::BotError(m) => assert_eq!(m, "wiring failed"),
        other => panic!("expected a bot error, got {:?}", other),
    }
    match Error::auth("auth service down") {
        Error::TypeAuthdError(m) => assert_eq!(m, "auth service down"),
        other => panic!("expected an auth error, got {:?}", other),
    }
}
