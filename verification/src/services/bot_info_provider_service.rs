use vstd::prelude::*;

verus! {

/// Running counters about the bot itself, reported by the `bot_info`
/// command: how many commands were processed and the name of the last one.
#[derive(Debug)]
pub struct BotInfoProviderService {
    pub commands_processed: u32,
    pub last_processed_command_name: String,
}

impl BotInfoProviderService {
    pub fn new() -> (r: Self)
        ensures
            r.commands_processed == 0,
            r.last_processed_command_name@ == "none"@,
    {
        BotInfoProviderService {
            commands_processed: 0,
            last_processed_command_name: "none".to_owned(),
        }
    }

    pub fn commands_processed(&self) -> (r: u32)
        ensures
            r == self.commands_processed,
    {
        self.commands_processed
    }

    pub fn last_processed_command_name(&self) -> (r: &String)
        ensures
            r == &self.last_processed_command_name,
    {
        &self.last_processed_command_name
    }

    pub fn inc_commands_processed(&mut self)
        requires
            old(self).commands_processed < u32::MAX,
        ensures
            final(self).commands_processed == old(self).commands_processed + 1,
            final(self).last_processed_command_name == old(self).last_processed_command_name,
    {
        self.commands_processed = self.commands_processed + 1;
    }

    pub fn set_last_processed_command_name(&mut self, command_name: String)
        ensures
            final(self).last_processed_command_name == command_name,
            final(self).commands_processed == old(self).commands_processed,
    {
        self.last_processed_command_name = command_name;
    }
}

} // verus!
