pub mod commands;

use crate::bot::commands::CreateCommand;
use crate::bot::commands::DiscordCommandDefinition;
use crate::bot::commands::DiscordCommandResponse;
use crate::bot::commands::ResolvedOption;
use crate::bot::commands::ResponseMessage;
use crate::error::Error;
use crate::utils::dec_val;
use crate::utils::is_dec_digits;
use crate::utils::parse_u64;
use crate::utils::str_eq;
use vstd::prelude::*;

verus! {

/// One command as the table takes it at construction: its settings and
/// its platform registration descriptor.
#[derive(Debug)]
pub struct RegisteredCommand {
    pub definition: DiscordCommandDefinition,
    pub registration: CreateCommand,
}

/// The definitions of a handler list, in registration order.
pub open spec fn defs_of(entries: Seq<RegisteredCommand>) -> Seq<DiscordCommandDefinition>
    decreases entries.len(),
{
    if entries.len() == 0 {
        Seq::empty()
    } else {
        seq![entries[0].definition] + defs_of(entries.skip(1))
    }
}

/// The descriptors of the guild-scoped handlers of a list, in
/// registration order.
pub open spec fn guild_regs_of(entries: Seq<RegisteredCommand>) -> Seq<CreateCommand>
    decreases entries.len(),
{
    if entries.len() == 0 {
        Seq::empty()
    } else if entries[0].definition.is_global {
        guild_regs_of(entries.skip(1))
    } else {
        seq![entries[0].registration] + guild_regs_of(entries.skip(1))
    }
}

/// The descriptors of the globally registered handlers of a list, in
/// registration order.
pub open spec fn global_regs_of(entries: Seq<RegisteredCommand>) -> Seq<CreateCommand>
    decreases entries.len(),
{
    if entries.len() == 0 {
        Seq::empty()
    } else if entries[0].definition.is_global {
        seq![entries[0].registration] + global_regs_of(entries.skip(1))
    } else {
        global_regs_of(entries.skip(1))
    }
}

/// The index of the last definition of the list that carries `name`, if
/// any: the handler that a later registration of the same name leaves
/// reachable.
pub open spec fn last_index_with(
    handlers: Seq<DiscordCommandDefinition>,
    name: Seq<char>,
) -> Option<int>
    decreases handlers.len(),
{
    if handlers.len() == 0 {
        None
    } else if handlers.last().name@ == name {
        Some(handlers.len() - 1)
    } else {
        last_index_with(handlers.drop_last(), name)
    }
}

/// Law: what a lookup finds carries exactly the name it was asked for,
/// no handler registered after it carries that name, and a lookup that
/// finds nothing saw the name on no handler at all.
pub proof fn lemma_last_index_with_props(
    handlers: Seq<DiscordCommandDefinition>,
    name: Seq<char>,
)
    ensures
        (match last_index_with(handlers, name) {
            Some(i) => {
                &&& 0 <= i < handlers.len()
                &&& handlers[i].name@ == name
                &&& forall|j: int|
                    i < j < handlers.len() ==> (#[trigger] handlers[j]).name@ != name
            },
            None => forall|j: int|
                0 <= j < handlers.len() ==> (#[trigger] handlers[j]).name@ != name,
        }),
    decreases handlers.len(),
{
    if handlers.len() > 0 && handlers.last().name@ != name {
        lemma_last_index_with_props(handlers.drop_last(), name);
        assert(forall|j: int|
            0 <= j < handlers.len() - 1 ==> (#[trigger] handlers[j]) == handlers.drop_last()[j]);
    }
}

/// The table built once from the handler list: the definitions it
/// dispatches by name, and the registration descriptors split by scope.
#[derive(Debug)]
pub struct CommandTable {
    pub handlers: Vec<DiscordCommandDefinition>,
    pub guild_descriptors: Vec<CreateCommand>,
    pub global_descriptors: Vec<CreateCommand>,
}

impl CommandTable {
    /// The name-to-handler mapping the table denotes: the index of the
    /// handler reachable under `name`. A duplicate name leaves only the
    /// handler registered last reachable.
    pub open spec fn lookup_spec(self, name: Seq<char>) -> Option<int> {
        last_index_with(self.handlers@, name)
    }

    /// Builds the table from the handler list: definitions in
    /// registration order, and each handler's descriptor appended to the
    /// guild-scoped or the global list per its definition's scope.
    pub fn build(entries: Vec<RegisteredCommand>) -> (r: CommandTable)
        ensures
            r.handlers@ == defs_of(entries@),
            r.guild_descriptors@ == guild_regs_of(entries@),
            r.global_descriptors@ == global_regs_of(entries@),
    {
        let ghost orig = entries@;
        let mut remaining = entries;
        let mut handlers: Vec<DiscordCommandDefinition> = Vec::new();
        let mut guild_descriptors: Vec<CreateCommand> = Vec::new();
        let mut global_descriptors: Vec<CreateCommand> = Vec::new();
        proof {
            assert(orig.skip(orig.len() as int) =~= Seq::<RegisteredCommand>::empty());
            assert(orig.take(orig.len() as int) =~= orig);
        }
        loop
            invariant
                remaining@.len() <= orig.len(),
                remaining@ == orig.take(remaining@.len() as int),
                handlers@ == defs_of(orig.skip(remaining@.len() as int)),
                guild_descriptors@ == guild_regs_of(orig.skip(remaining@.len() as int)),
                global_descriptors@ == global_regs_of(orig.skip(remaining@.len() as int)),
            ensures
                handlers@ == defs_of(orig),
                guild_descriptors@ == guild_regs_of(orig),
                global_descriptors@ == global_regs_of(orig),
            decreases remaining@.len(),
        {
            let ghost before = remaining@;
            let entry = match remaining.pop() {
                Some(entry) => entry,
                None => {
                    proof {
                        assert(before.len() == 0);
                        assert(orig.skip(0) =~= orig);
                    }
                    break
                },
            };
            let ghost m = remaining@.len() as int;
            proof {
                assert(before.len() > 0);
                assert(before.drop_last() =~= orig.take(m));
                assert(entry == orig[m]);
                assert(orig.skip(m)[0] == orig[m]);
                assert(orig.skip(m).skip(1) =~= orig.skip(m + 1));
            }
            let RegisteredCommand { definition, registration } = entry;
            let is_global = definition.is_global;
            handlers.insert(0, definition);
            if is_global {
                global_descriptors.insert(0, registration);
            } else {
                guild_descriptors.insert(0, registration);
            }
            proof {
                assert(handlers@ =~= seq![orig[m].definition] + defs_of(orig.skip(m + 1)));
                if orig[m].definition.is_global {
                    assert(global_descriptors@ =~= seq![orig[m].registration] + global_regs_of(
                        orig.skip(m + 1),
                    ));
                } else {
                    assert(guild_descriptors@ =~= seq![orig[m].registration] + guild_regs_of(
                        orig.skip(m + 1),
                    ));
                }
            }
        }
        proof {
            assert(orig.skip(0) =~= orig);
        }
        CommandTable { handlers, guild_descriptors, global_descriptors }
    }

    /// Looks a command name up: the index of the handler registered last
    /// under that name, or nothing when the name is unknown.
    pub fn lookup(&self, name: &str) -> (r: Option<usize>)
        ensures
            (match r {
                Some(i) => self.lookup_spec(name@) == Some(i as int) && i < self.handlers@.len(),
                None => self.lookup_spec(name@) is None,
            }),
    {
        let n = self.handlers.len();
        let mut i = n;
        proof {
            assert(self.handlers@.take(n as int) =~= self.handlers@);
        }
        loop
            invariant
                i <= n,
                n == self.handlers@.len(),
                last_index_with(self.handlers@, name@) == last_index_with(
                    self.handlers@.take(i as int),
                    name@,
                ),
            decreases i,
        {
            if i == 0 {
                return None;
            }
            i = i - 1;
            proof {
                assert(self.handlers@.take(i + 1).drop_last() =~= self.handlers@.take(i as int));
                assert(self.handlers@.take(i + 1).last() == self.handlers@[i as int]);
            }
            if str_eq(self.handlers[i].name.as_str(), name) {
                return Some(i);
            }
        }
    }
}

/// Law: looking a registered handler up by its definition's name finds
/// exactly that handler, for any handler after which no other was
/// registered under the same name. In particular, of two handlers that
/// share a name, only the second is reachable.
pub proof fn lemma_lookup_last_registration(t: CommandTable, i: int)
    requires
        0 <= i < t.handlers@.len(),
        forall|j: int|
            i < j < t.handlers@.len() ==> (#[trigger] t.handlers@[j]).name@
                != t.handlers@[i].name@,
    ensures
        t.lookup_spec(t.handlers@[i].name@) == Some(i),
{
    lemma_last_index_found(t.handlers@, t.handlers@[i].name@, i);
}

proof fn lemma_last_index_found(
    handlers: Seq<DiscordCommandDefinition>,
    name: Seq<char>,
    i: int,
)
    requires
        0 <= i < handlers.len(),
        handlers[i].name@ == name,
        forall|j: int| i < j < handlers.len() ==> (#[trigger] handlers[j]).name@ != name,
    ensures
        last_index_with(handlers, name) == Some(i),
    decreases handlers.len(),
{
    if i < handlers.len() - 1 {
        assert(handlers.last().name@ != name);
        lemma_last_index_found(handlers.drop_last(), name, i);
    }
}

/// One inbound command interaction: the command name, its option list,
/// the guild it came from when it came from one, and the invoking user.
#[derive(Debug)]
pub struct Interaction {
    pub command_name: String,
    pub options: Vec<ResolvedOption>,
    pub guild_id: Option<u64>,
    pub user: String,
}

/// Why an interaction is answered without reaching a handler.
#[derive(Debug, Clone, Copy, PartialEq, Eq, Structural)]
pub enum RejectKind {
    /// The command name is not in the table.
    CommandNotFound,
    /// The interaction came from a direct context, not a guild.
    NotAllowedInDms,
    /// The interaction's guild is not on the allow-list.
    GuildNotAllowed,
}

/// The fixed content of each rejection response.
pub open spec fn reject_text(kind: RejectKind) -> Seq<char> {
    match kind {
        RejectKind::CommandNotFound => "Command not found!"@,
        RejectKind::NotAllowedInDms => "Not allowed in DMs."@,
        RejectKind::GuildNotAllowed => "Not allowed at this guild."@,
    }
}

/// The message sent for a rejection: its fixed text, plain and visible.
pub fn reject_message(kind: RejectKind) -> (m: ResponseMessage)
    ensures
        m.embed is None,
        !m.ephemeral,
        m.content matches Some(c) && c@ == reject_text(kind),
{
    let text: &str = match kind {
        RejectKind::CommandNotFound => "Command not found!",
        RejectKind::NotAllowedInDms => "Not allowed in DMs.",
        RejectKind::GuildNotAllowed => "Not allowed at this guild.",
    };
    ResponseMessage { content: Some(text.to_owned()), embed: None, ephemeral: false }
}

/// What the dispatcher decides to do with one interaction: answer it at
/// once with a rejection, or run the handler at the given table index
/// under its acknowledgment mode.
#[derive(Debug, Clone, Copy, PartialEq, Eq, Structural)]
pub enum DispatchPlan {
    /// Send one immediate rejection; no handler runs.
    Finish(RejectKind),
    /// Invoke the handler within the acknowledgment window and send its
    /// response as the first and only one.
    RunImmediate { handler: usize },
    /// Send a deferring acknowledgment with the handler's ephemeral
    /// flag, then invoke the handler and send its followup.
    RunDeferred { handler: usize, ephemeral: bool },
}

/// The command-driven bot core: the command table and the guild
/// allow-list, constructed once at startup.
#[derive(Debug)]
pub struct DiscordApp {
    pub table: CommandTable,
    pub guilds: Vec<u64>,
}

/// Reads the guild allow-list: every entry must be a decimal guild
/// identifier that fits the identifier width.
pub fn parse_guild_ids(guild_ids: &Vec<String>) -> (r: Result<Vec<u64>, Error>)
    ensures
        (match r {
            Ok(parsed) => {
                &&& parsed@.len() == guild_ids@.len()
                &&& forall|i: int|
                    0 <= i < guild_ids@.len() ==> is_dec_digits((#[trigger] guild_ids@[i])@)
                        && dec_val(guild_ids@[i]@) == parsed@[i]
            },
            Err(e) => {
                &&& e matches Error::ParseIntError(s)
                &&& exists|i: int|
                    0 <= i < guild_ids@.len() && #[trigger] guild_ids@[i] == s && !(is_dec_digits(
                        s@,
                    ) && dec_val(s@) <= u64::MAX)
            },
        }),
{
    let n = guild_ids.len();
    let mut parsed: Vec<u64> = Vec::new();
    let mut i: usize = 0;
    while i < n
        invariant
            i <= n,
            n == guild_ids@.len(),
            parsed@.len() == i,
            forall|j: int|
                0 <= j < i ==> is_dec_digits((#[trigger] guild_ids@[j])@) && dec_val(
                    guild_ids@[j]@,
                ) == parsed@[j],
        decreases n - i,
    {
        match parse_u64(guild_ids[i].as_str()) {
            Some(id) => {
                parsed.push(id);
            },
            None => {
                return Err(Error::ParseIntError(guild_ids[i].clone()));
            },
        }
        i = i + 1;
    }
    Ok(parsed)
}

/// Whether the allow-list contains `id`.
fn guilds_contain(guilds: &Vec<u64>, id: u64) -> (r: bool)
    ensures
        r == guilds@.contains(id),
{
    let n = guilds.len();
    let mut i: usize = 0;
    while i < n
        invariant
            i <= n,
            n == guilds@.len(),
            forall|j: int| 0 <= j < i ==> guilds@[j] != id,
        decreases n - i,
    {
        if guilds[i] == id {
            return true;
        }
        i = i + 1;
    }
    false
}

/// What the dispatcher decides for `interaction`: route by name first,
/// then gate on the guild context, then branch on the handler's
/// acknowledgment mode.
pub open spec fn plan_spec(app: DiscordApp, interaction: Interaction) -> DispatchPlan {
    match app.table.lookup_spec(interaction.command_name@) {
        None => DispatchPlan::Finish(RejectKind::CommandNotFound),
        Some(i) => match interaction.guild_id {
            None => DispatchPlan::Finish(RejectKind::NotAllowedInDms),
            Some(g) => if !app.guilds@.contains(g) {
                DispatchPlan::Finish(RejectKind::GuildNotAllowed)
            } else if app.table.handlers@[i].is_deferred {
                DispatchPlan::RunDeferred {
                    handler: i as usize,
                    ephemeral: app.table.handlers@[i].is_ephemeral,
                }
            } else {
                DispatchPlan::RunImmediate { handler: i as usize }
            },
        },
    }
}

impl DiscordApp {
    /// Builds the core from the handler list and the configured guild
    /// allow-list. Fails exactly when some allow-list entry is not a
    /// decimal guild identifier.
    pub fn new(command_defs: Vec<RegisteredCommand>, guild_ids: Vec<String>) -> (r: Result<
        DiscordApp,
        Error,
    >)
        ensures
            (match r {
                Ok(app) => {
                    &&& app.table.handlers@ == defs_of(command_defs@)
                    &&& app.table.guild_descriptors@ == guild_regs_of(command_defs@)
                    &&& app.table.global_descriptors@ == global_regs_of(command_defs@)
                    &&& app.guilds@.len() == guild_ids@.len()
                    &&& forall|i: int|
                        0 <= i < guild_ids@.len() ==> is_dec_digits(
                            (#[trigger] guild_ids@[i])@,
                        ) && dec_val(guild_ids@[i]@) == app.guilds@[i]
                },
                Err(e) => {
                    &&& e matches Error::ParseIntError(s)
                    &&& exists|i: int|
                        0 <= i < guild_ids@.len() && #[trigger] guild_ids@[i] == s && !(
                        is_dec_digits(s@) && dec_val(s@) <= u64::MAX)
                },
            }),
    {
        let guilds = match parse_guild_ids(&guild_ids) {
            Ok(parsed) => parsed,
            Err(e) => {
                return Err(e);
            },
        };
        let table = CommandTable::build(command_defs);
        Ok(DiscordApp { table, guilds })
    }

    /// Decides what to do with one inbound interaction. No send happens
    /// here: the caller performs the sends that the plan calls for, in
    /// its order.
    pub fn plan_interaction(&self, interaction: &Interaction) -> (r: DispatchPlan)
        ensures
            r == plan_spec(*self, *interaction),
    {
        let found = self.table.lookup(interaction.command_name.as_str());
        match found {
            None => DispatchPlan::Finish(RejectKind::CommandNotFound),
            Some(i) => match interaction.guild_id {
                None => DispatchPlan::Finish(RejectKind::NotAllowedInDms),
                Some(g) => {
                    if !guilds_contain(&self.guilds, g) {
                        DispatchPlan::Finish(RejectKind::GuildNotAllowed)
                    } else {
                        let definition = &self.table.handlers[i];
                        if definition.is_deferred {
                            DispatchPlan::RunDeferred {
                                handler: i,
                                ephemeral: definition.is_ephemeral,
                            }
                        } else {
                            DispatchPlan::RunImmediate { handler: i }
                        }
                    }
                },
            },
        }
    }

    /// The registration pushes that startup performs, in order: the
    /// guild-scoped descriptor list to each allowed guild in turn, then
    /// the global descriptor list once. A failed push is skipped, so the
    /// order alone is decided here.
    pub fn registration_targets(&self) -> (r: Vec<PushTarget>)
        ensures
            r@.len() == self.guilds@.len() + 1,
            forall|i: int|
                0 <= i < self.guilds@.len() ==> r@[i] == PushTarget::Guild(
                    #[trigger] self.guilds@[i],
                ),
            r@.last() == PushTarget::Global,
    {
        let n = self.guilds.len();
        let mut targets: Vec<PushTarget> = Vec::new();
        let mut i: usize = 0;
        while i < n
            invariant
                i <= n,
                n == self.guilds@.len(),
                targets@.len() == i,
                forall|j: int|
                    0 <= j < i ==> targets@[j] == PushTarget::Guild(#[trigger] self.guilds@[j]),
            decreases n - i,
        {
            targets.push(PushTarget::Guild(self.guilds[i]));
            i = i + 1;
        }
        targets.push(PushTarget::Global);
        targets
    }
}

/// Where one registration push goes: a guild's whole command set, or the
/// global command set, each replaced as a whole.
#[derive(Debug, Clone, Copy, PartialEq, Eq, Structural)]
pub enum PushTarget {
    Guild(u64),
    Global,
}

/// Completes an immediately acknowledged interaction: the handler's
/// response must be a first response; a followup is a contract violation
/// and is dropped, so nothing is sent.
pub fn immediate_completion(response: DiscordCommandResponse) -> (r: Option<ResponseMessage>)
    ensures
        (match response {
            DiscordCommandResponse::Default(m) => r == Some(m),
            DiscordCommandResponse::Followup(_) => r is None,
        }),
{
    match response {
        DiscordCommandResponse::Default(m) => Some(m),
        DiscordCommandResponse::Followup(_) => None,
    }
}

/// Completes a deferred interaction: the handler's response must be a
/// followup; a first response is a contract violation and is dropped, so
/// the deferring acknowledgment stands alone.
pub fn deferred_completion(response: DiscordCommandResponse) -> (r: Option<ResponseMessage>)
    ensures
        (match response {
            DiscordCommandResponse::Followup(m) => r == Some(m),
            DiscordCommandResponse::Default(_) => r is None,
        }),
{
    match response {
        DiscordCommandResponse::Followup(m) => Some(m),
        DiscordCommandResponse::Default(_) => None,
    }
}

/// One outbound platform call of a dispatch, by kind.
#[derive(Debug, Clone, Copy, PartialEq, Eq, Structural)]
pub enum SendEvent {
    Immediate,
    Defer { ephemeral: bool },
    Followup,
}

/// The sends that a driver following the plan performs for one
/// interaction, in order, given the response the handler returned (which
/// is ignored when no handler runs): a rejection is one immediate send;
/// an immediate handler's valid response is one immediate send; a
/// deferred handler's dispatch opens with the deferring acknowledgment
/// and is followed by its valid followup; a response of the wrong shape
/// for the mode is dropped.
pub open spec fn dispatch_events(
    app: DiscordApp,
    interaction: Interaction,
    response: DiscordCommandResponse,
) -> Seq<SendEvent> {
    match plan_spec(app, interaction) {
        DispatchPlan::Finish(_) => seq![SendEvent::Immediate],
        DispatchPlan::RunImmediate { .. } => if response is Default {
            seq![SendEvent::Immediate]
        } else {
            Seq::empty()
        },
        DispatchPlan::RunDeferred { handler, ephemeral } => seq![SendEvent::Defer { ephemeral }]
            + if response is Followup {
            seq![SendEvent::Followup]
        } else {
            Seq::empty()
        },
    }
}

/// Law: dispatching to a deferred handler produces exactly one deferring
/// acknowledgment, first and carrying the handler's ephemeral flag, then
/// at most one followup — exactly one when the handler honored its
/// contract — and never an immediate send.
pub proof fn lemma_deferred_dispatch_protocol(
    app: DiscordApp,
    interaction: Interaction,
    response: DiscordCommandResponse,
)
    requires
        app.table.lookup_spec(interaction.command_name@) matches Some(i)
            && app.table.handlers@[i].is_deferred,
        interaction.guild_id matches Some(g) && app.guilds@.contains(g),
    ensures
        ({
            let events = dispatch_events(app, interaction, response);
            let i = app.table.lookup_spec(interaction.command_name@)->0;
            &&& 1 <= events.len() <= 2
            &&& events[0] == (SendEvent::Defer { ephemeral: app.table.handlers@[i].is_ephemeral })
            &&& forall|j: int| 0 <= j < events.len() ==> events[j] != SendEvent::Immediate
            &&& events.len() == 2 <==> response is Followup
            &&& events.len() == 2 ==> events[1] == SendEvent::Followup
        }),
{
}

/// Law: dispatching to an immediately acknowledged handler never
/// produces a deferring acknowledgment or a followup; when the handler
/// honored its contract, it produces exactly one immediate send, and
/// when it did not, nothing is sent.
pub proof fn lemma_immediate_dispatch_protocol(
    app: DiscordApp,
    interaction: Interaction,
    response: DiscordCommandResponse,
)
    requires
        app.table.lookup_spec(interaction.command_name@) matches Some(i)
            && !app.table.handlers@[i].is_deferred,
        interaction.guild_id matches Some(g) && app.guilds@.contains(g),
    ensures
        ({
            let events = dispatch_events(app, interaction, response);
            &&& forall|j: int|
                0 <= j < events.len() ==> events[j] == SendEvent::Immediate
            &&& response is Default ==> events =~= seq![SendEvent::Immediate]
            &&& response is Followup ==> events.len() == 0
        }),
{
}

/// Law: when a deferred handler returns a first response instead of a
/// followup, the response is dropped: the deferring acknowledgment is
/// the only send.
pub proof fn lemma_deferred_violation_drops_response(
    app: DiscordApp,
    interaction: Interaction,
    response: DiscordCommandResponse,
)
    requires
        plan_spec(app, interaction) matches DispatchPlan::RunDeferred { .. },
        response is Default,
    ensures
        ({
            let events = dispatch_events(app, interaction, response);
            let ephemeral = plan_spec(app, interaction)->RunDeferred_ephemeral;
            events =~= seq![SendEvent::Defer { ephemeral }]
        }),
{
}

/// Law: an unknown command name is answered with exactly one immediate
/// "command not found" response, and no handler is planned, whatever
/// response a handler could have given.
pub proof fn lemma_unknown_command(
    app: DiscordApp,
    interaction: Interaction,
    response: DiscordCommandResponse,
)
    requires
        app.table.lookup_spec(interaction.command_name@) is None,
    ensures
        plan_spec(app, interaction) == DispatchPlan::Finish(RejectKind::CommandNotFound),
        dispatch_events(app, interaction, response) =~= seq![SendEvent::Immediate],
        !(plan_spec(app, interaction) is RunImmediate),
        !(plan_spec(app, interaction) is RunDeferred),
{
}

/// Law: an interaction whose guild is not on the allow-list is rejected
/// before any handler is planned: one immediate rejection, nothing else.
pub proof fn lemma_guild_gating(
    app: DiscordApp,
    interaction: Interaction,
    response: DiscordCommandResponse,
)
    requires
        app.table.lookup_spec(interaction.command_name@) is Some,
        interaction.guild_id matches Some(g) && !app.guilds@.contains(g),
    ensures
        plan_spec(app, interaction) == DispatchPlan::Finish(RejectKind::GuildNotAllowed),
        dispatch_events(app, interaction, response) =~= seq![SendEvent::Immediate],
        !(plan_spec(app, interaction) is RunImmediate),
        !(plan_spec(app, interaction) is RunDeferred),
{
}

} // verus!
