pub mod bot_info;
pub mod femboy;
pub mod link;
pub mod ping;
pub mod player_info;
pub mod summon;
pub mod unlink;
pub mod user_id;

pub use bot_info::BotInfo;
pub use femboy::FemboyCommand;
pub use link::LinkCommand;
pub use ping::PingCommand;
pub use player_info::PlayerInfoCommand;
pub use summon::SummonCommand;
pub use unlink::UnLinkCommand;
pub use user_id::UserIdCommand;

use crate::utils::Color;
use crate::utils::gen_random_uuid;
use crate::utils::red_color;
use vstd::prelude::*;

verus! {

/// The permission bits required by the moderation commands: manage
/// webhooks together with manage guild.
pub const MANAGE_WEBHOOKS_SERVER_PERMISSION: u64 = 0x20 | 0x20000000;

/// The settings of a command: its dispatch name, whether it registers
/// globally or per guild, whether its acknowledgment is deferred, and
/// whether its responses are visible to the invoking user alone.
/// Immutable once a handler is constructed.
#[derive(Debug)]
pub struct DiscordCommandDefinition {
    pub name: String,
    pub is_global: bool,
    pub is_deferred: bool,
    pub is_ephemeral: bool,
}

impl DiscordCommandDefinition {
    pub fn new(name: &str, is_global: bool, is_deferred: bool, is_ephemeral: bool) -> (r: Self)
        ensures
            r.name@ == name@,
            r.is_global == is_global,
            r.is_deferred == is_deferred,
            r.is_ephemeral == is_ephemeral,
    {
        DiscordCommandDefinition {
            name: name.to_owned(),
            is_global,
            is_deferred,
            is_ephemeral,
        }
    }

    pub fn new_global(name: &str, is_deferred: bool, is_ephemeral: bool) -> (r: Self)
        ensures
            r.name@ == name@,
            r.is_global == true,
            r.is_deferred == is_deferred,
            r.is_ephemeral == is_ephemeral,
    {
        DiscordCommandDefinition { name: name.to_owned(), is_global: true, is_deferred, is_ephemeral }
    }

    pub fn new_local(name: &str, is_deferred: bool, is_ephemeral: bool) -> (r: Self)
        ensures
            r.name@ == name@,
            r.is_global == false,
            r.is_deferred == is_deferred,
            r.is_ephemeral == is_ephemeral,
    {
        DiscordCommandDefinition { name: name.to_owned(), is_global: false, is_deferred, is_ephemeral }
    }
}

/// The embed body a response message may carry.
#[derive(Debug)]
pub struct EmbedBody {
    pub description: String,
    pub footer: Option<String>,
    pub color: Option<Color>,
}

/// One message sent to the platform: plain content or an embed, and the
/// ephemeral flag.
#[derive(Debug)]
pub struct ResponseMessage {
    pub content: Option<String>,
    pub embed: Option<EmbedBody>,
    pub ephemeral: bool,
}

/// What a handler hands back: the interaction's first response, or the
/// followup that completes a deferred acknowledgment. A handler produces
/// exactly one of these per interaction.
#[derive(Debug)]
pub enum DiscordCommandResponse {
    Default(ResponseMessage),
    Followup(ResponseMessage),
}

/// Whether `r` is a first response with plain `content` and the given
/// ephemeral flag, and no embed.
pub open spec fn is_default_message(
    r: DiscordCommandResponse,
    content: Seq<char>,
    ephemeral: bool,
) -> bool {
    &&& r matches DiscordCommandResponse::Default(m)
    &&& m.embed is None
    &&& m.ephemeral == ephemeral
    &&& m.content matches Some(c) && c@ == content
}

/// Whether `r` is a followup with plain `content` and the given ephemeral
/// flag, and no embed.
pub open spec fn is_followup_message(
    r: DiscordCommandResponse,
    content: Seq<char>,
    ephemeral: bool,
) -> bool {
    &&& r matches DiscordCommandResponse::Followup(m)
    &&& m.embed is None
    &&& m.ephemeral == ephemeral
    &&& m.content matches Some(c) && c@ == content
}

/// Whether `m` is a message with no plain content whose embed carries
/// exactly the given description, footer and color.
pub open spec fn is_embed_message(
    m: ResponseMessage,
    description: Seq<char>,
    footer: Option<Seq<char>>,
    color: Option<Color>,
    ephemeral: bool,
) -> bool {
    &&& m.content is None
    &&& m.ephemeral == ephemeral
    &&& m.embed matches Some(e)
    &&& e.description@ == description
    &&& match footer {
        Some(f) => e.footer matches Some(g) && g@ == f,
        None => e.footer is None,
    }
    &&& e.color == color
}

/// Whether `r` is a first response carrying exactly the given embed.
pub open spec fn is_default_embed(
    r: DiscordCommandResponse,
    description: Seq<char>,
    footer: Option<Seq<char>>,
    color: Option<Color>,
    ephemeral: bool,
) -> bool {
    &&& r matches DiscordCommandResponse::Default(m)
    &&& is_embed_message(m, description, footer, color, ephemeral)
}

/// Whether `r` is a followup carrying exactly the given embed.
pub open spec fn is_followup_embed(
    r: DiscordCommandResponse,
    description: Seq<char>,
    footer: Option<Seq<char>>,
    color: Option<Color>,
    ephemeral: bool,
) -> bool {
    &&& r matches DiscordCommandResponse::Followup(m)
    &&& is_embed_message(m, description, footer, color, ephemeral)
}

/// The view of an optional borrowed string.
pub open spec fn opt_str_view(o: Option<&str>) -> Option<Seq<char>> {
    match o {
        Some(s) => Some(s@),
        None => None,
    }
}

impl DiscordCommandResponse {
    /// A first response with plain text content.
    pub fn default_response(s: &str, ephemeral: bool) -> (r: Self)
        ensures
            is_default_message(r, s@, ephemeral),
    {
        DiscordCommandResponse::Default(
            ResponseMessage { content: Some(s.to_owned()), embed: None, ephemeral },
        )
    }

    /// A first response carrying an embed.
    pub fn default_embed_response(
        content: &str,
        footer: Option<&str>,
        color: Option<Color>,
        ephemeral: bool,
    ) -> (r: Self)
        ensures
            is_default_embed(r, content@, opt_str_view(footer), color, ephemeral),
    {
        let footer_owned = match footer {
            Some(f) => Some(f.to_owned()),
            None => None,
        };
        DiscordCommandResponse::Default(
            ResponseMessage {
                content: None,
                embed: Some(EmbedBody { description: content.to_owned(), footer: footer_owned, color }),
                ephemeral,
            },
        )
    }

    /// A followup with plain text content.
    pub fn followup_response(s: &str, ephemeral: bool) -> (r: Self)
        ensures
            is_followup_message(r, s@, ephemeral),
    {
        DiscordCommandResponse::Followup(
            ResponseMessage { content: Some(s.to_owned()), embed: None, ephemeral },
        )
    }

    /// A followup carrying an embed.
    pub fn followup_embed_response(
        content: &str,
        footer: Option<&str>,
        color: Option<Color>,
        ephemeral: bool,
    ) -> (r: Self)
        ensures
            is_followup_embed(r, content@, opt_str_view(footer), color, ephemeral),
    {
        let footer_owned = match footer {
            Some(f) => Some(f.to_owned()),
            None => None,
        };
        DiscordCommandResponse::Followup(
            ResponseMessage {
                content: None,
                embed: Some(EmbedBody { description: content.to_owned(), footer: footer_owned, color }),
                ephemeral,
            },
        )
    }
}

/// The kind of one option of a registration descriptor, as far as the
/// commands here declare options.
#[derive(Debug, Clone, Copy, PartialEq, Eq, Structural)]
pub enum CommandOptionType {
    SubCommand,
    SubCommandGroup,
    Str,
    User,
}

/// One option of a registration descriptor: its kind, names and
/// descriptions with their localizations, whether it is required, its
/// fixed choices, and its nested options.
#[derive(Debug)]
pub struct CreateCommandOption {
    pub kind: CommandOptionType,
    pub name: String,
    pub name_localizations: Vec<(String, String)>,
    pub description: String,
    pub description_localizations: Vec<(String, String)>,
    pub required: bool,
    pub choices: Vec<(String, String)>,
    pub sub_options: Vec<CreateCommandOption>,
}

impl CreateCommandOption {
    pub fn new(kind: CommandOptionType, name: &str, description: &str) -> (r: Self)
        ensures
            r.kind == kind,
            r.name@ == name@,
            r.name_localizations@ == Seq::<(String, String)>::empty(),
            r.description@ == description@,
            r.description_localizations@ == Seq::<(String, String)>::empty(),
            r.required == false,
            r.choices@ == Seq::<(String, String)>::empty(),
            r.sub_options@ == Seq::<CreateCommandOption>::empty(),
    {
        CreateCommandOption {
            kind,
            name: name.to_owned(),
            name_localizations: Vec::new(),
            description: description.to_owned(),
            description_localizations: Vec::new(),
            required: false,
            choices: Vec::new(),
            sub_options: Vec::new(),
        }
    }

    pub fn name_localized(self, locale: &str, name: &str) -> (r: Self)
        ensures
            r.name_localizations@.len() == self.name_localizations@.len() + 1,
            r.name_localizations@.last().0@ == locale@,
            r.name_localizations@.last().1@ == name@,
            r.name_localizations@.drop_last() == self.name_localizations@,
            r.kind == self.kind,
            r.name == self.name,
            r.description == self.description,
            r.description_localizations == self.description_localizations,
            r.required == self.required,
            r.choices == self.choices,
            r.sub_options == self.sub_options,
    {
        let mut localizations = self.name_localizations;
        localizations.push((locale.to_owned(), name.to_owned()));
        CreateCommandOption { name_localizations: localizations, ..self }
    }

    pub fn description_localized(self, locale: &str, description: &str) -> (r: Self)
        ensures
            r.description_localizations@.len() == self.description_localizations@.len() + 1,
            r.description_localizations@.last().0@ == locale@,
            r.description_localizations@.last().1@ == description@,
            r.description_localizations@.drop_last() == self.description_localizations@,
            r.kind == self.kind,
            r.name == self.name,
            r.name_localizations == self.name_localizations,
            r.description == self.description,
            r.required == self.required,
            r.choices == self.choices,
            r.sub_options == self.sub_options,
    {
        let mut localizations = self.description_localizations;
        localizations.push((locale.to_owned(), description.to_owned()));
        CreateCommandOption { description_localizations: localizations, ..self }
    }

    pub fn required(self, required: bool) -> (r: Self)
        ensures
            r.required == required,
            r.kind == self.kind,
            r.name == self.name,
            r.name_localizations == self.name_localizations,
            r.description == self.description,
            r.description_localizations == self.description_localizations,
            r.choices == self.choices,
            r.sub_options == self.sub_options,
    {
        CreateCommandOption { required, ..self }
    }

    pub fn add_string_choice(self, name: &str, value: &str) -> (r: Self)
        ensures
            r.choices@.len() == self.choices@.len() + 1,
            r.choices@.last().0@ == name@,
            r.choices@.last().1@ == value@,
            r.choices@.drop_last() == self.choices@,
            r.kind == self.kind,
            r.name == self.name,
            r.name_localizations == self.name_localizations,
            r.description == self.description,
            r.description_localizations == self.description_localizations,
            r.required == self.required,
            r.sub_options == self.sub_options,
    {
        let mut choices = self.choices;
        choices.push((name.to_owned(), value.to_owned()));
        CreateCommandOption { choices, ..self }
    }

    pub fn add_sub_option(self, sub_option: CreateCommandOption) -> (r: Self)
        ensures
            r.sub_options@ == self.sub_options@.push(sub_option),
            r.kind == self.kind,
            r.name == self.name,
            r.name_localizations == self.name_localizations,
            r.description == self.description,
            r.description_localizations == self.description_localizations,
            r.required == self.required,
            r.choices == self.choices,
    {
        let mut sub_options = self.sub_options;
        sub_options.push(sub_option);
        CreateCommandOption { sub_options, ..self }
    }
}

/// A platform registration descriptor: the payload that declares one
/// command, its options and its required permissions to the platform.
#[derive(Debug)]
pub struct CreateCommand {
    pub name: String,
    pub name_localizations: Vec<(String, String)>,
    pub description: String,
    pub description_localizations: Vec<(String, String)>,
    pub options: Vec<CreateCommandOption>,
    pub default_member_permissions: Option<u64>,
}

impl CreateCommand {
    pub fn new(name: &str) -> (r: Self)
        ensures
            r.name@ == name@,
            r.name_localizations@ == Seq::<(String, String)>::empty(),
            r.description@ == Seq::<char>::empty(),
            r.description_localizations@ == Seq::<(String, String)>::empty(),
            r.options@ == Seq::<CreateCommandOption>::empty(),
            r.default_member_permissions is None,
    {
        CreateCommand {
            name: name.to_owned(),
            name_localizations: Vec::new(),
            description: String::new(),
            description_localizations: Vec::new(),
            options: Vec::new(),
            default_member_permissions: None,
        }
    }

    pub fn name_localized(self, locale: &str, name: &str) -> (r: Self)
        ensures
            r.name_localizations@.len() == self.name_localizations@.len() + 1,
            r.name_localizations@.last().0@ == locale@,
            r.name_localizations@.last().1@ == name@,
            r.name_localizations@.drop_last() == self.name_localizations@,
            r.name == self.name,
            r.description == self.description,
            r.description_localizations == self.description_localizations,
            r.options == self.options,
            r.default_member_permissions == self.default_member_permissions,
    {
        let mut localizations = self.name_localizations;
        localizations.push((locale.to_owned(), name.to_owned()));
        CreateCommand { name_localizations: localizations, ..self }
    }

    pub fn description(self, description: &str) -> (r: Self)
        ensures
            r.description@ == description@,
            r.name == self.name,
            r.name_localizations == self.name_localizations,
            r.description_localizations == self.description_localizations,
            r.options == self.options,
            r.default_member_permissions == self.default_member_permissions,
    {
        CreateCommand { description: description.to_owned(), ..self }
    }

    pub fn description_localized(self, locale: &str, description: &str) -> (r: Self)
        ensures
            r.description_localizations@.len() == self.description_localizations@.len() + 1,
            r.description_localizations@.last().0@ == locale@,
            r.description_localizations@.last().1@ == description@,
            r.description_localizations@.drop_last() == self.description_localizations@,
            r.name == self.name,
            r.name_localizations == self.name_localizations,
            r.description == self.description,
            r.options == self.options,
            r.default_member_permissions == self.default_member_permissions,
    {
        let mut localizations = self.description_localizations;
        localizations.push((locale.to_owned(), description.to_owned()));
        CreateCommand { description_localizations: localizations, ..self }
    }

    pub fn add_option(self, option: CreateCommandOption) -> (r: Self)
        ensures
            r.options@ == self.options@.push(option),
            r.name == self.name,
            r.name_localizations == self.name_localizations,
            r.description == self.description,
            r.description_localizations == self.description_localizations,
            r.default_member_permissions == self.default_member_permissions,
    {
        let mut options = self.options;
        options.push(option);
        CreateCommand { options, ..self }
    }

    pub fn default_member_permissions(self, permissions: u64) -> (r: Self)
        ensures
            r.default_member_permissions == Some(permissions),
            r.name == self.name,
            r.name_localizations == self.name_localizations,
            r.description == self.description,
            r.description_localizations == self.description_localizations,
            r.options == self.options,
    {
        CreateCommand { default_member_permissions: Some(permissions), ..self }
    }
}

/// One typed value of an inbound interaction's option list, as far as the
/// commands here read it.
#[derive(Debug)]
pub enum ResolvedValue {
    Str(String),
    /// A referenced user, by identifier.
    User(u64),
    SubCommand(Vec<ResolvedOption>),
    SubCommandGroup(Vec<ResolvedOption>),
    /// A value of a kind no command here reads.
    Other,
}

/// One named option of an inbound interaction.
#[derive(Debug)]
pub struct ResolvedOption {
    pub name: String,
    pub value: ResolvedValue,
}

/// The first option of the list that carries a string value under `name`,
/// if any.
pub open spec fn string_opt_of(opts: Seq<ResolvedOption>, name: Seq<char>) -> Option<Seq<char>>
    decreases opts.len(),
{
    if opts.len() == 0 {
        None
    } else if opts[0].name@ == name && opts[0].value is Str {
        Some(opts[0].value->Str_0@)
    } else {
        string_opt_of(opts.skip(1), name)
    }
}

/// Picks the value of the first string option named `name`.
pub fn opts_get_string(opts: &Vec<ResolvedOption>, name: &str) -> (r: Option<String>)
    ensures
        match r {
            Some(v) => string_opt_of(opts@, name@) matches Some(l) && l == v@,
            None => string_opt_of(opts@, name@) is None,
        },
{
    let n = opts.len();
    let mut i: usize = 0;
    proof {
        assert(opts@.skip(0) =~= opts@);
    }
    while i < n
        invariant
            i <= n,
            n == opts@.len(),
            string_opt_of(opts@, name@) == string_opt_of(opts@.skip(i as int), name@),
        decreases n - i,
    {
        proof {
            assert(opts@.skip(i as int)[0] == opts@[i as int]);
            assert(opts@.skip(i as int).skip(1) =~= opts@.skip(i + 1));
        }
        let is_named = crate::utils::str_eq(opts[i].name.as_str(), name);
        if is_named {
            match &opts[i].value {
                ResolvedValue::Str(v) => {
                    return Some(v.clone());
                },
                _ => {},
            }
        }
        i = i + 1;
    }
    proof {
        assert(opts@.skip(n as int) =~= Seq::<ResolvedOption>::empty());
    }
    None
}

/// The first `login` string option of the list, if any.
pub open spec fn login_of(opts: Seq<ResolvedOption>) -> Option<Seq<char>> {
    string_opt_of(opts, "login"@)
}

/// Picks the value of the first `login` string option.
pub fn opts_get_login(opts: &Vec<ResolvedOption>) -> (r: Option<String>)
    ensures
        match r {
            Some(v) => login_of(opts@) matches Some(l) && l == v@,
            None => login_of(opts@) is None,
        },
{
    opts_get_string(opts, "login")
}

/// The first option of the list that names a user under `name`, if any,
/// by user identifier.
pub open spec fn user_opt_of(opts: Seq<ResolvedOption>, name: Seq<char>) -> Option<u64>
    decreases opts.len(),
{
    if opts.len() == 0 {
        None
    } else if opts[0].name@ == name && opts[0].value is User {
        Some(opts[0].value->User_0)
    } else {
        user_opt_of(opts.skip(1), name)
    }
}

/// Picks the identifier of the first user option named `name`.
pub fn opts_get_user(opts: &Vec<ResolvedOption>, name: &str) -> (r: Option<u64>)
    ensures
        r == user_opt_of(opts@, name@),
{
    let n = opts.len();
    let mut i: usize = 0;
    proof {
        assert(opts@.skip(0) =~= opts@);
    }
    while i < n
        invariant
            i <= n,
            n == opts@.len(),
            user_opt_of(opts@, name@) == user_opt_of(opts@.skip(i as int), name@),
        decreases n - i,
    {
        proof {
            assert(opts@.skip(i as int)[0] == opts@[i as int]);
            assert(opts@.skip(i as int).skip(1) =~= opts@.skip(i + 1));
        }
        let is_named = crate::utils::str_eq(opts[i].name.as_str(), name);
        if is_named {
            match &opts[i].value {
                ResolvedValue::User(id) => {
                    return Some(*id);
                },
                _ => {},
            }
        }
        i = i + 1;
    }
    proof {
        assert(opts@.skip(n as int) =~= Seq::<ResolvedOption>::empty());
    }
    None
}

/// One record written to the log sink when a backend failure is turned
/// into a user-facing message: the correlation identifier and the full
/// line carrying it.
#[derive(Debug)]
pub struct LogEntry {
    pub correlation_id: String,
    pub text: String,
}

/// Whether `l` is the log entry for a failure with the given message and
/// cause: its line carries its own correlation identifier.
pub open spec fn is_failure_log(l: LogEntry, log_msg: Seq<char>, cause: Seq<char>) -> bool {
    &&& l.correlation_id@.len() == 36
    &&& l.text@ == l.correlation_id@ + ". "@ + log_msg + ". Error: "@ + cause
}

/// Converts a backend failure into the pair the bot sends and logs: an
/// embed whose footer carries a freshly drawn correlation identifier, and
/// the log entry carrying the same identifier beside the underlying
/// cause. The identifier in the response footer and the one in the log
/// entry are exactly equal, which is what lets a support reader correlate
/// the two.
pub fn failure_followup(user_msg: &str, log_msg: &str, cause: &str, ephemeral: bool) -> (r: (
    DiscordCommandResponse,
    LogEntry,
))
    ensures
        is_followup_embed(
            r.0,
            user_msg@,
            Some(r.1.correlation_id@),
            Some((Color { r: 255, g: 0, b: 0 })),
            ephemeral,
        ),
        is_failure_log(r.1, log_msg@, cause@),
{
    let correlation_id = gen_random_uuid();
    let mut text = correlation_id.clone();
    text.append(". ");
    text.append(log_msg);
    text.append(". Error: ");
    text.append(cause);
    let response = DiscordCommandResponse::followup_embed_response(
        user_msg,
        Some(correlation_id.as_str()),
        Some(red_color()),
        ephemeral,
    );
    (response, LogEntry { correlation_id, text })
}

/// What one unwrapping step of a handler's flow yields: the value to go
/// on with, or the failure response that ends the flow, beside the log
/// entry when the failure carries a correlation identifier.
#[derive(Debug)]
pub enum Unwrapped {
    Value(String),
    Fail(DiscordCommandResponse, Option<LogEntry>),
}

/// The failure for an absent value: the message in a red embed with no
/// footer and no log entry.
pub open spec fn is_missing_failure(r: Unwrapped, none_msg: Seq<char>, ephemeral: bool) -> bool {
    &&& r matches Unwrapped::Fail(resp, log)
    &&& log is None
    &&& is_followup_embed(resp, none_msg, None, Some((Color { r: 255, g: 0, b: 0 })), ephemeral)
}

/// The failure for a backend error: the message in a red embed whose
/// footer carries the correlation identifier of the log entry beside it.
pub open spec fn is_error_failure(
    r: Unwrapped,
    err_msg: Seq<char>,
    log_msg: Seq<char>,
    cause: Seq<char>,
    ephemeral: bool,
) -> bool {
    &&& r matches Unwrapped::Fail(resp, log)
    &&& log matches Some(l)
    &&& is_failure_log(l, log_msg, cause)
    &&& is_followup_embed(
        resp,
        err_msg,
        Some(l.correlation_id@),
        Some((Color { r: 255, g: 0, b: 0 })),
        ephemeral,
    )
}

/// Law: an error-path failure embeds in its footer exactly the
/// correlation identifier that opens the log line written for the same
/// failure, so that the user-visible identifier and the logged one can
/// be matched character for character.
pub proof fn lemma_error_correlation_round_trip(
    r: Unwrapped,
    err_msg: Seq<char>,
    log_msg: Seq<char>,
    cause: Seq<char>,
    ephemeral: bool,
)
    requires
        is_error_failure(r, err_msg, log_msg, cause, ephemeral),
    ensures
        ({
            &&& r matches Unwrapped::Fail(resp, log)
            &&& log matches Some(l)
            &&& resp matches DiscordCommandResponse::Followup(m)
            &&& m.embed matches Some(e)
            &&& e.footer matches Some(f)
            &&& f@ == l.correlation_id@
            &&& l.text@.subrange(0, l.correlation_id@.len() as int) == l.correlation_id@
        }),
{
    let l = r.arrow_Fail_1()->0;
    assert(l.text@.subrange(0, l.correlation_id@.len() as int) =~= l.correlation_id@);
}

/// Unwraps an optional value: an absent one becomes the failure embed for
/// `none_msg`.
pub fn unwrap_option(v: Option<String>, none_msg: &str, ephemeral: bool) -> (r: Unwrapped)
    ensures
        (match v {
            Some(s) => r == Unwrapped::Value(s),
            None => is_missing_failure(r, none_msg@, ephemeral),
        }),
{
    match v {
        Some(s) => Unwrapped::Value(s),
        None => Unwrapped::Fail(
            DiscordCommandResponse::followup_embed_response(
                none_msg,
                None,
                Some(red_color()),
                ephemeral,
            ),
            None,
        ),
    }
}

/// Unwraps a fallible value: an error becomes the failure embed for
/// `err_msg` and the log entry correlating it with the cause.
pub fn unwrap_result(v: Result<String, String>, err_msg: &str, log_msg: &str, ephemeral: bool) -> (r:
    Unwrapped)
    ensures
        (match v {
            Ok(s) => r == Unwrapped::Value(s),
            Err(cause) => is_error_failure(r, err_msg@, log_msg@, cause@, ephemeral),
        }),
{
    match v {
        Ok(s) => Unwrapped::Value(s),
        Err(cause) => {
            let (resp, log) = failure_followup(err_msg, log_msg, cause.as_str(), ephemeral);
            Unwrapped::Fail(resp, Some(log))
        },
    }
}

/// Unwraps a fallible optional value: an absent one becomes the failure
/// embed for `none_msg`, an error the one for `err_msg` with its log
/// entry.
pub fn unwrap_result_option(
    v: Result<Option<String>, String>,
    none_msg: &str,
    err_msg: &str,
    log_msg: &str,
    ephemeral: bool,
) -> (r: Unwrapped)
    ensures
        (match v {
            Ok(Some(s)) => r == Unwrapped::Value(s),
            Ok(None) => is_missing_failure(r, none_msg@, ephemeral),
            Err(cause) => is_error_failure(r, err_msg@, log_msg@, cause@, ephemeral),
        }),
{
    match v {
        Ok(Some(s)) => Unwrapped::Value(s),
        Ok(None) => Unwrapped::Fail(
            DiscordCommandResponse::followup_embed_response(
                none_msg,
                None,
                Some(red_color()),
                ephemeral,
            ),
            None,
        ),
        Err(cause) => {
            let (resp, log) = failure_followup(err_msg, log_msg, cause.as_str(), ephemeral);
            Unwrapped::Fail(resp, Some(log))
        },
    }
}

} // verus!
