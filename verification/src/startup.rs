//! What the bot registers with the platform once the gateway is connected.

use vstd::prelude::*;
use crate::handler::{Notice, NoticeView, TarotBotHandler};
use crate::interaction::User;

verus! {

/// The guild that gets the commands registered for itself as well.
pub const HOME_GUILD: u64 = 494671450985201665;

/// A command as the platform lists it.
#[derive(Clone, Debug, PartialEq, Eq)]
pub struct CommandDefinition {
    pub name: String,
    pub description: String,
}

/// A [`CommandDefinition`] as plain values.
pub struct CommandDefinitionView {
    pub name: Seq<char>,
    pub description: Seq<char>,
}

impl View for CommandDefinition {
    type V = CommandDefinitionView;

    open spec fn view(&self) -> CommandDefinitionView {
        CommandDefinitionView { name: self.name@, description: self.description@ }
    }
}

/// `commands` as plain values, in order.
pub open spec fn definitions_of(commands: Seq<CommandDefinition>) -> Seq<CommandDefinitionView> {
    commands.map_values(|command: CommandDefinition| command@)
}

/// The commands that are registered for every guild.
pub open spec fn global_commands() -> Seq<CommandDefinitionView> {
    seq![
        CommandDefinitionView { name: "ping"@, description: "A ping command"@ },
        CommandDefinitionView { name: "reading"@, description: "Tarot Reading"@ },
    ]
}

/// One registration call to the platform.
#[derive(Clone, Debug, PartialEq, Eq)]
pub enum Registration {
    /// Sets the commands of every guild.
    Global { commands: Vec<CommandDefinition> },
    /// Adds one command to one guild.
    Guild { guild_id: u64, command: CommandDefinition },
}

/// A [`Registration`] as plain values.
pub enum RegistrationView {
    Global { commands: Seq<CommandDefinitionView> },
    Guild { guild_id: u64, command: CommandDefinitionView },
}

impl View for Registration {
    type V = RegistrationView;

    open spec fn view(&self) -> RegistrationView {
        match *self {
            Registration::Global { commands } => RegistrationView::Global {
                commands: definitions_of(commands@),
            },
            Registration::Guild { guild_id, command } => RegistrationView::Guild {
                guild_id,
                command: command@,
            },
        }
    }
}

/// `registrations` as plain values, in order.
pub open spec fn registrations_of(registrations: Seq<Registration>) -> Seq<RegistrationView> {
    registrations.map_values(|registration: Registration| registration@)
}

/// The registrations of a start, in the order in which they are made.
pub open spec fn startup_registrations() -> Seq<RegistrationView> {
    seq![
        RegistrationView::Global { commands: global_commands() },
        RegistrationView::Guild {
            guild_id: HOME_GUILD,
            command: CommandDefinitionView { name: "ping"@, description: "A test ping command"@ },
        },
        RegistrationView::Guild {
            guild_id: HOME_GUILD,
            command: CommandDefinitionView { name: "reading"@, description: "Tarot Reading"@ },
        },
    ]
}

/// What is said when a registration of this kind fails. The process does
/// not go on after that.
pub open spec fn fatal_text(registration: RegistrationView) -> Seq<char> {
    match registration {
        RegistrationView::Global { .. } => "couldn't create application commands"@,
        RegistrationView::Guild { .. } => "failed to create guild command"@,
    }
}

impl Registration {
    /// The message with which the process stops when this registration fails.
    pub fn fatal_message(&self) -> (message: String)
        ensures
            message@ == fatal_text(self@),
    {
        match self {
            Registration::Global { .. } => String::from_str("couldn't create application commands"),
            Registration::Guild { .. } => String::from_str("failed to create guild command"),
        }
    }
}

/// The gateway's word that the connection stands.
#[derive(Clone, Debug, PartialEq, Eq)]
pub struct Ready {
    /// The bot's own user.
    pub user: User,
}

/// What a start does: one line for the log, then the registrations in order.
/// The first registration that fails ends the process.
#[derive(Clone, Debug, PartialEq, Eq)]
pub struct Startup {
    pub notice: Notice,
    pub registrations: Vec<Registration>,
}

/// Adds the commands `ping` and `reading` to the end of `commands`, in that
/// order, and leaves what `commands` held before as it was.
pub fn register_commands(commands: &mut Vec<CommandDefinition>)
    ensures
        definitions_of(final(commands)@) == definitions_of(old(commands)@) + global_commands(),
{
    commands.push(
        CommandDefinition {
            name: String::from_str("ping"),
            description: String::from_str("A ping command"),
        },
    );
    commands.push(
        CommandDefinition {
            name: String::from_str("reading"),
            description: String::from_str("Tarot Reading"),
        },
    );
    assert(definitions_of(commands@) =~= definitions_of(old(commands)@) + global_commands());
}

impl TarotBotHandler {
    /// The start: the connection is logged, then both commands are registered
    /// for every guild and once more, one by one, for the home guild.
    pub fn ready(&self, ready: &Ready) -> (startup: Startup)
        ensures
            startup.notice@ == (NoticeView::Connected {
                user_id: ready.user.id,
                user_name: ready.user.name@,
            }),
            registrations_of(startup.registrations@) == startup_registrations(),
    {
        let mut commands: Vec<CommandDefinition> = Vec::new();
        register_commands(&mut commands);
        assert(definitions_of(commands@) =~= global_commands());
        let mut registrations: Vec<Registration> = Vec::new();
        registrations.push(Registration::Global { commands });
        registrations.push(
            Registration::Guild {
                guild_id: HOME_GUILD,
                command: CommandDefinition {
                    name: String::from_str("ping"),
                    description: String::from_str("A test ping command"),
                },
            },
        );
        registrations.push(
            Registration::Guild {
                guild_id: HOME_GUILD,
                command: CommandDefinition {
                    name: String::from_str("reading"),
                    description: String::from_str("Tarot Reading"),
                },
            },
        );
        assert(registrations_of(registrations@) =~= startup_registrations());
        Startup {
            notice: Notice::Connected {
                user_id: ready.user.id,
                user_name: ready.user.name.clone(),
            },
            registrations,
        }
    }
}

} // verus!
