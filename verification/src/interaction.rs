//! One inbound command invocation, as the handlers read it.

use vstd::prelude::*;

verus! {

/// A user of the chat platform.
#[derive(Clone, Debug, PartialEq, Eq)]
pub struct User {
    pub id: u64,
    pub name: String,
}

/// What an option of a command resolved to.
#[derive(Clone, Debug, PartialEq, Eq)]
pub enum OptionValue {
    String(String),
    Integer(i64),
    User(User),
    /// A value of a kind that no handler reads.
    Other,
}

/// One named option of a command invocation.
#[derive(Clone, Debug, PartialEq, Eq)]
pub struct CommandOption {
    pub name: String,
    /// The resolved value, where the platform sent one.
    pub resolved: Option<OptionValue>,
}

/// A command invocation. It needs exactly one initial response.
#[derive(Clone, Debug, PartialEq, Eq)]
pub struct Interaction {
    pub command_name: String,
    pub options: Vec<CommandOption>,
    pub channel_id: u64,
    /// The invoking member's user id; present only inside a guild.
    pub caller_user_id: Option<u64>,
}

impl Interaction {
    /// The resolved value of the option at `index`, if there is such an option
    /// and it resolved to a value.
    pub open spec fn resolved_at(&self, index: int) -> Option<OptionValue> {
        if 0 <= index < self.options@.len() {
            self.options@[index].resolved
        } else {
            None
        }
    }

    /// The option at `index` read as a string.
    pub open spec fn string_at(&self, index: int) -> Option<String> {
        match self.resolved_at(index) {
            Some(OptionValue::String(text)) => Some(text),
            _ => None,
        }
    }

    /// The option at `index` read as a user.
    pub open spec fn user_at(&self, index: int) -> Option<User> {
        match self.resolved_at(index) {
            Some(OptionValue::User(user)) => Some(user),
            _ => None,
        }
    }

    /// The option at `index` read as an integer.
    pub open spec fn integer_at(&self, index: int) -> Option<i64> {
        match self.resolved_at(index) {
            Some(OptionValue::Integer(number)) => Some(number),
            _ => None,
        }
    }
}

/// The string that the option at `index` resolved to. `None` where `command`
/// has no option at `index`, or that option did not resolve, or it resolved to
/// something other than a string.
pub fn get_string_option(command: &Interaction, index: usize) -> (found: Option<String>)
    ensures
        found == command.string_at(index as int),
{
    if index < command.options.len() {
        match &command.options[index].resolved {
            Some(OptionValue::String(text)) => Some(text.clone()),
            _ => None,
        }
    } else {
        None
    }
}

/// The user that the option at `index` resolved to. `None` where `command`
/// has no option at `index`, or that option did not resolve, or it resolved to
/// something other than a user.
pub fn get_user_option(command: &Interaction, index: usize) -> (found: Option<User>)
    ensures
        found == command.user_at(index as int),
{
    if index < command.options.len() {
        match &command.options[index].resolved {
            Some(OptionValue::User(user)) => Some(
                User { id: user.id, name: user.name.clone() },
            ),
            _ => None,
        }
    } else {
        None
    }
}

/// The integer that the option at `index` resolved to. `None` where `command`
/// has no option at `index`, or that option did not resolve, or it resolved to
/// something other than an integer.
pub fn get_integer_option(command: &Interaction, index: usize) -> (found: Option<i64>)
    ensures
        found == command.integer_at(index as int),
{
    if index < command.options.len() {
        match &command.options[index].resolved {
            Some(OptionValue::Integer(number)) => Some(*number),
            _ => None,
        }
    } else {
        None
    }
}

/// The user id of the member who invoked `command`, where it was invoked
/// inside a guild.
pub fn get_caller_user_id(command: &Interaction) -> (caller: Option<u64>)
    ensures
        caller == command.caller_user_id,
{
    command.caller_user_id
}

} // verus!
