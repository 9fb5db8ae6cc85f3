//! The chat commands the bot answers, and the answer each one
//! gets.
//!
//! Parsing the raw text and sending the reply belong to the
//! transport glue; this module decides which reply a command earns
//! given where it was issued and whether the bot holds admin
//! permissions there.

use vstd::prelude::*;

use crate::config::GroupsConfig;

verus! {

/// The commands members can issue.
#[derive(Clone, Copy, PartialEq, Eq, Debug)]
pub enum Command {
    /// Explain how the bot works and how to use it.
    Help,
    /// Check that the bot is present and has the right
    /// permissions.
    Check,
    /// Initial help when talking to the bot for the first time.
    Start,
}

/// The reply a command earns, if any: `Check` is answered
/// everywhere, `Help` and `Start` only in a private chat.
pub open spec fn spec_command_reply(cmd: Command, is_private: bool, is_admin: bool) -> Option<
    Seq<char>,
> {
    match cmd {
        Command::Check => if is_private {
            Some(
                "You can only use this bot in public groups. Please add me to a public group (with admin permissions) and try again."@,
            )
        } else if is_admin {
            Some(
                "Bot has admin permissions and is ready to go! Once someone joins the group, they'll be asked to prove they're human with World ID before they can send messages."@,
            )
        } else {
            Some("Bot doesn't have admin permissions! Please, give it admin permissions and try again."@)
        },
        Command::Help | Command::Start => if is_private {
            Some(
                "Welcome to the World ID Telegram bot!\n\nYou can use me to protect your group from spammers and bots. To get started, add me to your (public) group and give me admin permissions. When someone joins your group, they'll be asked to prove they're human with World ID before they can send messages."@,
            )
        } else {
            None
        },
    }
}

/// Decides the reply to `cmd`, issued in a private chat or not,
/// with the bot holding admin permissions in the group or not.
pub fn command_reply(cmd: Command, is_private: bool, is_admin: bool) -> (r: Option<&'static str>)
    ensures
        match r {
            Some(reply) => spec_command_reply(cmd, is_private, is_admin) == Some(reply@),
            None => spec_command_reply(cmd, is_private, is_admin) is None,
        },
{
    match cmd {
        Command::Check => {
            if is_private {
                Some(
                    "You can only use this bot in public groups. Please add me to a public group (with admin permissions) and try again.",
                )
            } else if is_admin {
                Some(
                    "Bot has admin permissions and is ready to go! Once someone joins the group, they'll be asked to prove they're human with World ID before they can send messages.",
                )
            } else {
                Some(
                    "Bot doesn't have admin permissions! Please, give it admin permissions and try again.",
                )
            }
        },
        Command::Help | Command::Start => {
            if is_private {
                Some(
                    "Welcome to the World ID Telegram bot!\n\nYou can use me to protect your group from spammers and bots. To get started, add me to your (public) group and give me admin permissions. When someone joins your group, they'll be asked to prove they're human with World ID before they can send messages.",
                )
            } else {
                None
            }
        },
    }
}

/// The notice owed to a group the bot does not serve, if any: the
/// glue sends it and leaves the group.  Serves both command handling
/// and join handling.
pub fn unauthorized_notice(config: &GroupsConfig, group: i64) -> (r: Option<String>)
    ensures
        match r {
            Some(notice) => !config.spec_is_group_allowed(group) && notice@ == config.spec_get(
                group,
            ).messages.unauthorized_group@,
            None => config.spec_is_group_allowed(group),
        },
{
    if config.is_group_allowed(group) {
        None
    } else {
        let settings = config.get(group);
        Some(settings.messages.unauthorized_group.clone())
    }
}

} // verus!
